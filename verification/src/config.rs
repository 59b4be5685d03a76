//! The configuration that the compactor reads.

use vstd::prelude::*;
use crate::ratio::Ratio;

verus! {

/// The caps of the abridged transcript.
#[derive(Clone, Copy, Debug)]
pub struct AbridgedHistoryParams {
    /// Bytes that the whole transcript may hold.
    pub total_chars_limit: usize,
    /// Characters that a user message may hold.
    pub user_message_chars_limit: usize,
    /// Characters that an agent response may hold.
    pub agent_response_chars_limit: usize,
    /// Characters that one listed path or command may hold.
    pub action_chars_limit: usize,
    /// Modified files that are listed.
    pub num_files_modified_limit: usize,
    /// Created files that are listed.
    pub num_files_created_limit: usize,
    /// Deleted files that are listed.
    pub num_files_deleted_limit: usize,
    /// Viewed files that are listed.
    pub num_files_viewed_limit: usize,
    /// Terminal commands that are listed.
    pub num_terminal_commands_limit: usize,
}

impl Default for AbridgedHistoryParams {
    fn default() -> (p: Self)
        ensures
            p.total_chars_limit == 10000,
            p.user_message_chars_limit == 1000,
            p.agent_response_chars_limit == 2000,
            p.action_chars_limit == 200,
            p.num_files_modified_limit == 10,
            p.num_files_created_limit == 10,
            p.num_files_deleted_limit == 10,
            p.num_files_viewed_limit == 10,
            p.num_terminal_commands_limit == 10,
    {
        AbridgedHistoryParams {
            total_chars_limit: 10000,
            user_message_chars_limit: 1000,
            agent_response_chars_limit: 2000,
            action_chars_limit: 200,
            num_files_modified_limit: 10,
            num_files_created_limit: 10,
            num_files_deleted_limit: 10,
            num_files_viewed_limit: 10,
            num_terminal_commands_limit: 10,
        }
    }
}

/// The settings of history summaries.
#[derive(Clone, Debug)]
pub struct HistorySummaryConfig {
    /// Master switch.
    pub enabled: bool,
    /// `chars`, `ratio` or `auto`; anything else counts as `auto`.
    pub trigger_strategy: String,
    /// Bytes from which the `chars` strategy triggers; a quarter of it also
    /// caps the context window under `auto`.
    pub trigger_on_history_size_chars: usize,
    /// Share of the context window from which `ratio` and `auto` trigger.
    pub trigger_on_context_ratio: Ratio,
    /// Share of the context window that a compacted history aims at.
    pub target_context_ratio: Ratio,
    /// Context window of a model without an override, in tokens; zero where
    /// none is known.
    pub context_window_tokens_default: u32,
    /// Context windows by a part of the model's name, in configured order.
    /// Among keys of the same length the earlier entry wins, so that of a
    /// key that occurs twice only the first entry counts.
    pub context_window_tokens_overrides: Vec<(String, u32)>,
    /// Bytes of tail that the `chars` strategy keeps.
    pub history_tail_size_chars_to_exclude: usize,
    /// Exchanges that the tail holds at least.
    pub min_tail_exchanges: usize,
    /// Tokens that the summarizer may produce.
    pub max_tokens: u32,
    /// Seconds that one call of the summarizer may take.
    pub timeout_seconds: u64,
    /// The provider that summarizes.
    pub provider_id: String,
    /// The model that summarizes.
    pub model: String,
    /// The prompt that asks for a summary.
    pub prompt: String,
    /// Whether an earlier summary is updated rather than made anew.
    pub rolling_summary: bool,
    /// Bytes that the summarizer's input may hold; zero for no cap.
    pub max_summarization_input_chars: usize,
    /// Milliseconds for which a stored summary stays fresh; zero for ever.
    pub cache_ttl_ms: u64,
    /// Whether the summary node carries the tail itself.
    pub use_history_summary_new: bool,
    /// Template of the summary node's message.
    pub summary_node_request_message_template: String,
    /// Template of the summary node's message where it carries the tail.
    pub summary_node_request_message_template_new: String,
    /// The caps of the abridged transcript.
    pub abridged_history_params: AbridgedHistoryParams,
}

/// A provider that speaks the Anthropic protocol.
#[derive(Clone, Debug)]
pub struct AnthropicProviderConfig {
    /// The provider's identifier.
    pub id: String,
    /// The address that endpoints are joined to.
    pub base_url: String,
    /// The key, as configured.
    pub api_key: String,
    /// Headers that are added to each call, by name and value, in the
    /// order in which they are set.
    pub extra_headers: Vec<(String, String)>,
}

/// A provider that speaks the OpenAI chat-completions protocol.
#[derive(Clone, Debug)]
pub struct OpenAICompatibleProviderConfig {
    /// The provider's identifier.
    pub id: String,
    /// The address that endpoints are joined to.
    pub base_url: String,
    /// The key, as configured.
    pub api_key: String,
    /// Headers that are added to each call, by name and value, in the
    /// order in which they are set.
    pub extra_headers: Vec<(String, String)>,
}

/// A configured provider.
#[derive(Clone, Debug)]
pub enum ProviderConfig {
    Anthropic(AnthropicProviderConfig),
    OpenAICompatible(OpenAICompatibleProviderConfig),
}

/// The providers that the user brought keys for.
#[derive(Clone, Debug)]
pub struct ByokConfig {
    /// The providers, in configured order.
    pub providers: Vec<ProviderConfig>,
}

/// The configuration as a whole.
#[derive(Clone, Debug)]
pub struct Config {
    /// History summaries.
    pub history_summary: HistorySummaryConfig,
    /// Providers.
    pub byok: ByokConfig,
}

} // verus!
