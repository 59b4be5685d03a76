use history_compaction::cache::{HistorySummaryCache, RollingSummaryState};
use history_compaction::compact::{
    accept_summary, begin_compaction, build_summarizer_input, build_summary_node_value,
    compacted_history, compaction_outcome, finish_compaction, plan_compaction, store_summary,
    CompactionPlan, CompactionStep, SummarizerInput,
};
use history_compaction::config::{
    AbridgedHistoryParams, AnthropicProviderConfig, ByokConfig, Config, HistorySummaryConfig,
    ProviderConfig,
};
use history_compaction::protocol::{
    AugmentChatHistory, AugmentRequest, NodeIn, ToolResultNode, REQUEST_NODE_HISTORY_SUMMARY,
    REQUEST_NODE_TEXT, REQUEST_NODE_TOOL_RESULT,
};
use history_compaction::ratio::Ratio;
use history_compaction::summarizer::{ProviderError, SummaryProviderRef};
use history_compaction::trigger::TriggerDecision;

const ROLLING_SUFFIX: &str = "\n\nYou will be given an existing summary and additional new conversation turns. Update the summary to include the new information. Output only the updated summary.";

fn node(node_type: i32) -> NodeIn {
    NodeIn {
        id: 0,
        node_type,
        content: String::new(),
        text_node: None,
        tool_result_node: None,
        image_node: None,
        image_id_node: None,
        ide_state_node: None,
        edit_events_node: None,
        checkpoint_ref_node: None,
        change_personality_node: None,
        file_node: None,
        file_id_node: None,
        history_summary_node: None,
        tool_use: None,
        thinking: None,
    }
}

fn tool_result_node() -> NodeIn {
    let mut n = node(REQUEST_NODE_TOOL_RESULT);
    n.tool_result_node = Some(ToolResultNode {
        tool_use_id: "tool-1".to_string(),
        content: "OK".to_string(),
        content_nodes: Vec::new(),
        is_error: false,
    });
    n
}

fn exchange(id: &str, size: usize) -> AugmentChatHistory {
    AugmentChatHistory {
        response_text: "y".repeat(size / 2),
        request_message: "x".repeat(size - size / 2),
        request_id: id.to_string(),
        request_nodes: Vec::new(),
        structured_request_nodes: Vec::new(),
        nodes: Vec::new(),
        response_nodes: Vec::new(),
        structured_output_nodes: Vec::new(),
    }
}

fn request(conversation: Option<&str>, history: Vec<AugmentChatHistory>) -> AugmentRequest {
    AugmentRequest {
        model: None,
        chat_history: history,
        message: String::new(),
        agent_memories: String::new(),
        mode: String::new(),
        prefix: String::new(),
        suffix: String::new(),
        lang: String::new(),
        path: String::new(),
        user_guidelines: String::new(),
        tool_definitions: Vec::new(),
        nodes: Vec::new(),
        structured_request_nodes: Vec::new(),
        request_nodes: Vec::new(),
        conversation_id: conversation.map(|c| c.to_string()),
    }
}

fn config() -> Config {
    Config {
        history_summary: HistorySummaryConfig {
            enabled: true,
            trigger_strategy: "chars".to_string(),
            trigger_on_history_size_chars: 500,
            trigger_on_context_ratio: Ratio::new(8, 10).unwrap(),
            target_context_ratio: Ratio::new(1, 2).unwrap(),
            context_window_tokens_default: 0,
            context_window_tokens_overrides: Vec::new(),
            history_tail_size_chars_to_exclude: 200,
            min_tail_exchanges: 1,
            max_tokens: 10,
            timeout_seconds: 30,
            provider_id: "p".to_string(),
            model: "m".to_string(),
            prompt: " Summarize. ".to_string(),
            rolling_summary: false,
            max_summarization_input_chars: 0,
            cache_ttl_ms: 0,
            use_history_summary_new: false,
            summary_node_request_message_template: "T".to_string(),
            summary_node_request_message_template_new: "TN".to_string(),
            abridged_history_params: AbridgedHistoryParams::default(),
        },
        byok: ByokConfig {
            providers: vec![ProviderConfig::Anthropic(AnthropicProviderConfig {
                id: "p".to_string(),
                base_url: "https://api.example.com/v1".to_string(),
                api_key: "sk".to_string(),
                extra_headers: Vec::new(),
            })],
        },
    }
}

fn five() -> Vec<AugmentChatHistory> {
    vec![
        exchange("r1", 300),
        exchange("r2", 300),
        exchange("r3", 300),
        exchange("r4", 300),
        exchange("r5", 300),
    ]
}

fn ids(history: &[AugmentChatHistory]) -> Vec<String> {
    history.iter().map(|h| h.request_id.clone()).collect()
}

fn state(boundary: &str, text: &str, id: &str) -> RollingSummaryState {
    RollingSummaryState {
        summary_text: text.to_string(),
        summarized_until_request_id: boundary.to_string(),
        summarization_request_id: id.to_string(),
        updated_at_ms: 0,
    }
}

fn plan(tail_start: usize, boundary: &str) -> CompactionPlan {
    CompactionPlan {
        conversation_id: "conv".to_string(),
        trigger: TriggerDecision::TriggerChars { threshold_chars: 500 },
        tail_start,
        boundary_request_id: boundary.to_string(),
        abridged_history_text: "abridged".to_string(),
        num_dropped_in_beginning: 2,
    }
}

fn summarize(step: CompactionStep) -> (CompactionPlan, SummarizerInput) {
    match step {
        CompactionStep::Summarize { plan, input, .. } => (plan, input),
        other => panic!("a summary was expected to be asked for, not {:?}", other),
    }
}

#[test]
fn disabled_summaries_leave_the_request_alone() {
    let mut cfg = config();
    cfg.history_summary.enabled = false;
    let r = request(Some("conv"), five());
    let cache = HistorySummaryCache::new();
    assert!(matches!(begin_compaction(&cfg, "m", &r, &cache, 1), CompactionStep::Skip));
    assert!(plan_compaction(&cfg.history_summary, "m", &r).is_none());
    assert_eq!(ids(&r.chat_history), vec!["r1", "r2", "r3", "r4", "r5"]);
}

#[test]
fn a_history_with_a_summary_is_left_alone() {
    let cfg = config();
    let mut history = five();
    let mut summary = node(REQUEST_NODE_HISTORY_SUMMARY);
    summary.history_summary_node = Some("{}".to_string());
    history[0].request_nodes = vec![summary];
    let r = request(Some("conv"), history);
    let cache = HistorySummaryCache::new();
    assert!(matches!(begin_compaction(&cfg, "m", &r, &cache, 1), CompactionStep::Skip));
    assert!(plan_compaction(&cfg.history_summary, "m", &r).is_none());
    assert_eq!(r.chat_history.len(), 5);
}

#[test]
fn a_request_without_conversation_or_history_is_left_alone() {
    let cfg = config();
    let cache = HistorySummaryCache::new();
    for r in [
        request(None, five()),
        request(Some(""), five()),
        request(Some(" \n"), five()),
        request(Some("conv"), Vec::new()),
    ] {
        assert!(matches!(begin_compaction(&cfg, "m", &r, &cache, 1), CompactionStep::Skip));
    }
}

#[test]
fn below_threshold_nothing_happens() {
    let mut cfg = config();
    cfg.history_summary.trigger_on_history_size_chars = 10_000_000;
    let r = request(Some("conv"), vec![exchange("r1", 100), exchange("r2", 100)]);
    let cache = HistorySummaryCache::new();
    assert!(matches!(begin_compaction(&cfg, "m", &r, &cache, 1), CompactionStep::Skip));
    assert_eq!(ids(&r.chat_history), vec!["r1", "r2"]);
    assert_eq!(r.chat_history[0].request_message.len() + r.chat_history[0].response_text.len(), 100);
}

#[test]
fn the_current_message_counts_for_the_trigger() {
    let mut cfg = config();
    cfg.history_summary.trigger_on_history_size_chars = 601;
    let mut r = request(Some("conv"), vec![exchange("r1", 300), exchange("r2", 300)]);
    assert!(plan_compaction(&cfg.history_summary, "m", &r).is_none());
    // the trigger fires on 601 bytes, but the splitter weighs the history alone
    r.message = "!".to_string();
    assert!(plan_compaction(&cfg.history_summary, "m", &r).is_none());
    cfg.history_summary.trigger_on_history_size_chars = 600;
    r.message = String::new();
    assert_eq!(plan_compaction(&cfg.history_summary, "m", &r).unwrap().tail_start, 1);
}

#[test]
fn trigger_by_chars_compacts_the_head() {
    let cfg = config();
    let mut r = request(Some(" conv "), five());
    let mut cache = HistorySummaryCache::new();
    let now = 1234;

    let (plan, input) = summarize(begin_compaction(&cfg, "m", &r, &cache, now));
    assert_eq!(plan.conversation_id, "conv");
    assert_eq!(plan.trigger, TriggerDecision::TriggerChars { threshold_chars: 500 });
    assert_eq!(plan.tail_start, 4);
    assert_eq!(plan.boundary_request_id, "r5");
    assert_eq!(plan.num_dropped_in_beginning, 0);
    assert!(plan.abridged_history_text.starts_with("<user_request>\nxxx"));
    assert_eq!(plan.abridged_history_text.matches("<user_request>").count(), 4);
    assert!(!input.used_rolling);
    assert_eq!(input.prompt, " Summarize. ");
    assert_eq!(ids(&input.history), vec!["r1", "r2", "r3", "r4"]);

    let accepted = store_summary(&mut cache, &plan, "resp-1".to_string(), "  SUMMARY\n", now).unwrap();
    assert_eq!(accepted.summary_text, "SUMMARY");
    assert_eq!(accepted.summarization_request_id, "resp-1");

    let value = build_summary_node_value(
        &cfg.history_summary,
        &r.chat_history,
        &plan,
        accepted.summary_text,
        accepted.summarization_request_id,
    );
    assert_eq!(value.summary_text, "SUMMARY");
    assert_eq!(value.summarization_request_id, "resp-1");
    assert_eq!(value.history_beginning_dropped_num_exchanges, 0);
    assert_eq!(value.history_middle_abridged_text, plan.abridged_history_text);
    assert!(value.history_end.is_empty());
    assert_eq!(value.message_template, "T");

    assert!(finish_compaction(&mut r, &plan, Some("RENDERED".to_string()), false));
    assert_eq!(ids(&r.chat_history), vec!["proxy_history_summary", "r5"]);
    let first = &r.chat_history[0];
    assert_eq!(first.request_message, "");
    assert_eq!(first.response_text, "");
    assert_eq!(first.request_nodes.len(), 1);
    assert_eq!(first.request_nodes[0].id, -10);
    assert_eq!(first.request_nodes[0].node_type, REQUEST_NODE_TEXT);
    assert_eq!(first.request_nodes[0].text_node.as_ref().unwrap().content, "RENDERED");
    assert!(first.structured_request_nodes.is_empty());
    assert!(first.nodes.is_empty());
    assert!(first.response_nodes.is_empty());
    assert!(first.structured_output_nodes.is_empty());
    assert_eq!(r.chat_history[1].request_message, "x".repeat(150));
    assert_eq!(r.chat_history[1].response_text, "y".repeat(150));
    assert_eq!(r.conversation_id.as_deref(), Some(" conv "));

    let stored = cache.get_fresh_state("conv", now, 0).unwrap();
    assert_eq!(stored.summarized_until_request_id, "r5");
    assert_eq!(stored.summary_text, "SUMMARY");
    assert_eq!(stored.updated_at_ms, now);
}

#[test]
fn tool_result_orphans_are_avoided() {
    let mut cfg = config();
    cfg.history_summary.trigger_on_history_size_chars = 1;
    cfg.history_summary.history_tail_size_chars_to_exclude = 0;
    cfg.history_summary.min_tail_exchanges = 2;
    let mut r2 = exchange("r2", 10);
    r2.request_nodes = vec![tool_result_node()];
    let r = request(Some("conv"), vec![exchange("r1", 10), r2, exchange("r3", 10)]);
    let cache = HistorySummaryCache::new();
    assert!(matches!(begin_compaction(&cfg, "m", &r, &cache, 1), CompactionStep::Skip));
    assert_eq!(ids(&r.chat_history), vec!["r1", "r2", "r3"]);
}

#[test]
fn the_tail_starts_before_its_tool_results() {
    let mut cfg = config();
    cfg.history_summary.trigger_on_history_size_chars = 1;
    cfg.history_summary.history_tail_size_chars_to_exclude = 0;
    cfg.history_summary.min_tail_exchanges = 1;
    let mut r3 = exchange("r3", 10);
    r3.request_nodes = vec![tool_result_node()];
    let mut r4 = exchange("r4", 10);
    r4.nodes = vec![tool_result_node()];
    let r = request(Some("conv"), vec![exchange("r1", 10), exchange("r2", 10), r3, r4]);
    let plan = plan_compaction(&cfg.history_summary, "m", &r).unwrap();
    assert_eq!(plan.tail_start, 1);
    assert_eq!(plan.boundary_request_id, "r2");
    assert_eq!(
        plan.abridged_history_text,
        "<user_request>\nxxxxx\n</user_request>\n<agent_response>\nyyyyy\n</agent_response>"
    );
}

#[test]
fn a_blank_boundary_stops_the_compaction() {
    let cfg = config();
    let mut history = five();
    history[4].request_id = "  ".to_string();
    let r = request(Some("conv"), history);
    assert!(plan_compaction(&cfg.history_summary, "m", &r).is_none());
}

#[test]
fn the_boundary_is_found_by_its_identifier() {
    let cfg = config();
    let mut history = five();
    history[1].request_id = "r5".to_string();
    let r = request(Some("conv"), history);
    let plan = plan_compaction(&cfg.history_summary, "m", &r).unwrap();
    assert_eq!(plan.tail_start, 1);
    assert_eq!(plan.boundary_request_id, "r5");
    assert_eq!(plan.abridged_history_text.matches("<user_request>").count(), 1);
}

#[test]
fn cache_hit_needs_no_summarizer() {
    let cfg = config();
    let mut r = request(Some("conv"), five());
    r.chat_history.truncate(4);
    r.chat_history[3].request_id = "r4".to_string();
    let mut cfg3 = cfg;
    cfg3.history_summary.history_tail_size_chars_to_exclude = 301;
    let mut cache = HistorySummaryCache::new();
    let now = 77;
    cache.put("conv", "r3", "S".to_string(), "p1".to_string(), now);
    match begin_compaction(&cfg3, "m", &r, &cache, now) {
        CompactionStep::Reuse { plan, summary_text, summarization_request_id } => {
            assert_eq!(plan.boundary_request_id, "r3");
            assert_eq!(plan.tail_start, 2);
            assert_eq!(summary_text, "S");
            assert_eq!(summarization_request_id, "p1");
            let value = build_summary_node_value(
                &cfg3.history_summary,
                &r.chat_history,
                &plan,
                summary_text,
                summarization_request_id,
            );
            assert_eq!(value.summary_text, "S");
            assert_eq!(value.summarization_request_id, "p1");
            assert!(finish_compaction(&mut r, &plan, Some("node".to_string()), false));
        },
        other => panic!("the stored summary was expected to be used, not {:?}", other),
    }
    assert_eq!(ids(&r.chat_history), vec!["proxy_history_summary", "r3", "r4"]);
}

#[test]
fn a_stale_summary_is_made_anew() {
    let mut cfg = config();
    cfg.history_summary.cache_ttl_ms = 10;
    let r = request(Some("conv"), five());
    let mut cache = HistorySummaryCache::new();
    cache.put("conv", "r5", "S".to_string(), "p1".to_string(), 100);
    assert!(matches!(begin_compaction(&cfg, "m", &r, &cache, 110), CompactionStep::Reuse { .. }));
    assert!(matches!(begin_compaction(&cfg, "m", &r, &cache, 111), CompactionStep::Summarize { .. }));
}

#[test]
fn rolling_update_hands_over_the_previous_summary() {
    let mut cfg = config();
    cfg.history_summary.rolling_summary = true;
    let r = request(Some("conv"), five());
    let mut cache = HistorySummaryCache::new();
    cache.put("conv", "r3", " S0 ".to_string(), "p0".to_string(), 5);
    let now = 9;

    let (plan, input) = summarize(begin_compaction(&cfg, "m", &r, &cache, now));
    assert_eq!(plan.boundary_request_id, "r5");
    assert!(input.used_rolling);
    assert_eq!(input.prompt, format!("Summarize.{}", ROLLING_SUFFIX));
    assert_eq!(ids(&input.history), vec!["proxy_history_summary_prev", "r3", "r4"]);
    let first = &input.history[0];
    assert_eq!(first.request_message, "[PREVIOUS_SUMMARY]\nS0\n[/PREVIOUS_SUMMARY]");
    assert_eq!(first.response_text, "");
    assert!(first.request_nodes.is_empty());
    assert!(first.response_nodes.is_empty());
    assert_eq!(input.history[1].request_message, "x".repeat(150));

    cache.put("other", "x1", "X".to_string(), "px".to_string(), 1);
    let accepted = store_summary(&mut cache, &plan, String::new(), " S1 ", now).unwrap();
    assert_eq!(accepted.summary_text, "S1");
    assert_eq!(accepted.summarization_request_id, "proxy_history_summary_9");
    assert_eq!(cache.get_fresh("other", "x1", now, 0), Some(("X".to_string(), "px".to_string())));
    assert!(cache.get_fresh("conv", "r3", now, 0).is_none());
    assert_eq!(
        cache.get_fresh("conv", "r5", now, 0),
        Some(("S1".to_string(), "proxy_history_summary_9".to_string()))
    );
}

#[test]
fn rolling_update_needs_an_earlier_boundary_in_the_head() {
    let mut hs = config().history_summary;
    hs.rolling_summary = true;
    let history = five();
    let head = vec!["r1", "r2", "r3"];
    // no earlier summary
    let input = build_summarizer_input(&hs, &history, 3, "r4", None).unwrap();
    assert!(!input.used_rolling);
    assert_eq!(ids(&input.history), head);
    assert_eq!(input.prompt, " Summarize. ");
    // the earlier summary ends at the boundary itself
    let same = state("r4", "S", "p");
    assert!(!build_summarizer_input(&hs, &history, 3, "r4", Some(&same)).unwrap().used_rolling);
    // the earlier boundary is unknown, or stands in the tail
    let unknown = state("r9", "S", "p");
    assert!(!build_summarizer_input(&hs, &history, 3, "r4", Some(&unknown)).unwrap().used_rolling);
    let late = state("r5", "S", "p");
    assert!(!build_summarizer_input(&hs, &history, 3, "r4", Some(&late)).unwrap().used_rolling);
    // rolling summaries are switched off
    let early = state("r1", "S", "p");
    let rolled = build_summarizer_input(&hs, &history, 3, "r4", Some(&early)).unwrap();
    assert!(rolled.used_rolling);
    assert_eq!(ids(&rolled.history), vec!["proxy_history_summary_prev", "r1", "r2", "r3"]);
    hs.rolling_summary = false;
    let plain = build_summarizer_input(&hs, &history, 3, "r4", Some(&early)).unwrap();
    assert!(!plain.used_rolling);
    assert_eq!(ids(&plain.history), head);
}

#[test]
fn summarizer_input_is_capped_from_the_front() {
    let mut hs = config().history_summary;
    let history = five();
    hs.max_summarization_input_chars = 900;
    assert_eq!(
        ids(&build_summarizer_input(&hs, &history, 4, "r5", None).unwrap().history),
        vec!["r2", "r3", "r4"]
    );
    hs.max_summarization_input_chars = 899;
    assert_eq!(
        ids(&build_summarizer_input(&hs, &history, 4, "r5", None).unwrap().history),
        vec!["r3", "r4"]
    );
    hs.max_summarization_input_chars = 299;
    assert!(build_summarizer_input(&hs, &history, 4, "r5", None).is_none());
    assert!(build_summarizer_input(&hs, &history, 0, "r1", None).is_none());
    hs.max_summarization_input_chars = 0;
    assert_eq!(build_summarizer_input(&hs, &history, 4, "r5", None).unwrap().history.len(), 4);
}

#[test]
fn rolling_input_keeps_the_previous_summary_under_the_cap() {
    let mut hs = config().history_summary;
    hs.rolling_summary = true;
    let history = five();
    let prev = state("r1", "S0", "p0");
    // the first exchange holds 41 bytes
    hs.max_summarization_input_chars = 641;
    assert_eq!(
        ids(&build_summarizer_input(&hs, &history, 4, "r5", Some(&prev)).unwrap().history),
        vec!["proxy_history_summary_prev", "r3", "r4"]
    );
    hs.max_summarization_input_chars = 640;
    assert_eq!(
        ids(&build_summarizer_input(&hs, &history, 4, "r5", Some(&prev)).unwrap().history),
        vec!["proxy_history_summary_prev", "r4"]
    );
    hs.max_summarization_input_chars = 1;
    assert_eq!(
        ids(&build_summarizer_input(&hs, &history, 4, "r5", Some(&prev)).unwrap().history),
        vec!["proxy_history_summary_prev"]
    );
}

#[test]
fn an_empty_input_skips_the_request() {
    let mut cfg = config();
    cfg.history_summary.max_summarization_input_chars = 10;
    let r = request(Some("conv"), five());
    let cache = HistorySummaryCache::new();
    assert!(matches!(begin_compaction(&cfg, "m", &r, &cache, 1), CompactionStep::Skip));
}

#[test]
fn an_unknown_provider_fails_on_a_cache_miss_only() {
    let mut cfg = config();
    cfg.history_summary.provider_id = "missing".to_string();
    let r = request(Some("conv"), five());
    let mut cache = HistorySummaryCache::new();
    assert!(matches!(
        begin_compaction(&cfg, "m", &r, &cache, 1),
        CompactionStep::Fail(ProviderError::UnknownProvider)
    ));
    cfg.history_summary.provider_id = " ".to_string();
    assert!(matches!(
        begin_compaction(&cfg, "m", &r, &cache, 1),
        CompactionStep::Fail(ProviderError::EmptyProviderId)
    ));
    cache.put("conv", "r5", "S".to_string(), "p1".to_string(), 1);
    assert!(matches!(begin_compaction(&cfg, "m", &r, &cache, 1), CompactionStep::Reuse { .. }));
    // below the threshold the provider is not even looked up
    cfg.history_summary.trigger_on_history_size_chars = 10_000;
    assert!(matches!(begin_compaction(&cfg, "m", &r, &cache, 1), CompactionStep::Skip));
}

#[test]
fn the_provider_comes_with_the_step() {
    let cfg = config();
    let r = request(Some("conv"), five());
    let cache = HistorySummaryCache::new();
    match begin_compaction(&cfg, "m", &r, &cache, 1) {
        CompactionStep::Summarize { provider: SummaryProviderRef::Anthropic(p), .. } => {
            assert_eq!(p.base_url, "https://api.example.com/v1")
        },
        other => panic!("the configured provider was expected, not {:?}", other),
    }
}

#[test]
fn a_summary_on_the_response_side_stops_the_compaction() {
    let cfg = config();
    let mut summary = node(REQUEST_NODE_HISTORY_SUMMARY);
    summary.history_summary_node = Some("{}".to_string());
    for first_list in [true, false] {
        let mut history = five();
        if first_list {
            history[2].response_nodes = vec![summary.clone()];
        } else {
            history[4].structured_output_nodes = vec![summary.clone()];
        }
        let r = request(Some("conv"), history);
        let cache = HistorySummaryCache::new();
        assert!(matches!(begin_compaction(&cfg, "m", &r, &cache, 1), CompactionStep::Skip));
        assert!(plan_compaction(&cfg.history_summary, "m", &r).is_none());
    }
}

#[test]
fn accepted_summaries_are_stored_for_the_plan() {
    let mut cache = HistorySummaryCache::new();
    cache.put("conv", "r2", "old".to_string(), "p0".to_string(), 1);
    cache.put("other", "x", "X".to_string(), "px".to_string(), 1);
    assert!(store_summary(&mut cache, &plan(3, "r4"), "p1".to_string(), " \n", 50).is_none());
    assert_eq!(cache.get_fresh("conv", "r2", 50, 0), Some(("old".to_string(), "p0".to_string())));
    let a = store_summary(&mut cache, &plan(3, "r4"), "p1".to_string(), " new ", 50).unwrap();
    assert_eq!(a.summary_text, "new");
    assert_eq!(a.summarization_request_id, "p1");
    let state = cache.get_fresh_state("conv", 50, 0).unwrap();
    assert_eq!(state.summary_text, "new");
    assert_eq!(state.summarized_until_request_id, "r4");
    assert_eq!(state.summarization_request_id, "p1");
    assert_eq!(state.updated_at_ms, 50);
    assert!(cache.get_fresh("conv", "r2", 50, 0).is_none());
    assert_eq!(cache.get_fresh("other", "x", 50, 0), Some(("X".to_string(), "px".to_string())));
}

#[test]
fn the_outcome_names_the_exchanges_that_are_kept() {
    let o = compaction_outcome(5, &plan(3, "r4"), Some("node".to_string()), false).unwrap();
    assert_eq!(o.kept_from, 3);
    assert_eq!(o.summary.request_id, "proxy_history_summary");
    assert_eq!(o.summary.request_nodes.len(), 1);
    assert_eq!(o.summary.request_nodes[0].text_node.as_ref().unwrap().content, "node");
    let o = compaction_outcome(5, &plan(3, "r4"), Some("node".to_string()), true).unwrap();
    assert_eq!(o.kept_from, 5);
    let o = compaction_outcome(5, &plan(5, "r6"), Some(String::new()), false).unwrap();
    assert_eq!(o.kept_from, 5);
    assert!(compaction_outcome(5, &plan(3, "r4"), None, false).is_none());
    assert!(compaction_outcome(5, &plan(6, "r4"), Some("node".to_string()), false).is_none());
    assert!(compaction_outcome(5, &plan(6, "r4"), Some("node".to_string()), true).is_none());
}

#[test]
fn blank_summaries_are_not_accepted() {
    assert!(accept_summary("id".to_string(), "", 1).is_none());
    assert!(accept_summary("id".to_string(), " \n\t", 1).is_none());
    assert!(accept_summary(String::new(), "", 1).is_none());
    let a = accept_summary("  ".to_string(), " text ", 1_700_000_000_000).unwrap();
    assert_eq!(a.summary_text, "text");
    assert_eq!(a.summarization_request_id, "proxy_history_summary_1700000000000");
    let b = accept_summary(" id ".to_string(), "t", 0).unwrap();
    assert_eq!(b.summarization_request_id, " id ");
}

#[test]
fn the_new_summary_node_carries_the_tail() {
    let mut hs = config().history_summary;
    hs.use_history_summary_new = true;
    let mut history = five();
    let mut a = node(1);
    a.id = 1;
    let mut b = node(2);
    b.id = 2;
    let mut c = node(3);
    c.id = 3;
    let mut d = node(4);
    d.id = 4;
    history[3].request_nodes = vec![a];
    history[3].nodes = vec![b];
    history[3].response_nodes = vec![c];
    history[3].structured_output_nodes = vec![d];
    let value =
        build_summary_node_value(&hs, &history, &plan(3, "r4"), "S".to_string(), "p".to_string());
    assert_eq!(value.message_template, "TN");
    assert_eq!(value.history_beginning_dropped_num_exchanges, 2);
    assert_eq!(value.history_middle_abridged_text, "abridged");
    assert_eq!(value.history_end.len(), 2);
    assert_eq!(value.history_end[0].request_id, "r4");
    assert_eq!(value.history_end[0].request_message, "x".repeat(150));
    assert_eq!(value.history_end[0].response_text, "y".repeat(150));
    let request_ids: Vec<i32> = value.history_end[0].request_nodes.iter().map(|n| n.id).collect();
    assert_eq!(request_ids, vec![1, 2]);
    let response_ids: Vec<i32> = value.history_end[0].response_nodes.iter().map(|n| n.id).collect();
    assert_eq!(response_ids, vec![3, 4]);
    assert_eq!(value.history_end[1].request_id, "r5");
    assert!(value.history_end[1].request_nodes.is_empty());
    let at_end =
        build_summary_node_value(&hs, &history, &plan(5, "r6"), "S".to_string(), "p".to_string());
    assert!(at_end.history_end.is_empty());
}

#[test]
fn the_new_summary_node_stands_alone() {
    let mut r = request(Some("conv"), five());
    assert!(finish_compaction(&mut r, &plan(3, "r4"), Some("node".to_string()), true));
    assert_eq!(ids(&r.chat_history), vec!["proxy_history_summary"]);
    assert_eq!(
        ids(&compacted_history(&five(), 3, "node".to_string(), false)),
        vec!["proxy_history_summary", "r4", "r5"]
    );
    assert_eq!(
        ids(&compacted_history(&five(), 5, "node".to_string(), false)),
        vec!["proxy_history_summary"]
    );
    assert_eq!(ids(&compacted_history(&five(), 0, "node".to_string(), false)).len(), 6);
}

#[test]
fn without_a_rendered_node_the_request_stays() {
    let mut r = request(Some("conv"), five());
    r.message = "now".to_string();
    assert!(!finish_compaction(&mut r, &plan(3, "r4"), None, false));
    assert_eq!(ids(&r.chat_history), vec!["r1", "r2", "r3", "r4", "r5"]);
    assert!(!finish_compaction(&mut r, &plan(6, "r4"), Some("node".to_string()), false));
    assert_eq!(ids(&r.chat_history), vec!["r1", "r2", "r3", "r4", "r5"]);
    assert_eq!(r.message, "now");
}

#[test]
fn ratio_trigger_sets_the_tail_budget() {
    let mut cfg = config();
    cfg.history_summary.trigger_strategy = "ratio".to_string();
    cfg.history_summary.context_window_tokens_default = 2000;
    cfg.history_summary.trigger_on_context_ratio = Ratio::new(1, 10).unwrap();
    cfg.history_summary.target_context_ratio = Ratio::new(3, 4).unwrap();
    cfg.history_summary.abridged_history_params.total_chars_limit = 1000;
    // the tail may hold 1500 * 4 - (1000 + 40 + 4096) = 864 bytes
    let r = request(Some("conv"), five());
    let plan = plan_compaction(&cfg.history_summary, "m", &r).unwrap();
    assert_eq!(
        plan.trigger,
        TriggerDecision::TriggerRatio {
            context_window_tokens: 2000,
            threshold_chars: 800,
            target_tail_budget_chars: 864,
            approx_total_tokens: 375,
        }
    );
    assert_eq!(plan.tail_start, 2);
    assert_eq!(plan.boundary_request_id, "r3");
    // 1500 bytes are 375 tokens: under a ratio of one fifth nothing is triggered
    cfg.history_summary.trigger_on_context_ratio = Ratio::new(1, 5).unwrap();
    assert!(plan_compaction(&cfg.history_summary, "m", &r).is_none());
}
