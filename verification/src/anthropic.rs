//! Wire types of the Anthropic messages protocol.

use vstd::prelude::*;

verus! {

/// Extended thinking, as a request asks for it.
#[derive(Debug)]
pub struct AnthropicThinking {
    pub thinking_type: String,
    pub budget_tokens: u32,
}

/// One message of a request.
#[derive(Debug)]
pub struct AnthropicMessage {
    pub role: String,
    pub content: Vec<AnthropicContentBlock>,
}

/// One block of content, in a request or a response.
#[derive(Debug)]
pub struct AnthropicContentBlock {
    pub block_type: String,
    pub text: Option<String>,
    pub source: Option<AnthropicImageSource>,
    pub id: Option<String>,
    pub name: Option<String>,
    pub input: Option<serde_json::Value>,
    pub tool_use_id: Option<String>,
    pub content: Option<serde_json::Value>,
    pub is_error: Option<bool>,
    pub thinking: Option<String>,
    pub signature: Option<String>,
}

/// Where an image comes from.
#[derive(Debug)]
pub struct AnthropicImageSource {
    pub source_type: String,
    pub media_type: String,
    pub data: String,
}

/// A tool that a request offers.
#[derive(Debug)]
pub struct AnthropicTool {
    pub name: String,
    pub description: Option<String>,
    pub input_schema: serde_json::Value,
}

/// Which tool a request asks for.
#[derive(Debug)]
pub struct AnthropicToolChoice {
    pub choice_type: String,
    pub name: Option<String>,
}

/// One event of a streamed response.
#[derive(Debug)]
pub struct AnthropicStreamEvent {
    pub event_type: String,
    pub index: Option<i64>,
    pub message: Option<AnthropicResponse>,
    pub content_block: Option<AnthropicContentBlock>,
    pub delta: Option<AnthropicDelta>,
    pub usage: Option<AnthropicUsage>,
}

/// What a streamed event adds.
#[derive(Debug)]
pub struct AnthropicDelta {
    pub delta_type: String,
    pub text: Option<String>,
    pub partial_json: Option<String>,
    pub thinking: Option<String>,
    pub stop_reason: Option<String>,
    pub stop_sequence: Option<String>,
}

/// A response as a whole.
#[derive(Debug)]
pub struct AnthropicResponse {
    pub id: String,
    pub resp_type: String,
    pub role: String,
    pub content: Vec<AnthropicContentBlock>,
    pub model: String,
    pub stop_reason: String,
    pub stop_sequence: Option<String>,
    pub usage: AnthropicUsage,
}

/// The tokens that a call used.
#[derive(Debug, Default)]
pub struct AnthropicUsage {
    pub input_tokens: Option<i64>,
    pub output_tokens: Option<i64>,
    pub cache_read_input_tokens: Option<i64>,
    pub cache_creation_input_tokens: Option<i64>,
}

/// The texts of `blocks`, one after the other; a block without text adds
/// nothing.
pub open spec fn block_texts(blocks: Seq<AnthropicContentBlock>) -> Seq<char>
    decreases blocks.len(),
{
    if blocks.len() == 0 {
        Seq::empty()
    } else {
        block_texts(blocks.drop_last()) + match blocks.last().text {
            Some(t) => t@,
            None => Seq::empty(),
        }
    }
}

/// The text of a response: the texts of its content blocks, one after the
/// other.
pub fn extract_anthropic_text(resp: &AnthropicResponse) -> (text: String)
    ensures
        text@ == block_texts(resp.content@),
{
    let mut out = String::new();
    let mut i: usize = 0;
    assert(out@ =~= block_texts(resp.content@.take(0)));
    while i < resp.content.len()
        invariant
            i <= resp.content.len(),
            out@ == block_texts(resp.content@.take(i as int)),
        decreases resp.content.len() - i,
    {
        assert(resp.content@.take(i as int + 1).drop_last() =~= resp.content@.take(i as int));
        if let Some(t) = &resp.content[i].text {
            out.append(t.as_str());
        }
        assert(out@ =~= block_texts(resp.content@.take(i as int + 1)));
        i = i + 1;
    }
    assert(resp.content@.take(resp.content.len() as int) =~= resp.content@);
    out
}

} // verus!
