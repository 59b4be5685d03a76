//! Wire types of the OpenAI chat-completions protocol.

use vstd::prelude::*;
use crate::json::{JsonValue, JsonView};

verus! {

/// Options of a streamed response.
#[derive(Debug)]
pub struct OpenAIStreamOptions {
    pub include_usage: bool,
}

/// One message of a request.
#[derive(Debug)]
pub struct OpenAIChatMessage {
    pub role: String,
    pub content: Option<serde_json::Value>,
    pub tool_calls: Option<Vec<OpenAIToolCall>>,
    pub tool_call_id: Option<String>,
}

/// A tool that a request offers.
#[derive(Debug)]
pub struct OpenAITool {
    pub tool_type: String,
    pub function: OpenAIFunctionDefinition,
}

/// The function behind a tool.
#[derive(Debug)]
pub struct OpenAIFunctionDefinition {
    pub name: String,
    pub description: Option<String>,
    pub parameters: serde_json::Value,
}

/// A call of a tool.
#[derive(Debug)]
pub struct OpenAIToolCall {
    pub id: String,
    pub call_type: String,
    pub function: OpenAIFunctionCall,
}

/// The function that a tool call names, and its arguments as JSON text.
#[derive(Debug)]
pub struct OpenAIFunctionCall {
    pub name: String,
    pub arguments: String,
}

/// One chunk of a streamed response.
#[derive(Debug)]
pub struct OpenAIChatCompletionChunk {
    pub choices: Vec<OpenAIChoice>,
    pub usage: Option<OpenAIUsage>,
}

/// One choice of a chunk.
#[derive(Debug, Default)]
pub struct OpenAIChoice {
    pub delta: OpenAIDelta,
    pub finish_reason: Option<String>,
}

/// What a chunk adds to a choice.
#[derive(Debug, Default)]
pub struct OpenAIDelta {
    pub role: Option<String>,
    pub content: Option<String>,
    pub tool_calls: Option<Vec<OpenAIDeltaToolCall>>,
    pub function_call: Option<OpenAIDeltaFunctionCall>,
}

/// What a chunk adds to a tool call.
#[derive(Debug, Default)]
pub struct OpenAIDeltaToolCall {
    pub index: Option<usize>,
    pub id: Option<String>,
    pub call_type: Option<String>,
    pub function: Option<OpenAIDeltaFunction>,
}

/// What a chunk adds to the function of a tool call.
#[derive(Debug, Default)]
pub struct OpenAIDeltaFunction {
    pub name: Option<String>,
    pub arguments: Option<String>,
}

/// What a chunk adds to a function call of the older form.
#[derive(Debug, Default)]
pub struct OpenAIDeltaFunctionCall {
    pub name: Option<String>,
    pub arguments: Option<String>,
}

/// The tokens that a call used.
#[derive(Debug, Default)]
pub struct OpenAIUsage {
    pub prompt_tokens: Option<i64>,
    pub completion_tokens: Option<i64>,
    pub total_tokens: Option<i64>,
}

/// The string member `key` of `v`; the empty text where `v` has no such
/// member or it is no string.
pub open spec fn text_member_or_empty(v: JsonView, key: Seq<char>) -> Seq<char> {
    match v.member(key) {
        Some(m) => match m.text() {
            Some(t) => t,
            None => Seq::empty(),
        },
        None => Seq::empty(),
    }
}

/// The `text` members of `parts`, one after the other.
pub open spec fn part_texts(parts: Seq<JsonView>) -> Seq<char>
    decreases parts.len(),
{
    if parts.len() == 0 {
        Seq::empty()
    } else {
        part_texts(parts.drop_last()) + text_member_or_empty(parts.last(), "text"@)
    }
}

/// The text of a content: a string itself, the `text` members of an array's
/// items, nothing for any other value.
pub open spec fn content_text(content: JsonView) -> Seq<char> {
    match content {
        JsonView::Text(s) => s,
        JsonView::Array(parts) => part_texts(parts),
        _ => Seq::empty(),
    }
}

/// The message of a choice: its member `message`, or else its member
/// `delta`.
pub open spec fn choice_message(choice: JsonView) -> Option<JsonView> {
    match choice.member("message"@) {
        Some(m) => Some(m),
        None => choice.member("delta"@),
    }
}

/// The text of the first choice of a response; the empty text where the
/// response has no choice, the choice no message, or the message no content.
pub open spec fn openai_choice_text(v: JsonView) -> Seq<char> {
    match v.member("choices"@) {
        Some(c) => match c.items() {
            Some(choices) => if choices.len() == 0 {
                Seq::empty()
            } else {
                match choice_message(choices[0]) {
                    Some(m) => match m.member("content"@) {
                        Some(content) => content_text(content),
                        None => Seq::empty(),
                    },
                    None => Seq::empty(),
                }
            },
            None => Seq::empty(),
        },
        None => Seq::empty(),
    }
}

fn extract_part_texts(parts: &Vec<JsonValue>) -> (text: String)
    ensures
        text@ == part_texts(parts.deep_view()),
{
    let ghost all = parts.deep_view();
    let mut out = String::new();
    let mut i: usize = 0;
    assert(out@ =~= part_texts(all.take(0)));
    while i < parts.len()
        invariant
            i <= parts.len(),
            all == parts.deep_view(),
            out@ == part_texts(all.take(i as int)),
        decreases parts.len() - i,
    {
        assert(all.take(i as int + 1).drop_last() =~= all.take(i as int));
        assert(all.take(i as int + 1).last() == parts[i as int]@);
        if let Some(t) = parts[i].get("text") {
            if let Some(s) = t.as_str() {
                out.append(s);
            }
        }
        assert(out@ =~= part_texts(all.take(i as int + 1)));
        i = i + 1;
    }
    assert(all.take(parts.len() as int) =~= all);
    out
}

/// The text of the first choice of a response.
pub fn extract_openai_choice_text(v: &JsonValue) -> (text: String)
    ensures
        text@ == openai_choice_text(v@),
{
    let choices = match v.get("choices") {
        Some(c) => match c.as_array() {
            Some(choices) => choices,
            None => {
                return String::new();
            },
        },
        None => {
            return String::new();
        },
    };
    if choices.len() == 0 {
        return String::new();
    }
    let first = &choices[0];
    let message = match first.get("message") {
        Some(m) => m,
        None => match first.get("delta") {
            Some(m) => m,
            None => {
                return String::new();
            },
        },
    };
    let content = match message.get("content") {
        Some(content) => content,
        None => {
            return String::new();
        },
    };
    if let Some(s) = content.as_str() {
        return s.to_owned();
    }
    match content.as_array() {
        Some(parts) => extract_part_texts(parts),
        None => String::new(),
    }
}

/// The identifier of a response: its string member `id`, or the empty text.
pub fn extract_openai_response_id(v: &JsonValue) -> (id: String)
    ensures
        id@ == text_member_or_empty(v@, "id"@),
{
    match v.get("id") {
        Some(m) => match m.as_str() {
            Some(s) => s.to_owned(),
            None => String::new(),
        },
        None => String::new(),
    }
}

} // verus!
