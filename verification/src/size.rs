//! The size estimator: a cheap byte count of nodes, exchanges and histories,
//! and the token count that a byte count stands for.

use vstd::prelude::*;
use crate::nodes::{exchange_request_nodes, exchange_response_nodes, request_side, response_side};
use crate::protocol::{
    AugmentChatHistory, AugmentChatHistoryView, NodeIn, NodeInView, ToolResultContentNode,
    ToolResultContentNodeView, ToolResultNodeView,
};
use crate::text::{byte_len, utf8_len};

verus! {

/// Bytes that each node costs before its contents are counted.
pub const NODE_BASE_COST: usize = 16;

/// Bytes that each segment of a tool result costs before its contents are
/// counted.
pub const SEGMENT_BASE_COST: usize = 8;

/// Bytes that one token is taken to stand for.
pub const BYTES_PER_TOKEN: usize = 4;

/// `n`, or the largest `usize` where `n` is larger.
pub open spec fn clip(n: nat) -> usize {
    if n <= usize::MAX {
        n as usize
    } else {
        usize::MAX
    }
}

/// The byte length of an optional text; nothing where there is none.
pub open spec fn optional_len(text: Option<Seq<char>>) -> nat {
    match text {
        Some(t) => utf8_len(t),
        None => 0,
    }
}

/// The size of one segment of a tool result.
pub open spec fn segment_size(c: ToolResultContentNodeView) -> nat {
    SEGMENT_BASE_COST as nat + utf8_len(c.text_content) + match c.image_content {
        Some(image) => utf8_len(image.image_data),
        None => 0,
    }
}

/// The sizes of the segments of `s`, added up.
pub open spec fn segments_size(s: Seq<ToolResultContentNodeView>) -> nat
    decreases s.len(),
{
    if s.len() == 0 {
        0
    } else {
        segments_size(s.drop_last()) + segment_size(s.last())
    }
}

/// The size of a tool result: its identifier, its text and its segments.
pub open spec fn tool_result_size(t: ToolResultNodeView) -> nat {
    utf8_len(t.tool_use_id) + utf8_len(t.content) + segments_size(t.content_nodes)
}

/// The size of a node's text payload.
pub open spec fn text_part(n: NodeInView) -> nat {
    match n.text_node {
        Some(t) => utf8_len(t.content),
        None => 0,
    }
}

/// The size of a node's tool result.
pub open spec fn tool_result_part(n: NodeInView) -> nat {
    match n.tool_result_node {
        Some(t) => tool_result_size(t),
        None => 0,
    }
}

/// The size of a node's image.
pub open spec fn image_part(n: NodeInView) -> nat {
    match n.image_node {
        Some(image) => utf8_len(image.image_data),
        None => 0,
    }
}

/// The size of the payloads that a node holds as JSON text: the lengths of
/// those texts.
pub open spec fn json_part(n: NodeInView) -> nat {
    optional_len(n.image_id_node) + optional_len(n.ide_state_node) + optional_len(
        n.edit_events_node,
    ) + optional_len(n.checkpoint_ref_node) + optional_len(n.change_personality_node)
        + optional_len(n.file_node) + optional_len(n.file_id_node) + optional_len(
        n.history_summary_node,
    )
}

/// The size of a node's tool use: its identifier, the tool's name, its
/// input and the two MCP names.
pub open spec fn tool_use_part(n: NodeInView) -> nat {
    match n.tool_use {
        Some(u) => utf8_len(u.tool_use_id) + utf8_len(u.tool_name) + utf8_len(u.input_json)
            + utf8_len(u.mcp_server_name) + utf8_len(u.mcp_tool_name),
        None => 0,
    }
}

/// The size of a node's thinking.
pub open spec fn thinking_part(n: NodeInView) -> nat {
    match n.thinking {
        Some(t) => utf8_len(t.summary),
        None => 0,
    }
}

/// The size of a node: the base cost and the byte lengths of all that it
/// holds.
pub open spec fn node_size(n: NodeInView) -> nat {
    NODE_BASE_COST as nat + utf8_len(n.content) + text_part(n) + tool_result_part(n) + image_part(
        n,
    ) + json_part(n) + tool_use_part(n) + thinking_part(n)
}

/// The sizes of the nodes of `s`, added up.
pub open spec fn nodes_size(s: Seq<NodeInView>) -> nat
    decreases s.len(),
{
    if s.len() == 0 {
        0
    } else {
        nodes_size(s.drop_last()) + node_size(s.last())
    }
}

/// The size of an exchange: on each side the nodes' sizes, or the length of
/// the side's plain text where the side has no node.
pub open spec fn exchange_size(h: AugmentChatHistoryView) -> nat {
    (if request_side(h).len() > 0 {
        nodes_size(request_side(h))
    } else {
        utf8_len(h.request_message)
    }) + (if response_side(h).len() > 0 {
        nodes_size(response_side(h))
    } else {
        utf8_len(h.response_text)
    })
}

/// The size of a history: the sizes of its exchanges, added up.
pub open spec fn history_size(history: Seq<AugmentChatHistoryView>) -> nat
    decreases history.len(),
{
    if history.len() == 0 {
        0
    } else {
        history_size(history.drop_last()) + exchange_size(history.last())
    }
}

/// The estimates of the exchanges of `history`, each clipped as
/// `estimate_exchange_size_chars` returns it, added up.
pub open spec fn estimates_sum(history: Seq<AugmentChatHistoryView>) -> nat
    decreases history.len(),
{
    if history.len() == 0 {
        0
    } else {
        estimates_sum(history.drop_last()) + clip(exchange_size(history.last())) as nat
    }
}

/// The size of two histories, one after the other, is the sum of their
/// sizes.
pub proof fn lemma_history_size_concat(
    a: Seq<AugmentChatHistoryView>,
    b: Seq<AugmentChatHistoryView>,
)
    ensures
        history_size(a + b) == history_size(a) + history_size(b),
    decreases b.len(),
{
    if b.len() == 0 {
        assert(a + b =~= a);
    } else {
        assert((a + b).drop_last() =~= a + b.drop_last());
        lemma_history_size_concat(a, b.drop_last());
    }
}

/// The size of the exchanges from `i` on is that of exchange `i` and of
/// those after it.
pub proof fn lemma_history_size_skip(history: Seq<AugmentChatHistoryView>, i: int)
    requires
        0 <= i < history.len(),
    ensures
        history_size(history.skip(i)) == exchange_size(history[i]) + history_size(
            history.skip(i + 1),
        ),
{
    let one = seq![history[i]];
    assert(history.skip(i) =~= one + history.skip(i + 1));
    lemma_history_size_concat(one, history.skip(i + 1));
    assert(history_size(one) == exchange_size(history[i])) by {
        reveal_with_fuel(history_size, 2);
    }
}

/// The estimate of a history is the sum of the estimates of its exchanges,
/// up to the largest `usize`.
pub proof fn lemma_history_estimate_is_sum(history: Seq<AugmentChatHistoryView>)
    ensures
        clip(history_size(history)) == clip(estimates_sum(history)),
        history_size(history) <= usize::MAX ==> estimates_sum(history) == history_size(history),
    decreases history.len(),
{
    if history.len() > 0 {
        lemma_history_estimate_is_sum(history.drop_last());
    }
}

/// The token count that `len` bytes are taken to stand for: a quarter of
/// the bytes, rounded up.
pub open spec fn approx_tokens(len: nat) -> nat {
    (len + 3) / 4
}

/// Estimates the tokens in `len` bytes, clipped to the largest `u32`.
pub fn approx_token_count_from_byte_len(len: usize) -> (tokens: u32)
    ensures
        tokens as nat == if approx_tokens(len as nat) <= u32::MAX as nat {
            approx_tokens(len as nat)
        } else {
            u32::MAX as nat
        },
{
    let quarters: usize = len / BYTES_PER_TOKEN;
    let rounded: usize = if len % BYTES_PER_TOKEN == 0 {
        quarters
    } else {
        quarters + 1
    };
    if rounded > 0xffff_ffff {
        u32::MAX
    } else {
        rounded as u32
    }
}

fn add_text(n: usize, Ghost(sum): Ghost<nat>, text: &str) -> (r: usize)
    requires
        n == clip(sum),
    ensures
        r == clip(sum + utf8_len(text@)),
{
    n.saturating_add(byte_len(text))
}

fn add_optional_text(n: usize, Ghost(sum): Ghost<nat>, text: &Option<String>) -> (r: usize)
    requires
        n == clip(sum),
    ensures
        r == clip(sum + optional_len(text.deep_view())),
{
    match text {
        Some(t) => add_text(n, Ghost(sum), t.as_str()),
        None => n,
    }
}

fn estimate_segments(segments: &Vec<ToolResultContentNode>) -> (r: usize)
    ensures
        r == clip(segments_size(segments.deep_view())),
{
    let ghost all = segments.deep_view();
    let mut n: usize = 0;
    let mut i: usize = 0;
    while i < segments.len()
        invariant
            i <= segments.len(),
            all == segments.deep_view(),
            n == clip(segments_size(all.take(i as int))),
        decreases segments.len() - i,
    {
        let c = &segments[i];
        let ghost before = segments_size(all.take(i as int));
        proof {
            assert(all.take(i as int + 1).drop_last() =~= all.take(i as int));
            assert(all.take(i as int + 1).last() == c@);
        }
        n = n.saturating_add(SEGMENT_BASE_COST);
        n = add_text(n, Ghost(before + SEGMENT_BASE_COST as nat), c.text_content.as_str());
        if let Some(image) = &c.image_content {
            n = add_text(
                n,
                Ghost(before + SEGMENT_BASE_COST as nat + utf8_len(c.text_content@)),
                image.image_data.as_str(),
            );
        }
        i = i + 1;
    }
    assert(all.take(segments.len() as int) =~= all);
    n
}

fn estimate_tool_result(node: &NodeIn) -> (r: usize)
    ensures
        r == clip(tool_result_part(node@)),
{
    match &node.tool_result_node {
        Some(t) => {
            let n = add_text(0, Ghost(0), t.tool_use_id.as_str());
            let n = add_text(n, Ghost(utf8_len(t@.tool_use_id)), t.content.as_str());
            n.saturating_add(estimate_segments(&t.content_nodes))
        },
        None => 0,
    }
}

fn estimate_json_part(node: &NodeIn) -> (r: usize)
    ensures
        r == clip(json_part(node@)),
{
    let ghost v = node@;
    let ghost mut sum: nat = 0;
    let mut n: usize = 0;
    n = add_optional_text(n, Ghost(sum), &node.image_id_node);
    proof {
        sum = sum + optional_len(v.image_id_node);
    }
    n = add_optional_text(n, Ghost(sum), &node.ide_state_node);
    proof {
        sum = sum + optional_len(v.ide_state_node);
    }
    n = add_optional_text(n, Ghost(sum), &node.edit_events_node);
    proof {
        sum = sum + optional_len(v.edit_events_node);
    }
    n = add_optional_text(n, Ghost(sum), &node.checkpoint_ref_node);
    proof {
        sum = sum + optional_len(v.checkpoint_ref_node);
    }
    n = add_optional_text(n, Ghost(sum), &node.change_personality_node);
    proof {
        sum = sum + optional_len(v.change_personality_node);
    }
    n = add_optional_text(n, Ghost(sum), &node.file_node);
    proof {
        sum = sum + optional_len(v.file_node);
    }
    n = add_optional_text(n, Ghost(sum), &node.file_id_node);
    proof {
        sum = sum + optional_len(v.file_id_node);
    }
    n = add_optional_text(n, Ghost(sum), &node.history_summary_node);
    n
}

fn estimate_tool_use(node: &NodeIn) -> (r: usize)
    ensures
        r == clip(tool_use_part(node@)),
{
    match &node.tool_use {
        Some(u) => {
            let ghost mut sum: nat = 0;
            let mut n: usize = 0;
            n = add_text(n, Ghost(sum), u.tool_use_id.as_str());
            proof {
                sum = sum + utf8_len(u@.tool_use_id);
            }
            n = add_text(n, Ghost(sum), u.tool_name.as_str());
            proof {
                sum = sum + utf8_len(u@.tool_name);
            }
            n = add_text(n, Ghost(sum), u.input_json.as_str());
            proof {
                sum = sum + utf8_len(u@.input_json);
            }
            n = add_text(n, Ghost(sum), u.mcp_server_name.as_str());
            proof {
                sum = sum + utf8_len(u@.mcp_server_name);
            }
            n = add_text(n, Ghost(sum), u.mcp_tool_name.as_str());
            n
        },
        None => 0,
    }
}

/// Estimates the size of a node in bytes, clipped to the largest `usize`.
pub fn estimate_node_size_chars(node: &NodeIn) -> (r: usize)
    ensures
        r == clip(node_size(node@)),
{
    let mut n: usize = add_text(NODE_BASE_COST, Ghost(NODE_BASE_COST as nat), node.content.as_str());
    if let Some(t) = &node.text_node {
        n = n.saturating_add(byte_len(t.content.as_str()));
    }
    n = n.saturating_add(estimate_tool_result(node));
    if let Some(image) = &node.image_node {
        n = n.saturating_add(byte_len(image.image_data.as_str()));
    }
    n = n.saturating_add(estimate_json_part(node));
    n = n.saturating_add(estimate_tool_use(node));
    if let Some(t) = &node.thinking {
        n = n.saturating_add(byte_len(t.summary.as_str()));
    }
    n
}

fn estimate_nodes(nodes: &Vec<&NodeIn>) -> (r: usize)
    ensures
        r == clip(nodes_size(nodes.deep_view())),
{
    let ghost all = nodes.deep_view();
    let mut n: usize = 0;
    let mut i: usize = 0;
    while i < nodes.len()
        invariant
            i <= nodes.len(),
            all == nodes.deep_view(),
            n == clip(nodes_size(all.take(i as int))),
        decreases nodes.len() - i,
    {
        proof {
            assert(all.take(i as int + 1).drop_last() =~= all.take(i as int));
            assert(all.take(i as int + 1).last() == nodes[i as int]@);
        }
        n = n.saturating_add(estimate_node_size_chars(nodes[i]));
        i = i + 1;
    }
    assert(all.take(nodes.len() as int) =~= all);
    n
}

/// Estimates the size of an exchange in bytes, clipped to the largest
/// `usize`.
pub fn estimate_exchange_size_chars(h: &AugmentChatHistory) -> (r: usize)
    ensures
        r == clip(exchange_size(h@)),
{
    let request = exchange_request_nodes(h);
    let request_size = if request.len() > 0 {
        estimate_nodes(&request)
    } else {
        byte_len(h.request_message.as_str())
    };
    let response = exchange_response_nodes(h);
    let response_size = if response.len() > 0 {
        estimate_nodes(&response)
    } else {
        byte_len(h.response_text.as_str())
    };
    request_size.saturating_add(response_size)
}

/// Estimates the size of a history in bytes, clipped to the largest
/// `usize`: the sum of its exchanges' sizes.
pub fn estimate_history_size_chars(history: &[AugmentChatHistory]) -> (r: usize)
    ensures
        r == clip(history_size(history.deep_view())),
        r == clip(estimates_sum(history.deep_view())),
{
    let ghost all = history.deep_view();
    let mut n: usize = 0;
    let mut i: usize = 0;
    while i < history.len()
        invariant
            i <= history.len(),
            all == history.deep_view(),
            n == clip(history_size(all.take(i as int))),
        decreases history.len() - i,
    {
        proof {
            assert(all.take(i as int + 1).drop_last() =~= all.take(i as int));
            assert(all.take(i as int + 1).last() == history[i as int]@);
        }
        n = n.saturating_add(estimate_exchange_size_chars(&history[i]));
        i = i + 1;
    }
    proof {
        assert(all.take(history.len() as int) =~= all);
        lemma_history_estimate_is_sum(all);
    }
    n
}

} // verus!
