//! What an exchange's nodes say about it: its request side and response
//! side, tool results, attachments and history summaries.

use vstd::prelude::*;
use crate::protocol::{
    AugmentChatHistory, AugmentChatHistoryView, NodeIn, NodeInView, TextNode,
    REQUEST_NODE_FILE, REQUEST_NODE_FILE_ID, REQUEST_NODE_HISTORY_SUMMARY, REQUEST_NODE_IMAGE,
    REQUEST_NODE_IMAGE_ID, REQUEST_NODE_TEXT, REQUEST_NODE_TOOL_RESULT,
};

verus! {

/// The request-side nodes of an exchange: its three request lists, one after
/// the other.
pub open spec fn request_side(h: AugmentChatHistoryView) -> Seq<NodeInView> {
    h.request_nodes + h.structured_request_nodes + h.nodes
}

/// The response-side nodes of an exchange: its two response lists, one
/// after the other.
pub open spec fn response_side(h: AugmentChatHistoryView) -> Seq<NodeInView> {
    h.response_nodes + h.structured_output_nodes
}

/// Whether a node is a tool result: it has the tag and the payload.
pub open spec fn is_tool_result(n: NodeInView) -> bool {
    n.node_type == REQUEST_NODE_TOOL_RESULT && n.tool_result_node is Some
}

/// Whether a node is a history summary: it has the tag and the payload.
pub open spec fn is_history_summary(n: NodeInView) -> bool {
    n.node_type == REQUEST_NODE_HISTORY_SUMMARY && n.history_summary_node is Some
}

/// Whether some node of `nodes` is a history summary.
pub open spec fn any_history_summary(nodes: Seq<NodeInView>) -> bool {
    exists|i: int| 0 <= i < nodes.len() && is_history_summary(#[trigger] nodes[i])
}

/// Whether an exchange carries a history summary anywhere: on its request
/// side or on its response side.
pub open spec fn exchange_contains_summary(h: AugmentChatHistoryView) -> bool {
    any_history_summary(request_side(h)) || any_history_summary(response_side(h))
}

/// Whether some exchange of `history` carries a history summary.
pub open spec fn contains_summary(history: Seq<AugmentChatHistoryView>) -> bool {
    exists|i: int| 0 <= i < history.len() && exchange_contains_summary(#[trigger] history[i])
}

/// Whether an exchange carries a tool result on its request side.
pub open spec fn has_tool_results(h: AugmentChatHistoryView) -> bool {
    exists|i: int| 0 <= i < request_side(h).len() && is_tool_result(#[trigger] request_side(h)[i])
}

/// Whether a node shows that the user attached an image.
pub open spec fn marks_image(n: NodeInView) -> bool {
    ||| n.node_type == REQUEST_NODE_IMAGE
    ||| n.node_type == REQUEST_NODE_IMAGE_ID
    ||| n.image_node is Some
    ||| n.image_id_node is Some
}

/// Whether a node shows that the user attached a file.
pub open spec fn marks_file(n: NodeInView) -> bool {
    ||| n.node_type == REQUEST_NODE_FILE
    ||| n.node_type == REQUEST_NODE_FILE_ID
    ||| n.file_node is Some
    ||| n.file_id_node is Some
}

/// The elements of a vector as a slice.
pub fn slice_of<T: DeepView>(v: &Vec<T>) -> (s: &[T])
    ensures
        s@ == v@,
        s.deep_view() == v.deep_view(),
{
    let s = v.as_slice();
    assert(s.deep_view() =~= v.deep_view());
    s
}

/// Decides `is_tool_result`.
pub fn node_is_tool_result(n: &NodeIn) -> (r: bool)
    ensures
        r == is_tool_result(n@),
{
    n.node_type == REQUEST_NODE_TOOL_RESULT && n.tool_result_node.is_some()
}

/// Decides `any_history_summary`.
pub fn has_history_summary_node(nodes: &[NodeIn]) -> (r: bool)
    ensures
        r == any_history_summary(nodes.deep_view()),
{
    let mut i: usize = 0;
    while i < nodes.len()
        invariant
            i <= nodes.len(),
            forall|j: int| 0 <= j < i ==> !is_history_summary(#[trigger] nodes.deep_view()[j]),
        decreases nodes.len() - i,
    {
        let n = &nodes[i];
        if n.node_type == REQUEST_NODE_HISTORY_SUMMARY && n.history_summary_node.is_some() {
            assert(is_history_summary(nodes.deep_view()[i as int]));
            return true;
        }
        i = i + 1;
    }
    false
}

/// Over three lists one after the other, a node with a property exists
/// exactly if one exists in one of the lists.
proof fn lemma_any_in_three(
    a: Seq<NodeInView>,
    b: Seq<NodeInView>,
    c: Seq<NodeInView>,
    p: spec_fn(NodeInView) -> bool,
)
    ensures
        (exists|i: int| 0 <= i < (a + b + c).len() && p(#[trigger] (a + b + c)[i])) <==> ((exists|
            i: int,
        |
            0 <= i < a.len() && p(#[trigger] a[i])) || (exists|i: int|
            0 <= i < b.len() && p(#[trigger] b[i])) || (exists|i: int|
            0 <= i < c.len() && p(#[trigger] c[i]))),
{
    let all = a + b + c;
    if exists|i: int| 0 <= i < all.len() && p(#[trigger] all[i]) {
        let i = choose|i: int| 0 <= i < all.len() && p(#[trigger] all[i]);
        if i < a.len() {
            assert(p(a[i]));
        } else if i < a.len() + b.len() {
            assert(p(b[i - a.len()]));
        } else {
            assert(p(c[i - a.len() - b.len()]));
        }
    }
    if exists|i: int| 0 <= i < a.len() && p(#[trigger] a[i]) {
        let i = choose|i: int| 0 <= i < a.len() && p(#[trigger] a[i]);
        assert(p(all[i]));
    }
    if exists|i: int| 0 <= i < b.len() && p(#[trigger] b[i]) {
        let i = choose|i: int| 0 <= i < b.len() && p(#[trigger] b[i]);
        assert(p(all[a.len() + i]));
    }
    if exists|i: int| 0 <= i < c.len() && p(#[trigger] c[i]) {
        let i = choose|i: int| 0 <= i < c.len() && p(#[trigger] c[i]);
        assert(p(all[a.len() + b.len() + i]));
    }
}

/// Decides `contains_summary`: whether a history summary stands in any of
/// the five node lists of any exchange.
pub fn history_contains_summary(history: &[AugmentChatHistory]) -> (r: bool)
    ensures
        r == contains_summary(history.deep_view()),
{
    let mut i: usize = 0;
    while i < history.len()
        invariant
            i <= history.len(),
            forall|j: int|
                0 <= j < i ==> !exchange_contains_summary(#[trigger] history.deep_view()[j]),
        decreases history.len() - i,
    {
        let h = &history[i];
        proof {
            lemma_any_in_three(
                h@.request_nodes,
                h@.structured_request_nodes,
                h@.nodes,
                |n: NodeInView| is_history_summary(n),
            );
            lemma_any_in_three(
                h@.response_nodes,
                h@.structured_output_nodes,
                Seq::empty(),
                |n: NodeInView| is_history_summary(n),
            );
            assert(h@.response_nodes + h@.structured_output_nodes + Seq::<NodeInView>::empty()
                =~= response_side(h@));
        }
        if has_history_summary_node(slice_of(&h.request_nodes)) || has_history_summary_node(
            slice_of(&h.structured_request_nodes),
        ) || has_history_summary_node(slice_of(&h.nodes)) || has_history_summary_node(
            slice_of(&h.response_nodes),
        ) || has_history_summary_node(slice_of(&h.structured_output_nodes)) {
            assert(exchange_contains_summary(history.deep_view()[i as int]));
            return true;
        }
        assert(!exchange_contains_summary(history.deep_view()[i as int]));
        i = i + 1;
    }
    false
}

fn push_refs<'a>(out: &mut Vec<&'a NodeIn>, src: &'a Vec<NodeIn>)
    ensures
        final(out).deep_view() == old(out).deep_view() + src.deep_view(),
{
    let mut i: usize = 0;
    assert(out.deep_view() =~= old(out).deep_view() + src.deep_view().take(0));
    while i < src.len()
        invariant
            i <= src.len(),
            out.deep_view() == old(out).deep_view() + src.deep_view().take(i as int),
        decreases src.len() - i,
    {
        let ghost before = out.deep_view();
        out.push(&src[i]);
        assert(out.deep_view() =~= before.push(src.deep_view()[i as int]));
        assert(src.deep_view().take(i as int + 1) =~= src.deep_view().take(i as int).push(
            src.deep_view()[i as int],
        ));
        i = i + 1;
    }
    assert(src.deep_view().take(src.len() as int) =~= src.deep_view());
}

/// The request-side nodes of an exchange, in order.
pub fn exchange_request_nodes(h: &AugmentChatHistory) -> (r: Vec<&NodeIn>)
    ensures
        r.deep_view() == request_side(h@),
{
    let mut r: Vec<&NodeIn> = Vec::new();
    assert(r.deep_view() =~= Seq::<NodeInView>::empty());
    push_refs(&mut r, &h.request_nodes);
    push_refs(&mut r, &h.structured_request_nodes);
    push_refs(&mut r, &h.nodes);
    assert(r.deep_view() =~= request_side(h@));
    r
}

/// The response-side nodes of an exchange, in order.
pub fn exchange_response_nodes(h: &AugmentChatHistory) -> (r: Vec<&NodeIn>)
    ensures
        r.deep_view() == response_side(h@),
{
    let mut r: Vec<&NodeIn> = Vec::new();
    assert(r.deep_view() =~= Seq::<NodeInView>::empty());
    push_refs(&mut r, &h.response_nodes);
    push_refs(&mut r, &h.structured_output_nodes);
    assert(r.deep_view() =~= response_side(h@));
    r
}

/// Decides `has_tool_results`.
pub fn exchange_has_tool_results(h: &AugmentChatHistory) -> (r: bool)
    ensures
        r == has_tool_results(h@),
{
    let nodes = exchange_request_nodes(h);
    let mut i: usize = 0;
    while i < nodes.len()
        invariant
            i <= nodes.len(),
            nodes.deep_view() == request_side(h@),
            forall|j: int| 0 <= j < i ==> !is_tool_result(#[trigger] request_side(h@)[j]),
        decreases nodes.len() - i,
    {
        assert(nodes.deep_view()[i as int] == nodes[i as int]@);
        if node_is_tool_result(nodes[i]) {
            return true;
        }
        i = i + 1;
    }
    false
}

/// Whether a node shows an attached image, and whether it shows an attached
/// file.
pub fn node_has_image_or_file_marker(n: &NodeIn) -> (r: (bool, bool))
    ensures
        r.0 == marks_image(n@),
        r.1 == marks_file(n@),
{
    let has_image = n.node_type == REQUEST_NODE_IMAGE || n.node_type == REQUEST_NODE_IMAGE_ID
        || n.image_node.is_some() || n.image_id_node.is_some();
    let has_file = n.node_type == REQUEST_NODE_FILE || n.node_type == REQUEST_NODE_FILE_ID
        || n.file_node.is_some() || n.file_id_node.is_some();
    (has_image, has_file)
}

/// The number that the node of a summary gets.
pub const SUMMARY_NODE_ID: i32 = -10;

/// The text node that carries a rendered summary.
pub open spec fn summary_text_node(rendered: Seq<char>) -> NodeInView {
    NodeInView {
        id: SUMMARY_NODE_ID,
        node_type: REQUEST_NODE_TEXT,
        content: Seq::empty(),
        text_node: Some(crate::protocol::TextNodeView { content: rendered }),
        tool_result_node: None,
        image_node: None,
        image_id_node: None,
        ide_state_node: None,
        edit_events_node: None,
        checkpoint_ref_node: None,
        change_personality_node: None,
        file_node: None,
        file_id_node: None,
        history_summary_node: None,
        tool_use: None,
        thinking: None,
    }
}

/// Wraps a rendered summary in a text node.
pub fn build_summary_text_node(rendered: String) -> (node: NodeIn)
    ensures
        node@ == summary_text_node(rendered@),
{
    NodeIn {
        id: SUMMARY_NODE_ID,
        node_type: REQUEST_NODE_TEXT,
        content: String::new(),
        text_node: Some(TextNode { content: rendered }),
        tool_result_node: None,
        image_node: None,
        image_id_node: None,
        ide_state_node: None,
        edit_events_node: None,
        checkpoint_ref_node: None,
        change_personality_node: None,
        file_node: None,
        file_id_node: None,
        history_summary_node: None,
        tool_use: None,
        thinking: None,
    }
}

} // verus!
