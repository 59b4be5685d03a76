//! The abridger: folding a history into one entry for each user turn, and
//! rendering the entries as a tagged transcript.

use vstd::prelude::*;
use vstd::string::*;
use crate::actions::{
    add_tool_use_to_actions, finalize_actions, finalized, in_order, lemma_finalized,
    lemma_with_tool_use, modified_apart_from_viewed, no_actions, with_tool_use,
    AgentActionsSummary, AgentActionsSummaryView,
};
use crate::config::AbridgedHistoryParams;
use crate::json::parsed_json;
use crate::nodes::{
    exchange_request_nodes, exchange_response_nodes, marks_file, marks_image,
    node_has_image_or_file_marker, request_side, response_side,
};
use crate::protocol::{
    AugmentChatHistory, AugmentChatHistoryView, NodeInView, ToolUse, ToolUseView,
    REQUEST_NODE_TOOL_RESULT, RESPONSE_NODE_TOOL_USE, RESPONSE_NODE_TOOL_USE_START,
};
use crate::ratio::{half, Ratio};
use crate::size::clip;
use crate::string_set::StringSet;
use crate::text::{
    byte_len, decimal, decimal_string, is_blank, str_is_blank, str_strip_trailing, strip_trailing,
    text_eq, trim, trimmed, utf8_len,
};
use crate::truncate::{middle_truncate_with_ellipsis, middle_truncated};

verus! {

/// One user turn of a conversation: what the user asked, what the agent did
/// and what it answered at last.
#[derive(Debug)]
pub struct AbridgedEntry {
    /// The user's message, with a line for each kind of attachment.
    pub user_message: String,
    /// What the agent did.
    pub agent_actions_summary: AgentActionsSummary,
    /// The agent's last answer in plain text; empty where it gave none.
    pub agent_final_response: String,
    /// The agent gave no answer before the user spoke again.
    pub was_interrupted: bool,
    /// The agent gave no answer yet, and the turn is the last.
    pub continues: bool,
}

/// The value of an [`AbridgedEntry`].
pub struct AbridgedEntryView {
    pub user_message: Seq<char>,
    pub agent_actions_summary: AgentActionsSummaryView,
    pub agent_final_response: Seq<char>,
    pub was_interrupted: bool,
    pub continues: bool,
}

impl DeepView for AbridgedEntry {
    type V = AbridgedEntryView;

    open spec fn deep_view(&self) -> AbridgedEntryView {
        AbridgedEntryView {
            user_message: self.user_message@,
            agent_actions_summary: self.agent_actions_summary@,
            agent_final_response: self.agent_final_response@,
            was_interrupted: self.was_interrupted,
            continues: self.continues,
        }
    }
}

impl View for AbridgedEntry {
    type V = AbridgedEntryView;

    open spec fn view(&self) -> AbridgedEntryView {
        self.deep_view()
    }
}

impl Clone for AbridgedEntry {
    fn clone(&self) -> (r: Self)
        ensures
            r@ == self@,
    {
        AbridgedEntry {
            user_message: self.user_message.clone(),
            agent_actions_summary: self.agent_actions_summary.clone(),
            agent_final_response: self.agent_final_response.clone(),
            was_interrupted: self.was_interrupted,
            continues: self.continues,
        }
    }
}

/// Whether some node of `nodes` shows an attached image.
pub open spec fn any_image(nodes: Seq<NodeInView>) -> bool {
    exists|i: int| 0 <= i < nodes.len() && marks_image(#[trigger] nodes[i])
}

/// Whether some node of `nodes` shows an attached file.
pub open spec fn any_file(nodes: Seq<NodeInView>) -> bool {
    exists|i: int| 0 <= i < nodes.len() && marks_file(#[trigger] nodes[i])
}

/// The user's message of an exchange, followed by a line for an attached
/// image and a line for an attached document where the request side shows
/// one.
pub open spec fn user_message_with_attachments(h: AugmentChatHistoryView) -> Seq<char> {
    h.request_message + (if any_image(request_side(h)) {
        "\n[User attached image]"@
    } else {
        Seq::empty()
    }) + (if any_file(request_side(h)) {
        "\n[User attached document]"@
    } else {
        Seq::empty()
    })
}

/// Builds the user's message of an exchange, with its attachment lines.
pub fn build_user_message_with_attachments(h: &AugmentChatHistory) -> (msg: String)
    ensures
        msg@ == user_message_with_attachments(h@),
{
    let nodes = exchange_request_nodes(h);
    let mut has_image = false;
    let mut has_file = false;
    let mut i: usize = 0;
    while i < nodes.len()
        invariant
            i <= nodes.len(),
            nodes.deep_view() == request_side(h@),
            has_image == any_image(request_side(h@).take(i as int)),
            has_file == any_file(request_side(h@).take(i as int)),
        decreases nodes.len() - i,
    {
        let ghost side = request_side(h@);
        let (image, file) = node_has_image_or_file_marker(nodes[i]);
        proof {
            assert(nodes.deep_view()[i as int] == nodes[i as int]@);
            let before = side.take(i as int);
            let after = side.take(i as int + 1);
            assert(after[i as int] == side[i as int]);
            if any_image(before) {
                let k = choose|k: int| 0 <= k < before.len() && marks_image(#[trigger] before[k]);
                assert(marks_image(after[k]));
            }
            if any_file(before) {
                let k = choose|k: int| 0 <= k < before.len() && marks_file(#[trigger] before[k]);
                assert(marks_file(after[k]));
            }
            if any_image(after) {
                let k = choose|k: int| 0 <= k < after.len() && marks_image(#[trigger] after[k]);
                if k < i {
                    assert(marks_image(before[k]));
                }
            }
            if any_file(after) {
                let k = choose|k: int| 0 <= k < after.len() && marks_file(#[trigger] after[k]);
                if k < i {
                    assert(marks_file(before[k]));
                }
            }
        }
        has_image = has_image || image;
        has_file = has_file || file;
        i = i + 1;
    }
    assert(request_side(h@).take(nodes.len() as int) =~= request_side(h@));
    let mut msg = h.request_message.clone();
    if has_image {
        msg.append("\n[User attached image]");
    }
    if has_file {
        msg.append("\n[User attached document]");
    }
    assert(msg@ =~= user_message_with_attachments(h@));
    msg
}

/// Whether a response node is a tool use: it has one of the two tags and
/// the payload.
pub open spec fn is_tool_use_node(n: NodeInView) -> bool {
    &&& n.node_type == RESPONSE_NODE_TOOL_USE || n.node_type == RESPONSE_NODE_TOOL_USE_START
    &&& n.tool_use is Some
}

/// The tool uses among `nodes`, in order.
pub open spec fn tool_uses_of(nodes: Seq<NodeInView>) -> Seq<ToolUseView>
    decreases nodes.len(),
{
    if nodes.len() == 0 {
        Seq::empty()
    } else if is_tool_use_node(nodes.last()) {
        tool_uses_of(nodes.drop_last()).push(nodes.last().tool_use.unwrap())
    } else {
        tool_uses_of(nodes.drop_last())
    }
}

/// The tool uses on the response side of an exchange, in order.
pub fn iter_response_tool_uses(h: &AugmentChatHistory) -> (uses: Vec<&ToolUse>)
    ensures
        uses.deep_view() == tool_uses_of(response_side(h@)),
{
    let nodes = exchange_response_nodes(h);
    let ghost side = response_side(h@);
    let mut uses: Vec<&ToolUse> = Vec::new();
    let mut i: usize = 0;
    assert(uses.deep_view() =~= tool_uses_of(side.take(0)));
    while i < nodes.len()
        invariant
            i <= nodes.len(),
            nodes.deep_view() == side,
            uses.deep_view() == tool_uses_of(side.take(i as int)),
        decreases nodes.len() - i,
    {
        let n = nodes[i];
        proof {
            assert(nodes.deep_view()[i as int] == nodes[i as int]@);
            assert(side.take(i as int + 1).drop_last() =~= side.take(i as int));
            assert(side.take(i as int + 1).last() == n@);
        }
        if n.node_type == RESPONSE_NODE_TOOL_USE || n.node_type == RESPONSE_NODE_TOOL_USE_START {
            if let Some(u) = &n.tool_use {
                let ghost before = uses.deep_view();
                uses.push(u);
                assert(uses.deep_view() =~= before.push(u@));
            }
        }
        i = i + 1;
    }
    assert(side.take(nodes.len() as int) =~= side);
    uses
}

/// The line that stands for the members that a listing leaves out.
pub open spec fn surplus_line(remaining: nat, noun: Seq<char>) -> Seq<char> {
    "... "@ + decimal(remaining) + " more "@ + noun
}

/// The texts of `l`, each cut in its middle to `limit` characters.
pub open spec fn truncated_items(l: Seq<Seq<char>>, limit: nat) -> Seq<Seq<char>>
    decreases l.len(),
{
    if l.len() == 0 {
        Seq::empty()
    } else {
        truncated_items(l.drop_last(), limit).push(
            middle_truncated(l.last(), limit, half(), half()),
        )
    }
}

/// What is listed of the ascending listing `l`: its first `max` texts, each
/// cut to `limit` characters, and a line for the rest where there is a rest.
pub open spec fn limited_items(l: Seq<Seq<char>>, max: nat, limit: nat, noun: Seq<char>) -> Seq<
    Seq<char>,
> {
    if l.len() <= max {
        truncated_items(l, limit)
    } else {
        truncated_items(l.take(max as int), limit).push(
            surplus_line((l.len() - max) as nat, noun),
        )
    }
}

/// Lists at most `max_items` members of `set` in ascending order, each cut
/// to `item_char_limit` characters, and counts the rest in a last line.
pub fn limit_set_items(set: &StringSet, max_items: usize, item_char_limit: usize, noun: &str) -> (out:
    Vec<String>)
    ensures
        out.deep_view() == limited_items(set@, max_items as nat, item_char_limit as nat, noun@),
        out.len() == 0 <==> set@.len() == 0,
{
    let items = set.items();
    let ghost l = set@;
    let shown = if items.len() <= max_items {
        items.len()
    } else {
        max_items
    };
    let mut out: Vec<String> = Vec::new();
    let mut i: usize = 0;
    assert(out.deep_view() =~= truncated_items(l.take(0), item_char_limit as nat));
    while i < shown
        invariant
            i <= shown <= items.len(),
            items.deep_view() == l,
            out.len() == i,
            out.deep_view() == truncated_items(l.take(i as int), item_char_limit as nat),
        decreases shown - i,
    {
        let ghost before = out.deep_view();
        let cut = middle_truncate_with_ellipsis(
            items[i].as_str(),
            item_char_limit,
            Ratio::half(),
            Ratio::half(),
        );
        proof {
            assert(l.take(i as int + 1).drop_last() =~= l.take(i as int));
            assert(l.take(i as int + 1).last() == items[i as int]@);
        }
        out.push(cut);
        assert(out.deep_view() =~= before.push(
            middle_truncated(l[i as int], item_char_limit as nat, half(), half()),
        ));
        i = i + 1;
    }
    if items.len() > max_items {
        let ghost before = out.deep_view();
        let mut line = "... ".to_owned();
        line.append(decimal_string((items.len() - max_items) as u64).as_str());
        line.append(" more ");
        line.append(noun);
        assert(line@ =~= surplus_line((l.len() - max_items) as nat, noun@));
        out.push(line);
        assert(out.deep_view() =~= before.push(surplus_line((l.len() - max_items) as nat, noun@)));
    } else {
        assert(l.take(shown as int) =~= l);
    }
    out
}

/// The texts of `items`, each without line ends at its end and on a line of
/// its own.
pub open spec fn lines(items: Seq<Seq<char>>) -> Seq<char>
    decreases items.len(),
{
    if items.len() == 0 {
        Seq::empty()
    } else {
        lines(items.drop_last()) + strip_trailing(items.last(), '\n') + "\n"@
    }
}

/// The block that lists `items` between two tags; nothing where there is no
/// item.
pub open spec fn list_block(opening: Seq<char>, closing: Seq<char>, items: Seq<Seq<char>>) -> Seq<
    char,
> {
    if items.len() == 0 {
        Seq::empty()
    } else {
        opening + lines(items) + closing
    }
}

/// Whether any action is on record.
pub open spec fn has_actions(a: AgentActionsSummaryView) -> bool {
    ||| a.files_modified.len() > 0
    ||| a.files_created.len() > 0
    ||| a.files_deleted.len() > 0
    ||| a.files_viewed.len() > 0
    ||| a.terminal_commands.len() > 0
}

/// The block of the files that were modified.
pub open spec fn modified_block(a: AgentActionsSummaryView, p: AbridgedHistoryParams) -> Seq<char> {
    list_block(
        "<files_modified>\n"@,
        "</files_modified>\n"@,
        limited_items(
            a.files_modified,
            p.num_files_modified_limit as nat,
            p.action_chars_limit as nat,
            "files"@,
        ),
    )
}

/// The block of the files that were created.
pub open spec fn created_block(a: AgentActionsSummaryView, p: AbridgedHistoryParams) -> Seq<char> {
    list_block(
        "<files_created>\n"@,
        "</files_created>\n"@,
        limited_items(
            a.files_created,
            p.num_files_created_limit as nat,
            p.action_chars_limit as nat,
            "files"@,
        ),
    )
}

/// The block of the files that were deleted.
pub open spec fn deleted_block(a: AgentActionsSummaryView, p: AbridgedHistoryParams) -> Seq<char> {
    list_block(
        "<files_deleted>\n"@,
        "</files_deleted>\n"@,
        limited_items(
            a.files_deleted,
            p.num_files_deleted_limit as nat,
            p.action_chars_limit as nat,
            "files"@,
        ),
    )
}

/// The block of the files that were viewed.
pub open spec fn viewed_block(a: AgentActionsSummaryView, p: AbridgedHistoryParams) -> Seq<char> {
    list_block(
        "<files_viewed>\n"@,
        "</files_viewed>\n"@,
        limited_items(
            a.files_viewed,
            p.num_files_viewed_limit as nat,
            p.action_chars_limit as nat,
            "files"@,
        ),
    )
}

/// The block of the commands that were run.
pub open spec fn commands_block(a: AgentActionsSummaryView, p: AbridgedHistoryParams) -> Seq<char> {
    list_block(
        "<terminal_commands>\n"@,
        "</terminal_commands>\n"@,
        limited_items(
            a.terminal_commands,
            p.num_terminal_commands_limit as nat,
            p.action_chars_limit as nat,
            "commands"@,
        ),
    )
}

/// The block of an entry's actions: one list for each kind that is not
/// empty; nothing where no action is on record.
pub open spec fn actions_block(a: AgentActionsSummaryView, p: AbridgedHistoryParams) -> Seq<char> {
    if !has_actions(a) {
        Seq::empty()
    } else {
        "<agent_actions_summary>\n"@ + modified_block(a, p) + created_block(a, p) + deleted_block(
            a,
            p,
        ) + viewed_block(a, p) + commands_block(a, p) + "</agent_actions_summary>\n"@
    }
}

/// The block of the user's message, cut to its limit; nothing where the cut
/// message is blank.
pub open spec fn user_block(e: AbridgedEntryView, p: AbridgedHistoryParams) -> Seq<char> {
    let m = middle_truncated(e.user_message, p.user_message_chars_limit as nat, half(), half());
    if is_blank(m) {
        Seq::empty()
    } else {
        "<user_request>\n"@ + strip_trailing(m, '\n') + "\n</user_request>\n"@
    }
}

/// The block of the agent's answer, cut to its limit. Where the cut answer
/// is blank, the mark of an interrupted turn or of a turn that continues
/// stands in its place, where the entry has one.
pub open spec fn response_block(e: AbridgedEntryView, p: AbridgedHistoryParams) -> Seq<char> {
    let r = middle_truncated(
        e.agent_final_response,
        p.agent_response_chars_limit as nat,
        half(),
        half(),
    );
    if !is_blank(r) {
        "<agent_response>\n"@ + strip_trailing(r, '\n') + "\n</agent_response>\n"@
    } else if e.was_interrupted {
        "<agent_was_interrupted/>\n"@
    } else if e.continues {
        "<agent_continues/>\n"@
    } else {
        Seq::empty()
    }
}

/// An entry as text: the user's block, the actions' block and the answer's
/// block, trimmed.
pub open spec fn rendered_entry(e: AbridgedEntryView, p: AbridgedHistoryParams) -> Seq<char> {
    trimmed(user_block(e, p) + actions_block(e.agent_actions_summary, p) + response_block(e, p))
}

fn push_list_block(out: &mut String, opening: &str, closing: &str, items: &Vec<String>)
    ensures
        final(out)@ == old(out)@ + list_block(opening@, closing@, items.deep_view()),
{
    let ghost all = items.deep_view();
    if items.len() == 0 {
        assert(out@ =~= old(out)@ + list_block(opening@, closing@, all));
        return ;
    }
    out.append(opening);
    let mut i: usize = 0;
    assert(out@ =~= old(out)@ + opening@ + lines(all.take(0)));
    while i < items.len()
        invariant
            i <= items.len(),
            all == items.deep_view(),
            out@ == old(out)@ + opening@ + lines(all.take(i as int)),
        decreases items.len() - i,
    {
        proof {
            assert(all.take(i as int + 1).drop_last() =~= all.take(i as int));
            assert(all.take(i as int + 1).last() == items[i as int]@);
        }
        out.append(str_strip_trailing(items[i].as_str(), '\n'));
        out.append("\n");
        assert(out@ =~= old(out)@ + opening@ + lines(all.take(i as int + 1)));
        i = i + 1;
    }
    out.append(closing);
    assert(all.take(items.len() as int) =~= all);
    assert(out@ =~= old(out)@ + (opening@ + lines(all) + closing@));
}

fn push_actions_block(out: &mut String, a: &AgentActionsSummary, p: &AbridgedHistoryParams)
    ensures
        final(out)@ == old(out)@ + actions_block(a@, *p),
{
    let some = !a.files_modified.is_empty() || !a.files_created.is_empty()
        || !a.files_deleted.is_empty() || !a.files_viewed.is_empty()
        || !a.terminal_commands.is_empty();
    if !some {
        assert(out@ =~= old(out)@ + actions_block(a@, *p));
        return ;
    }
    out.append("<agent_actions_summary>\n");
    let modified = limit_set_items(
        &a.files_modified,
        p.num_files_modified_limit,
        p.action_chars_limit,
        "files",
    );
    push_list_block(out, "<files_modified>\n", "</files_modified>\n", &modified);
    let created = limit_set_items(
        &a.files_created,
        p.num_files_created_limit,
        p.action_chars_limit,
        "files",
    );
    push_list_block(out, "<files_created>\n", "</files_created>\n", &created);
    let deleted = limit_set_items(
        &a.files_deleted,
        p.num_files_deleted_limit,
        p.action_chars_limit,
        "files",
    );
    push_list_block(out, "<files_deleted>\n", "</files_deleted>\n", &deleted);
    let viewed = limit_set_items(
        &a.files_viewed,
        p.num_files_viewed_limit,
        p.action_chars_limit,
        "files",
    );
    push_list_block(out, "<files_viewed>\n", "</files_viewed>\n", &viewed);
    let commands = limit_set_items(
        &a.terminal_commands,
        p.num_terminal_commands_limit,
        p.action_chars_limit,
        "commands",
    );
    push_list_block(out, "<terminal_commands>\n", "</terminal_commands>\n", &commands);
    out.append("</agent_actions_summary>\n");
    assert(out@ =~= old(out)@ + actions_block(a@, *p));
}

/// Renders an entry: the user's message and the agent's answer cut to
/// their limits, the actions listed by kind, each part between its tags.
pub fn render_abridged_entry(entry: &AbridgedEntry, params: &AbridgedHistoryParams) -> (text:
    String)
    ensures
        text@ == rendered_entry(entry@, *params),
{
    let user_message = middle_truncate_with_ellipsis(
        entry.user_message.as_str(),
        params.user_message_chars_limit,
        Ratio::half(),
        Ratio::half(),
    );
    let agent_response = middle_truncate_with_ellipsis(
        entry.agent_final_response.as_str(),
        params.agent_response_chars_limit,
        Ratio::half(),
        Ratio::half(),
    );
    let mut out = String::new();
    if !str_is_blank(user_message.as_str()) {
        out.append("<user_request>\n");
        out.append(str_strip_trailing(user_message.as_str(), '\n'));
        out.append("\n</user_request>\n");
    }
    assert(out@ =~= user_block(entry@, *params));
    push_actions_block(&mut out, &entry.agent_actions_summary, params);
    let ghost before = out@;
    if !str_is_blank(agent_response.as_str()) {
        out.append("<agent_response>\n");
        out.append(str_strip_trailing(agent_response.as_str(), '\n'));
        out.append("\n</agent_response>\n");
    } else if entry.was_interrupted {
        out.append("<agent_was_interrupted/>\n");
    } else if entry.continues {
        out.append("<agent_continues/>\n");
    }
    assert(out@ =~= before + response_block(entry@, *params));
    trim(out.as_str()).to_owned()
}

/// Whether an exchange answers tool uses: a node of its request side has
/// the tag of a tool result.
pub open spec fn answers_tools(h: AugmentChatHistoryView) -> bool {
    exists|i: int|
        0 <= i < request_side(h).len() && (#[trigger] request_side(h)[i]).node_type
            == REQUEST_NODE_TOOL_RESULT
}

/// The actions after the tool uses `uses`, in order.
pub open spec fn with_tool_uses(actions: AgentActionsSummaryView, uses: Seq<ToolUseView>) -> AgentActionsSummaryView
    decreases uses.len(),
{
    if uses.len() == 0 {
        actions
    } else {
        with_tool_use(
            with_tool_uses(actions, uses.drop_last()),
            uses.last().tool_name,
            parsed_json(uses.last().input_json),
        )
    }
}

/// The entry that an exchange opens.
pub open spec fn fresh_entry(h: AugmentChatHistoryView) -> AbridgedEntryView {
    AbridgedEntryView {
        user_message: user_message_with_attachments(h),
        agent_actions_summary: no_actions(),
        agent_final_response: Seq::empty(),
        was_interrupted: false,
        continues: false,
    }
}

/// The entry `e` after the exchange `h`: the exchange's tool uses are on
/// record; and where it has none and its response text is not blank, that
/// text is the entry's answer.
pub open spec fn absorbed(e: AbridgedEntryView, h: AugmentChatHistoryView) -> AbridgedEntryView {
    let uses = tool_uses_of(response_side(h));
    AbridgedEntryView {
        agent_actions_summary: with_tool_uses(e.agent_actions_summary, uses),
        agent_final_response: if uses.len() == 0 && !is_blank(h.response_text) {
            h.response_text
        } else {
            e.agent_final_response
        },
        ..e
    }
}

/// An entry that is followed by another: without an answer it was
/// interrupted. Its actions are listed as `finalized` says.
pub open spec fn closed_entry(e: AbridgedEntryView) -> AbridgedEntryView {
    AbridgedEntryView {
        was_interrupted: e.was_interrupted || is_blank(e.agent_final_response),
        agent_actions_summary: finalized(e.agent_actions_summary),
        ..e
    }
}

/// The entry that ends a history: without an answer it continues. Its
/// actions are listed as `finalized` says.
pub open spec fn last_entry(e: AbridgedEntryView) -> AbridgedEntryView {
    AbridgedEntryView {
        continues: e.continues || is_blank(e.agent_final_response),
        agent_actions_summary: finalized(e.agent_actions_summary),
        ..e
    }
}

/// A history read up to some exchange: the entries that are closed, and the
/// entry that is still open.
pub struct Folding {
    pub done: Seq<AbridgedEntryView>,
    pub current: Option<AbridgedEntryView>,
}

/// The folding after one more exchange. An exchange that answers no tool
/// closes the open entry and opens its own; one that answers tools goes to
/// the open entry, and is passed over where none is open.
pub open spec fn fold_step(st: Folding, h: AugmentChatHistoryView) -> Folding {
    if !answers_tools(h) {
        Folding {
            done: match st.current {
                Some(prev) => st.done.push(closed_entry(prev)),
                None => st.done,
            },
            current: Some(absorbed(fresh_entry(h), h)),
        }
    } else {
        match st.current {
            Some(cur) => Folding { done: st.done, current: Some(absorbed(cur, h)) },
            None => st,
        }
    }
}

/// The folding of a history.
pub open spec fn folded(history: Seq<AugmentChatHistoryView>) -> Folding
    decreases history.len(),
{
    if history.len() == 0 {
        Folding { done: Seq::empty(), current: None }
    } else {
        fold_step(folded(history.drop_last()), history.last())
    }
}

/// The entries of a history, oldest first.
pub open spec fn abridged_entries(history: Seq<AugmentChatHistoryView>) -> Seq<AbridgedEntryView> {
    let st = folded(history);
    match st.current {
        Some(e) => st.done.push(last_entry(e)),
        None => st.done,
    }
}

/// The tool uses of an exchange keep the listings of an entry ascending.
pub proof fn lemma_with_tool_uses(actions: AgentActionsSummaryView, uses: Seq<ToolUseView>)
    requires
        in_order(actions),
    ensures
        in_order(with_tool_uses(actions, uses)),
    decreases uses.len(),
{
    if uses.len() > 0 {
        lemma_with_tool_uses(actions, uses.drop_last());
        lemma_with_tool_use(
            with_tool_uses(actions, uses.drop_last()),
            uses.last().tool_name,
            parsed_json(uses.last().input_json),
        );
    }
}

/// In a folding, no closed entry lists a file as both modified and viewed,
/// and the listings of the open entry are ascending.
pub proof fn lemma_folded(history: Seq<AugmentChatHistoryView>)
    ensures
        forall|i: int|
            0 <= i < folded(history).done.len() ==> modified_apart_from_viewed(
                (#[trigger] folded(history).done[i]).agent_actions_summary,
            ),
        folded(history).current matches Some(e) ==> in_order(e.agent_actions_summary),
    decreases history.len(),
{
    if history.len() > 0 {
        let before = folded(history.drop_last());
        let h = history.last();
        lemma_folded(history.drop_last());
        let uses = tool_uses_of(response_side(h));
        if !answers_tools(h) {
            lemma_with_tool_uses(no_actions(), uses);
            match before.current {
                Some(prev) => {
                    lemma_finalized(prev.agent_actions_summary);
                    assert forall|i: int| 0 <= i < folded(history).done.len() implies
                        modified_apart_from_viewed(
                        (#[trigger] folded(history).done[i]).agent_actions_summary,
                    ) by {
                        if i < before.done.len() {
                            assert(folded(history).done[i] == before.done[i]);
                        }
                    }
                },
                None => {},
            }
        } else {
            match before.current {
                Some(cur) => {
                    lemma_with_tool_uses(cur.agent_actions_summary, uses);
                },
                None => {},
            }
        }
    }
}

/// No entry of a history lists a file as both modified and viewed.
pub proof fn lemma_entries_keep_modified_apart_from_viewed(history: Seq<AugmentChatHistoryView>)
    ensures
        forall|i: int|
            0 <= i < abridged_entries(history).len() ==> modified_apart_from_viewed(
                (#[trigger] abridged_entries(history)[i]).agent_actions_summary,
            ),
{
    lemma_folded(history);
    let st = folded(history);
    match st.current {
        Some(e) => {
            lemma_finalized(e.agent_actions_summary);
            assert forall|i: int| 0 <= i < abridged_entries(history).len() implies
                modified_apart_from_viewed(
                (#[trigger] abridged_entries(history)[i]).agent_actions_summary,
            ) by {
                if i < st.done.len() {
                    assert(abridged_entries(history)[i] == st.done[i]);
                }
            }
        },
        None => {},
    }
}

fn decide_answers_tools(h: &AugmentChatHistory) -> (r: bool)
    ensures
        r == answers_tools(h@),
{
    let nodes = exchange_request_nodes(h);
    let mut i: usize = 0;
    while i < nodes.len()
        invariant
            i <= nodes.len(),
            nodes.deep_view() == request_side(h@),
            forall|j: int|
                0 <= j < i ==> (#[trigger] request_side(h@)[j]).node_type
                    != REQUEST_NODE_TOOL_RESULT,
        decreases nodes.len() - i,
    {
        assert(nodes.deep_view()[i as int] == nodes[i as int]@);
        if nodes[i].node_type == REQUEST_NODE_TOOL_RESULT {
            return true;
        }
        i = i + 1;
    }
    false
}

fn absorb(entry: &mut AbridgedEntry, h: &AugmentChatHistory)
    ensures
        final(entry)@ == absorbed(old(entry)@, h@),
{
    let uses = iter_response_tool_uses(h);
    let ghost all = uses.deep_view();
    let mut i: usize = 0;
    while i < uses.len()
        invariant
            i <= uses.len(),
            all == uses.deep_view(),
            entry@.user_message == old(entry)@.user_message,
            entry@.agent_final_response == old(entry)@.agent_final_response,
            entry@.was_interrupted == old(entry)@.was_interrupted,
            entry@.continues == old(entry)@.continues,
            entry@.agent_actions_summary == with_tool_uses(
                old(entry)@.agent_actions_summary,
                all.take(i as int),
            ),
        decreases uses.len() - i,
    {
        proof {
            assert(all.take(i as int + 1).drop_last() =~= all.take(i as int));
            assert(all.take(i as int + 1).last() == uses[i as int]@);
        }
        add_tool_use_to_actions(uses[i], &mut entry.agent_actions_summary);
        i = i + 1;
    }
    assert(all.take(uses.len() as int) =~= all);
    if uses.len() == 0 && !str_is_blank(h.response_text.as_str()) {
        entry.agent_final_response = h.response_text.clone();
    }
}

/// Folds a history into its entries. In each entry no file is both
/// modified and viewed.
pub fn build_abridged_entries(history: &[AugmentChatHistory]) -> (out: Vec<AbridgedEntry>)
    ensures
        out.deep_view() == abridged_entries(history.deep_view()),
        forall|i: int|
            0 <= i < out.len() ==> modified_apart_from_viewed(
                (#[trigger] out[i]@).agent_actions_summary,
            ),
{
    let ghost all = history.deep_view();
    let mut out: Vec<AbridgedEntry> = Vec::new();
    let mut current: Option<AbridgedEntry> = None;
    let mut i: usize = 0;
    assert(out.deep_view() =~= Seq::<AbridgedEntryView>::empty());
    while i < history.len()
        invariant
            i <= history.len(),
            all == history.deep_view(),
            folded(all.take(i as int)) == (Folding {
                done: out.deep_view(),
                current: current.deep_view(),
            }),
            forall|j: int|
                0 <= j < out.len() ==> modified_apart_from_viewed(
                    (#[trigger] out[j]@).agent_actions_summary,
                ),
        decreases history.len() - i,
    {
        let h = &history[i];
        proof {
            assert(all.take(i as int + 1).drop_last() =~= all.take(i as int));
            assert(all.take(i as int + 1).last() == h@);
        }
        if !decide_answers_tools(h) {
            match current {
                Some(prev) => {
                    let mut prev = prev;
                    if str_is_blank(prev.agent_final_response.as_str()) {
                        prev.was_interrupted = true;
                    }
                    finalize_actions(&mut prev.agent_actions_summary);
                    let ghost before = out.deep_view();
                    let ghost closed = prev@;
                    out.push(prev);
                    assert(out.deep_view() =~= before.push(closed));
                },
                None => {},
            }
            let mut entry = AbridgedEntry {
                user_message: build_user_message_with_attachments(h),
                agent_actions_summary: AgentActionsSummary::default(),
                agent_final_response: String::new(),
                was_interrupted: false,
                continues: false,
            };
            absorb(&mut entry, h);
            current = Some(entry);
        } else {
            match current {
                Some(cur) => {
                    let mut cur = cur;
                    absorb(&mut cur, h);
                    current = Some(cur);
                },
                None => {
                    current = None;
                },
            }
        }
        i = i + 1;
    }
    assert(all.take(history.len() as int) =~= all);
    match current {
        Some(last) => {
            let mut last = last;
            if str_is_blank(last.agent_final_response.as_str()) {
                last.continues = true;
            }
            finalize_actions(&mut last.agent_actions_summary);
            let ghost before = out.deep_view();
            let ghost closed = last@;
            out.push(last);
            assert(out.deep_view() =~= before.push(closed));
        },
        None => {},
    }
    out
}

/// The index of the first exchange of `history` whose identifier is `id`,
/// or the length of `history` where no exchange has it.
pub open spec fn first_with_id(history: Seq<AugmentChatHistoryView>, id: Seq<char>) -> int
    decreases history.len(),
{
    if history.len() == 0 {
        0
    } else if history.first().request_id == id {
        0
    } else {
        1 + first_with_id(history.drop_first(), id)
    }
}

pub proof fn lemma_first_with_id(history: Seq<AugmentChatHistoryView>, id: Seq<char>)
    ensures
        0 <= first_with_id(history, id) <= history.len(),
        forall|i: int| 0 <= i < first_with_id(history, id) ==> (#[trigger] history[i]).request_id != id,
        first_with_id(history, id) < history.len() ==> history[first_with_id(history, id)].request_id
            == id,
    decreases history.len(),
{
    if history.len() > 0 && history.first().request_id != id {
        let rest = history.drop_first();
        lemma_first_with_id(rest, id);
        assert forall|i: int| 0 <= i < first_with_id(history, id) implies (
        #[trigger] history[i]).request_id != id by {
            if i > 0 {
                assert(history[i] == rest[i - 1]);
            }
        }
    }
}

/// Finds the first exchange of `history` whose identifier is `id`.
pub fn find_request(history: &[AugmentChatHistory], id: &str) -> (at: Option<usize>)
    ensures
        match at {
            Some(i) => i < history.len() && i == first_with_id(history.deep_view(), id@),
            None => first_with_id(history.deep_view(), id@) == history.len(),
        },
{
    let ghost all = history.deep_view();
    let mut i: usize = 0;
    assert(all.skip(0) =~= all);
    while i < history.len()
        invariant
            i <= history.len(),
            all == history.deep_view(),
            first_with_id(all, id@) == i + first_with_id(all.skip(i as int), id@),
        decreases history.len() - i,
    {
        assert(all.skip(i as int).drop_first() =~= all.skip(i as int + 1));
        assert(all.skip(i as int).first() == history[i as int]@);
        if text_eq(history[i].request_id.as_str(), id) {
            return Some(i);
        }
        i = i + 1;
    }
    None
}

/// The part of `history` that is abridged: the exchanges before the first
/// one whose identifier is `until`; all of them where `until` is absent or
/// blank, or no exchange has it.
pub open spec fn head_until(history: Seq<AugmentChatHistoryView>, until: Option<Seq<char>>) -> Seq<
    AugmentChatHistoryView,
> {
    match until {
        Some(id) => if is_blank(id) {
            history
        } else {
            history.take(first_with_id(history, id))
        },
        None => history,
    }
}

/// The entries of `entries`, rendered.
pub open spec fn rendered_entries(entries: Seq<AbridgedEntryView>, p: AbridgedHistoryParams) -> Seq<
    Seq<char>,
>
    decreases entries.len(),
{
    if entries.len() == 0 {
        Seq::empty()
    } else {
        rendered_entries(entries.drop_last(), p).push(rendered_entry(entries.last(), p))
    }
}

pub proof fn lemma_rendered_entries(entries: Seq<AbridgedEntryView>, p: AbridgedHistoryParams)
    ensures
        rendered_entries(entries, p).len() == entries.len(),
        forall|i: int|
            0 <= i < entries.len() ==> #[trigger] rendered_entries(entries, p)[i] == rendered_entry(
                entries[i],
                p,
            ),
    decreases entries.len(),
{
    if entries.len() > 0 {
        lemma_rendered_entries(entries.drop_last(), p);
    }
}

/// The number of texts at the end of `rendered` that are admitted under
/// `limit`. Walking from the last text to the first, a text is admitted
/// while the bytes admitted so far, `total`, and its own stay within the
/// limit; the first that does not fit ends the walk.
pub open spec fn admitted(rendered: Seq<Seq<char>>, limit: usize, total: usize) -> nat
    decreases rendered.len(),
{
    if rendered.len() == 0 {
        0
    } else {
        let sum = clip(total as nat + utf8_len(rendered.last()));
        if sum > limit {
            0
        } else {
            1 + admitted(rendered.drop_last(), limit, sum)
        }
    }
}

/// The texts of `parts` with `sep` between them.
pub open spec fn joined(parts: Seq<Seq<char>>, sep: Seq<char>) -> Seq<char>
    decreases parts.len(),
{
    if parts.len() == 0 {
        Seq::empty()
    } else if parts.len() == 1 {
        parts[0]
    } else {
        joined(parts.drop_last(), sep) + sep + parts.last()
    }
}

/// The number of entries that the transcript leaves out at its beginning.
pub open spec fn dropped_entries(entries: Seq<AbridgedEntryView>, p: AbridgedHistoryParams) -> nat {
    let rendered = rendered_entries(entries, p);
    (rendered.len() - admitted(rendered, p.total_chars_limit, 0)) as nat
}

/// The transcript of `entries`: the newest entries that are admitted under
/// the limit of the whole, oldest first, a line end between them, trimmed.
pub open spec fn transcript(entries: Seq<AbridgedEntryView>, p: AbridgedHistoryParams) -> Seq<char> {
    let rendered = rendered_entries(entries, p);
    trimmed(joined(rendered.skip(dropped_entries(entries, p) as int), "\n"@))
}

/// Abridges the part of `history` before the exchange `until_request_id`:
/// the transcript of its entries, and the number of entries left out at its
/// beginning.
pub fn build_abridged_history_text(
    history: &[AugmentChatHistory],
    params: &AbridgedHistoryParams,
    until_request_id: Option<&str>,
) -> (r: (String, usize))
    ensures
        r.0@ == transcript(
            abridged_entries(
                head_until(
                    history.deep_view(),
                    match until_request_id {
                        Some(id) => Some(id@),
                        None => None,
                    },
                ),
            ),
            *params,
        ),
        r.1 == dropped_entries(
            abridged_entries(
                head_until(
                    history.deep_view(),
                    match until_request_id {
                        Some(id) => Some(id@),
                        None => None,
                    },
                ),
            ),
            *params,
        ),
{
    let ghost all = history.deep_view();
    let mut end: usize = history.len();
    if let Some(id) = until_request_id {
        if !str_is_blank(id) {
            proof {
                lemma_first_with_id(all, id@);
            }
            if let Some(at) = find_request(history, id) {
                end = at;
            }
        }
    }
    let head = vstd::slice::slice_subrange(history, 0, end);
    assert(head.deep_view() =~= all.take(end as int));
    assert(all.take(history.len() as int) =~= all);
    let entries = build_abridged_entries(head);
    let ghost views = entries.deep_view();
    let ghost rendered = rendered_entries(views, *params);
    let limit = params.total_chars_limit;
    let n = entries.len();
    proof {
        lemma_rendered_entries(views, *params);
        assert(rendered.take(n as int) =~= rendered);
    }
    let mut kept: Vec<String> = Vec::new();
    let mut total: usize = 0;
    let mut k: usize = n;
    let mut full = false;
    while k > 0 && !full
        invariant
            k <= n,
            n == entries.len(),
            n == rendered.len(),
            views == entries.deep_view(),
            rendered == rendered_entries(views, *params),
            forall|i: int| 0 <= i < n ==> #[trigger] rendered[i] == rendered_entry(views[i], *params),
            limit == params.total_chars_limit,
            kept.len() == n - k,
            forall|j: int| 0 <= j < kept.len() ==> #[trigger] kept[j]@ == rendered[n - 1 - j],
            admitted(rendered, limit, 0) == (n - k) + admitted(rendered.take(k as int), limit, total),
            full ==> admitted(rendered.take(k as int), limit, total) == 0,
        decreases k + (if full { 0int } else { 1int }),
    {
        let text = render_abridged_entry(&entries[k - 1], params);
        proof {
            assert(rendered.take(k as int).drop_last() =~= rendered.take(k as int - 1));
            assert(rendered.take(k as int).last() == rendered[k as int - 1]);
            assert(text@ == rendered[k as int - 1]);
        }
        let sum = total.saturating_add(byte_len(text.as_str()));
        if sum > limit {
            full = true;
        } else {
            total = sum;
            kept.push(text);
            k = k - 1;
        }
    }
    assert(admitted(rendered, limit, 0) == n - k);
    let mut out = String::new();
    let mut j: usize = 0;
    let m = kept.len();
    assert(rendered.subrange(k as int, k as int) =~= Seq::<Seq<char>>::empty());
    while j < m
        invariant
            j <= m,
            m == kept.len(),
            m == n - k,
            n == rendered.len(),
            forall|i: int| 0 <= i < kept.len() ==> #[trigger] kept[i]@ == rendered[n - 1 - i],
            out@ == joined(rendered.subrange(k as int, k + j), "\n"@),
        decreases m - j,
    {
        let ghost parts = rendered.subrange(k as int, k + j + 1);
        proof {
            assert(parts.drop_last() =~= rendered.subrange(k as int, k + j));
            assert(parts.last() == rendered[k + j]);
            assert(kept[m - 1 - j]@ == rendered[n - 1 - (m - 1 - j)]);
        }
        if j > 0 {
            out.append("\n");
        }
        out.append(kept[m - 1 - j].as_str());
        proof {
            if j == 0 {
                assert(out@ =~= parts[0]);
            }
        }
        j = j + 1;
    }
    assert(rendered.subrange(k as int, k + m) =~= rendered.skip(k as int));
    (trim(out.as_str()).to_owned(), k)
}

} // verus!
