//! What an agent did in the course of one user turn: the files it touched
//! and the commands it ran, as its tool uses tell.

use vstd::prelude::*;
use crate::json::{parse_json, parsed_json, JsonValue, JsonView};
use crate::protocol::ToolUse;
use crate::string_set::{ascending, inserted, lemma_inserted, lemma_removed, removed, StringSet};
use crate::text::{is_blank, lemma_trimmed_empty, text_eq, trim, trimmed};

verus! {

/// The files and commands of one user turn, each kind as a set.
#[derive(Debug)]
pub struct AgentActionsSummary {
    /// Files that were edited.
    pub files_modified: StringSet,
    /// Files that were written anew.
    pub files_created: StringSet,
    /// Files that were removed.
    pub files_deleted: StringSet,
    /// Files that were read.
    pub files_viewed: StringSet,
    /// Commands that were run.
    pub terminal_commands: StringSet,
}

/// The value of an [`AgentActionsSummary`]: each set as its ascending
/// listing.
pub struct AgentActionsSummaryView {
    pub files_modified: Seq<Seq<char>>,
    pub files_created: Seq<Seq<char>>,
    pub files_deleted: Seq<Seq<char>>,
    pub files_viewed: Seq<Seq<char>>,
    pub terminal_commands: Seq<Seq<char>>,
}

impl DeepView for AgentActionsSummary {
    type V = AgentActionsSummaryView;

    open spec fn deep_view(&self) -> AgentActionsSummaryView {
        AgentActionsSummaryView {
            files_modified: self.files_modified@,
            files_created: self.files_created@,
            files_deleted: self.files_deleted@,
            files_viewed: self.files_viewed@,
            terminal_commands: self.terminal_commands@,
        }
    }
}

impl View for AgentActionsSummary {
    type V = AgentActionsSummaryView;

    open spec fn view(&self) -> AgentActionsSummaryView {
        self.deep_view()
    }
}

/// No action at all.
pub open spec fn no_actions() -> AgentActionsSummaryView {
    AgentActionsSummaryView {
        files_modified: Seq::empty(),
        files_created: Seq::empty(),
        files_deleted: Seq::empty(),
        files_viewed: Seq::empty(),
        terminal_commands: Seq::empty(),
    }
}

impl Default for AgentActionsSummary {
    fn default() -> (a: Self)
        ensures
            a@ == no_actions(),
    {
        AgentActionsSummary {
            files_modified: StringSet::new(),
            files_created: StringSet::new(),
            files_deleted: StringSet::new(),
            files_viewed: StringSet::new(),
            terminal_commands: StringSet::new(),
        }
    }
}

impl Clone for AgentActionsSummary {
    fn clone(&self) -> (r: Self)
        ensures
            r@ == self@,
    {
        AgentActionsSummary {
            files_modified: self.files_modified.clone(),
            files_created: self.files_created.clone(),
            files_deleted: self.files_deleted.clone(),
            files_viewed: self.files_viewed.clone(),
            terminal_commands: self.terminal_commands.clone(),
        }
    }
}

/// The listing `l` with `raw`, trimmed, among its texts; `l` itself where
/// `raw` is blank.
pub open spec fn with_entry(l: Seq<Seq<char>>, raw: Seq<char>) -> Seq<Seq<char>> {
    if is_blank(raw) {
        l
    } else {
        inserted(l, trimmed(raw))
    }
}

/// The listing `l` with the member `key` of `input`, where that is a string.
pub open spec fn with_text_member(l: Seq<Seq<char>>, input: JsonView, key: Seq<char>) -> Seq<
    Seq<char>,
> {
    match input.member(key) {
        Some(m) => match m.text() {
            Some(raw) => with_entry(l, raw),
            None => l,
        },
        None => l,
    }
}

/// The listing `l` with each string among `items`.
pub open spec fn with_text_items(l: Seq<Seq<char>>, items: Seq<JsonView>) -> Seq<Seq<char>>
    decreases items.len(),
{
    if items.len() == 0 {
        l
    } else {
        let before = with_text_items(l, items.drop_last());
        match items.last().text() {
            Some(raw) => with_entry(before, raw),
            None => before,
        }
    }
}

/// The listing `l` with each string of the array that is the member `key`
/// of `input`.
pub open spec fn with_array_member(l: Seq<Seq<char>>, input: JsonView, key: Seq<char>) -> Seq<
    Seq<char>,
> {
    match input.member(key) {
        Some(m) => match m.items() {
            Some(items) => with_text_items(l, items),
            None => l,
        },
        None => l,
    }
}

/// The actions after a use of the tool `tool_name` whose input parsed to
/// `input`. A tool's name decides which member of the input is read and
/// which set takes it; a tool that is not known, and an input that is no
/// JSON, change nothing.
pub open spec fn with_tool_use(
    actions: AgentActionsSummaryView,
    tool_name: Seq<char>,
    input: Option<JsonView>,
) -> AgentActionsSummaryView {
    match input {
        None => actions,
        Some(v) => {
            if tool_name == "str-replace-editor"@ {
                AgentActionsSummaryView {
                    files_modified: with_text_member(actions.files_modified, v, "path"@),
                    ..actions
                }
            } else if tool_name == "save-file"@ {
                AgentActionsSummaryView {
                    files_created: with_text_member(actions.files_created, v, "path"@),
                    ..actions
                }
            } else if tool_name == "remove-files"@ {
                AgentActionsSummaryView {
                    files_deleted: with_array_member(actions.files_deleted, v, "file_paths"@),
                    ..actions
                }
            } else if tool_name == "view"@ {
                AgentActionsSummaryView {
                    files_viewed: with_text_member(actions.files_viewed, v, "path"@),
                    ..actions
                }
            } else if tool_name == "launch-process"@ {
                AgentActionsSummaryView {
                    terminal_commands: with_text_member(actions.terminal_commands, v, "command"@),
                    ..actions
                }
            } else {
                actions
            }
        },
    }
}

fn insert_entry(set: &mut StringSet, raw: &str)
    ensures
        final(set)@ == with_entry(old(set)@, raw@),
{
    proof {
        lemma_trimmed_empty(raw@);
    }
    let t = trim(raw);
    if !t.is_empty() {
        set.insert(t.to_owned());
    }
}

fn insert_text_member(set: &mut StringSet, input: &JsonValue, key: &str)
    ensures
        final(set)@ == with_text_member(old(set)@, input@, key@),
{
    if let Some(m) = input.get(key) {
        if let Some(raw) = m.as_str() {
            insert_entry(set, raw);
        }
    }
}

fn insert_array_member(set: &mut StringSet, input: &JsonValue, key: &str)
    ensures
        final(set)@ == with_array_member(old(set)@, input@, key@),
{
    if let Some(m) = input.get(key) {
        if let Some(items) = m.as_array() {
            let ghost all = items.deep_view();
            let mut i: usize = 0;
            while i < items.len()
                invariant
                    i <= items.len(),
                    all == items.deep_view(),
                    set@ == with_text_items(old(set)@, all.take(i as int)),
                decreases items.len() - i,
            {
                assert(all.take(i as int + 1).drop_last() =~= all.take(i as int));
                assert(all.take(i as int + 1).last() == items[i as int]@);
                if let Some(raw) = items[i].as_str() {
                    insert_entry(set, raw);
                }
                i = i + 1;
            }
            assert(all.take(items.len() as int) =~= all);
        }
    }
}

/// Records a tool use whose input has been parsed: `input` is the parsed
/// input, or none where the input was no JSON.
pub fn record_tool_use(
    tool_name: &str,
    input: Option<&JsonValue>,
    actions: &mut AgentActionsSummary,
)
    ensures
        final(actions)@ == with_tool_use(old(actions)@, tool_name@, input.deep_view()),
{
    let v = match input {
        Some(v) => v,
        None => {
            return ;
        },
    };
    if text_eq(tool_name, "str-replace-editor") {
        insert_text_member(&mut actions.files_modified, v, "path");
    } else if text_eq(tool_name, "save-file") {
        insert_text_member(&mut actions.files_created, v, "path");
    } else if text_eq(tool_name, "remove-files") {
        insert_array_member(&mut actions.files_deleted, v, "file_paths");
    } else if text_eq(tool_name, "view") {
        insert_text_member(&mut actions.files_viewed, v, "path");
    } else if text_eq(tool_name, "launch-process") {
        insert_text_member(&mut actions.terminal_commands, v, "command");
    }
}

/// Records a tool use: parses its input and adds what the tool touched to
/// the set of its kind.
pub fn add_tool_use_to_actions(tool_use: &ToolUse, actions: &mut AgentActionsSummary)
    ensures
        final(actions)@ == with_tool_use(
            old(actions)@,
            tool_use@.tool_name,
            parsed_json(tool_use@.input_json),
        ),
{
    let parsed = parse_json(tool_use.input_json.as_str());
    record_tool_use(tool_use.tool_name.as_str(), parsed.as_ref(), actions);
}

/// The listing `l` without the texts of `xs`.
pub open spec fn without_all(l: Seq<Seq<char>>, xs: Seq<Seq<char>>) -> Seq<Seq<char>>
    decreases xs.len(),
{
    if xs.len() == 0 {
        l
    } else {
        removed(without_all(l, xs.drop_last()), xs.last())
    }
}

/// Taking texts away keeps a listing ascending, and leaves the texts that
/// were not taken.
pub proof fn lemma_without_all(l: Seq<Seq<char>>, xs: Seq<Seq<char>>)
    requires
        ascending(l),
    ensures
        ascending(without_all(l, xs)),
        forall|y: Seq<char>| without_all(l, xs).contains(y) <==> (l.contains(y) && !xs.contains(y)),
    decreases xs.len(),
{
    if xs.len() > 0 {
        let before = without_all(l, xs.drop_last());
        lemma_without_all(l, xs.drop_last());
        lemma_removed(before, xs.last());
        assert forall|y: Seq<char>| without_all(l, xs).contains(y) <==> (l.contains(y)
            && !xs.contains(y)) by {
            if xs.contains(y) {
                let i = choose|i: int| 0 <= i < xs.len() && xs[i] == y;
                if i < xs.len() - 1 {
                    assert(xs.drop_last()[i] == y);
                }
            }
            if xs.drop_last().contains(y) {
                let i = choose|i: int| 0 <= i < xs.drop_last().len() && xs.drop_last()[i] == y;
                assert(xs[i] == y);
            }
            assert(xs.last() == xs[xs.len() - 1]);
        }
    }
}

/// The actions as they are listed: a file that was modified does not count
/// as viewed.
pub open spec fn finalized(actions: AgentActionsSummaryView) -> AgentActionsSummaryView {
    AgentActionsSummaryView {
        files_viewed: without_all(actions.files_viewed, actions.files_modified),
        ..actions
    }
}

/// Takes the modified files out of the viewed files. Afterwards no file is
/// both modified and viewed.
pub fn finalize_actions(actions: &mut AgentActionsSummary)
    ensures
        final(actions)@ == finalized(old(actions)@),
        forall|p: Seq<char>|
            final(actions)@.files_viewed.contains(p) <==> (old(actions)@.files_viewed.contains(p)
                && !old(actions)@.files_modified.contains(p)),
        modified_apart_from_viewed(final(actions)@),
{
    let ghost viewed = actions.files_viewed@;
    let ghost modified_listing = actions.files_modified@;
    let _ = actions.files_viewed.items();
    assert(ascending(viewed));
    let mut i: usize = 0;
    let n = actions.files_modified.len();
    while i < n
        invariant
            i <= n,
            n == modified_listing.len(),
            actions.files_modified@ == modified_listing,
            actions.files_created@ == old(actions).files_created@,
            actions.files_deleted@ == old(actions).files_deleted@,
            actions.terminal_commands@ == old(actions).terminal_commands@,
            actions.files_viewed@ == without_all(viewed, modified_listing.take(i as int)),
        decreases n - i,
    {
        let modified = actions.files_modified.items();
        assert(modified_listing.take(i as int + 1).drop_last() =~= modified_listing.take(i as int));
        assert(modified_listing.take(i as int + 1).last() == modified[i as int]@);
        actions.files_viewed.remove(modified[i].as_str());
        i = i + 1;
    }
    proof {
        assert(modified_listing.take(n as int) =~= modified_listing);
        lemma_without_all(viewed, modified_listing);
    }
}

/// Whether each listing of `a` is ascending.
pub open spec fn in_order(a: AgentActionsSummaryView) -> bool {
    &&& ascending(a.files_modified)
    &&& ascending(a.files_created)
    &&& ascending(a.files_deleted)
    &&& ascending(a.files_viewed)
    &&& ascending(a.terminal_commands)
}

/// Whether no file of `a` is both modified and viewed.
pub open spec fn modified_apart_from_viewed(a: AgentActionsSummaryView) -> bool {
    forall|p: Seq<char>| !(a.files_modified.contains(p) && a.files_viewed.contains(p))
}

/// Adding the strings of an array keeps a listing ascending.
pub proof fn lemma_with_text_items(l: Seq<Seq<char>>, items: Seq<JsonView>)
    requires
        ascending(l),
    ensures
        ascending(with_text_items(l, items)),
    decreases items.len(),
{
    if items.len() > 0 {
        let before = with_text_items(l, items.drop_last());
        lemma_with_text_items(l, items.drop_last());
        match items.last().text() {
            Some(raw) => {
                lemma_inserted(before, trimmed(raw));
            },
            None => {},
        }
    }
}

/// A tool use keeps the listings ascending.
pub proof fn lemma_with_tool_use(
    a: AgentActionsSummaryView,
    tool_name: Seq<char>,
    input: Option<JsonView>,
)
    requires
        in_order(a),
    ensures
        in_order(with_tool_use(a, tool_name, input)),
{
    match input {
        Some(v) => {
            match v.member("path"@) {
                Some(m) => match m.text() {
                    Some(raw) => {
                        lemma_inserted(a.files_modified, trimmed(raw));
                        lemma_inserted(a.files_created, trimmed(raw));
                        lemma_inserted(a.files_viewed, trimmed(raw));
                    },
                    None => {},
                },
                None => {},
            }
            match v.member("command"@) {
                Some(m) => match m.text() {
                    Some(raw) => {
                        lemma_inserted(a.terminal_commands, trimmed(raw));
                    },
                    None => {},
                },
                None => {},
            }
            match v.member("file_paths"@) {
                Some(m) => match m.items() {
                    Some(items) => {
                        lemma_with_text_items(a.files_deleted, items);
                    },
                    None => {},
                },
                None => {},
            }
        },
        None => {},
    }
}

/// Listed actions are in order, and none of their files is both modified
/// and viewed.
pub proof fn lemma_finalized(a: AgentActionsSummaryView)
    requires
        in_order(a),
    ensures
        in_order(finalized(a)),
        modified_apart_from_viewed(finalized(a)),
{
    lemma_without_all(a.files_viewed, a.files_modified);
}

} // verus!
