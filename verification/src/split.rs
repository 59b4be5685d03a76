//! Cutting a history in two: the head that a summary will stand for and the
//! tail that is kept, and moving the cut off a tool result.

use vstd::prelude::*;
use crate::nodes::{exchange_has_tool_results, has_tool_results};
use crate::protocol::{AugmentChatHistory, AugmentChatHistoryView, HistorySplit};
use crate::size::{
    clip, estimate_exchange_size_chars, estimate_history_size_chars, history_size,
    lemma_history_size_concat, lemma_history_size_skip,
};

verus! {

/// Whether exchange `i` goes to the tail. Walking from the newest exchange
/// to the oldest, an exchange is kept while the exchanges after it hold
/// fewer bytes than `tail_budget`, or are fewer than `min_tail`.
pub open spec fn belongs_to_tail(
    history: Seq<AugmentChatHistoryView>,
    i: int,
    tail_budget: usize,
    min_tail: usize,
) -> bool {
    ||| clip(history_size(history.skip(i + 1))) < tail_budget
    ||| history.len() - 1 - i < min_tail
}

/// What follows a later exchange is no larger than what follows an earlier
/// one.
pub proof fn lemma_later_suffix_is_smaller(history: Seq<AugmentChatHistoryView>, i: int, j: int)
    requires
        0 <= i <= j <= history.len(),
    ensures
        history_size(history.skip(j)) <= history_size(history.skip(i)),
{
    assert(history.skip(i) =~= history.subrange(i, j) + history.skip(j));
    lemma_history_size_concat(history.subrange(i, j), history.skip(j));
}

/// An exchange that follows one of the tail belongs to the tail too.
pub proof fn lemma_tail_is_a_suffix(
    history: Seq<AugmentChatHistoryView>,
    i: int,
    j: int,
    tail_budget: usize,
    min_tail: usize,
)
    requires
        0 <= i <= j < history.len(),
        belongs_to_tail(history, i, tail_budget, min_tail),
    ensures
        belongs_to_tail(history, j, tail_budget, min_tail),
{
    lemma_later_suffix_is_smaller(history, i + 1, j + 1);
}

/// The start of the tail, found by walking from exchange `k` towards the
/// oldest while the exchange before belongs to the tail.
pub open spec fn tail_start_from(
    history: Seq<AugmentChatHistoryView>,
    k: int,
    tail_budget: usize,
    min_tail: usize,
) -> int
    decreases k,
{
    if k > 0 && belongs_to_tail(history, k - 1, tail_budget, min_tail) {
        tail_start_from(history, k - 1, tail_budget, min_tail)
    } else {
        k
    }
}

/// The number of exchanges that go to the head: none below `threshold`
/// bytes of history; otherwise all that do not belong to the tail.
pub open spec fn split_point(
    history: Seq<AugmentChatHistoryView>,
    tail_budget: usize,
    threshold: usize,
    min_tail: usize,
) -> int {
    if clip(history_size(history)) < threshold {
        0
    } else {
        tail_start_from(history, history.len() as int, tail_budget, min_tail)
    }
}

/// The start of a tail after it was moved off tool results: `start` itself
/// where it is the first exchange, lies past the end, or carries no tool
/// result; otherwise what the exchange before gives.
pub open spec fn adjusted_start(history: Seq<AugmentChatHistoryView>, start: int) -> int
    decreases start,
{
    if 0 < start < history.len() && has_tool_results(history[start]) {
        adjusted_start(history, start - 1)
    } else {
        start
    }
}

/// The start of a tail lies within the history.
pub proof fn lemma_split_point_bounds(
    history: Seq<AugmentChatHistoryView>,
    tail_budget: usize,
    threshold: usize,
    min_tail: usize,
)
    ensures
        0 <= split_point(history, tail_budget, threshold, min_tail) <= history.len(),
{
    lemma_tail_start_from_bounds(history, history.len() as int, tail_budget, min_tail);
}

proof fn lemma_tail_start_from_bounds(
    history: Seq<AugmentChatHistoryView>,
    k: int,
    tail_budget: usize,
    min_tail: usize,
)
    requires
        0 <= k,
    ensures
        0 <= tail_start_from(history, k, tail_budget, min_tail) <= k,
    decreases k,
{
    if k > 0 && belongs_to_tail(history, k - 1, tail_budget, min_tail) {
        lemma_tail_start_from_bounds(history, k - 1, tail_budget, min_tail);
    }
}

/// A start that was moved off tool results is no later than before; and
/// where the start lay within the history, it is the first exchange or
/// carries no tool result.
pub proof fn lemma_adjusted_start(history: Seq<AugmentChatHistoryView>, start: int)
    requires
        0 <= start,
    ensures
        0 <= adjusted_start(history, start) <= start,
        start < history.len() ==> adjusted_start(history, start) == 0 || !has_tool_results(
            history[adjusted_start(history, start)],
        ),
    decreases start,
{
    if 0 < start < history.len() && has_tool_results(history[start]) {
        lemma_adjusted_start(history, start - 1);
    }
}

/// Copies of the exchanges `from..to` of `history`.
pub fn clone_range(history: &[AugmentChatHistory], from: usize, to: usize) -> (r: Vec<
    AugmentChatHistory,
>)
    requires
        from <= to <= history.len(),
    ensures
        r.deep_view() == history.deep_view().subrange(from as int, to as int),
{
    let mut r: Vec<AugmentChatHistory> = Vec::new();
    let mut i: usize = from;
    assert(r.deep_view() =~= history.deep_view().subrange(from as int, from as int));
    while i < to
        invariant
            from <= i <= to <= history.len(),
            r.deep_view() == history.deep_view().subrange(from as int, i as int),
        decreases to - i,
    {
        let ghost before = r.deep_view();
        r.push(history[i].clone());
        assert(r.deep_view() =~= before.push(history[i as int]@));
        assert(history.deep_view().subrange(from as int, i as int + 1) =~= history.deep_view().subrange(
            from as int,
            i as int,
        ).push(history[i as int]@));
        i = i + 1;
    }
    r
}

/// Finds where `history` is cut: the number of exchanges that go to the
/// head.
pub fn find_split_point(
    history: &[AugmentChatHistory],
    tail_size_chars_to_exclude: usize,
    trigger_on_history_size_chars: usize,
    min_tail_exchanges: usize,
) -> (cut: usize)
    ensures
        cut <= history.len(),
        cut == split_point(
            history.deep_view(),
            tail_size_chars_to_exclude,
            trigger_on_history_size_chars,
            min_tail_exchanges,
        ),
        clip(history_size(history.deep_view())) >= trigger_on_history_size_chars ==> forall|
            i: int,
        |
            0 <= i < history.len() ==> (cut <= i <==> #[trigger] belongs_to_tail(
                history.deep_view(),
                i,
                tail_size_chars_to_exclude,
                min_tail_exchanges,
            )),
{
    let ghost all = history.deep_view();
    let n = history.len();
    let mut cut: usize = n;
    let mut seen: usize = 0;
    let mut in_tail: usize = 0;
    while cut > 0 && (seen < tail_size_chars_to_exclude || in_tail < min_tail_exchanges)
        invariant
            cut <= n,
            n == history.len(),
            all == history.deep_view(),
            in_tail == n - cut,
            seen == clip(history_size(all.skip(cut as int))),
            tail_start_from(all, n as int, tail_size_chars_to_exclude, min_tail_exchanges)
                == tail_start_from(
                all,
                cut as int,
                tail_size_chars_to_exclude,
                min_tail_exchanges,
            ),
            forall|i: int|
                cut <= i < n ==> #[trigger] belongs_to_tail(
                    all,
                    i,
                    tail_size_chars_to_exclude,
                    min_tail_exchanges,
                ),
        decreases cut,
    {
        cut = cut - 1;
        proof {
            lemma_history_size_skip(all, cut as int);
        }
        seen = seen.saturating_add(estimate_exchange_size_chars(&history[cut]));
        in_tail = in_tail + 1;
    }
    proof {
        if cut > 0 {
            assert(!belongs_to_tail(
                all,
                cut as int - 1,
                tail_size_chars_to_exclude,
                min_tail_exchanges,
            ));
            assert forall|i: int| 0 <= i < cut implies !#[trigger] belongs_to_tail(
                all,
                i,
                tail_size_chars_to_exclude,
                min_tail_exchanges,
            ) by {
                if belongs_to_tail(all, i, tail_size_chars_to_exclude, min_tail_exchanges) {
                    lemma_tail_is_a_suffix(
                        all,
                        i,
                        cut as int - 1,
                        tail_size_chars_to_exclude,
                        min_tail_exchanges,
                    );
                }
            }
        }
    }
    let total = estimate_history_size_chars(history);
    if total < trigger_on_history_size_chars {
        0
    } else {
        cut
    }
}

/// Cuts `history` into head and tail. Below `trigger_on_history_size_chars`
/// bytes nothing is cut off: the head is empty. Otherwise the tail holds the
/// newest exchanges: each one that `belongs_to_tail`.
pub fn split_history_for_summary(
    history: &[AugmentChatHistory],
    tail_size_chars_to_exclude: usize,
    trigger_on_history_size_chars: usize,
    min_tail_exchanges: usize,
) -> (split: HistorySplit)
    ensures
        split.head.deep_view() + split.tail.deep_view() == history.deep_view(),
        split.head.len() == split_point(
            history.deep_view(),
            tail_size_chars_to_exclude,
            trigger_on_history_size_chars,
            min_tail_exchanges,
        ),
        clip(history_size(history.deep_view())) < trigger_on_history_size_chars
            ==> split.head.len() == 0,
        clip(history_size(history.deep_view())) >= trigger_on_history_size_chars ==> forall|
            i: int,
        |
            0 <= i < history.len() ==> (split.head.len() <= i <==> #[trigger] belongs_to_tail(
                history.deep_view(),
                i,
                tail_size_chars_to_exclude,
                min_tail_exchanges,
            )),
{
    let cut = find_split_point(
        history,
        tail_size_chars_to_exclude,
        trigger_on_history_size_chars,
        min_tail_exchanges,
    );
    let head = clone_range(history, 0, cut);
    let tail = clone_range(history, cut, history.len());
    assert(history.deep_view().subrange(0, cut as int) + history.deep_view().subrange(
        cut as int,
        history.len() as int,
    ) =~= history.deep_view());
    HistorySplit { head, tail }
}

/// Moves the start of the tail to an earlier exchange while the tail starts
/// with an exchange that carries a tool result, whose tool use the head
/// would take away. The walk ends on the first exchange without a tool
/// result, or on the first exchange of the history. A start past the end of
/// the history is returned as it is.
pub fn adjust_tail_to_avoid_tool_result_orphans(
    history: &[AugmentChatHistory],
    tail_start: usize,
) -> (start: usize)
    ensures
        start == adjusted_start(history.deep_view(), tail_start as int),
        start <= tail_start,
        tail_start >= history.len() ==> start == tail_start,
        tail_start < history.len() ==> start == 0 || !has_tool_results(
            history.deep_view()[start as int],
        ),
        forall|i: int|
            start < i <= tail_start && i < history.len() ==> has_tool_results(
                #[trigger] history.deep_view()[i],
            ),
{
    if tail_start >= history.len() {
        return tail_start;
    }
    let mut start: usize = tail_start;
    while start > 0 && exchange_has_tool_results(&history[start])
        invariant
            start <= tail_start < history.len(),
            adjusted_start(history.deep_view(), tail_start as int) == adjusted_start(
                history.deep_view(),
                start as int,
            ),
            forall|i: int|
                start < i <= tail_start ==> has_tool_results(#[trigger] history.deep_view()[i]),
        decreases start,
    {
        start = start - 1;
    }
    start
}

} // verus!
