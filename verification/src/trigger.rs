//! The trigger evaluator: whether a history is large enough to compact, by
//! a byte budget or by its share of the model's context window.

use vstd::prelude::*;
use crate::config::HistorySummaryConfig;
use crate::size::{approx_token_count_from_byte_len, approx_tokens, clip};
use crate::text::{
    byte_len, chars_contain, contains_text, eq_ignoring_ascii_case, str_eq_ignoring_ascii_case,
    to_chars, trim, trimmed, utf8_len,
};

verus! {

/// Bytes that a summary is taken to need besides the abridged transcript
/// and the summarizer's output.
pub const SUMMARY_FIXED_OVERHEAD: usize = 4096;

/// How the trigger is evaluated.
#[derive(Clone, Copy, Debug, PartialEq, Eq, Structural)]
pub enum TriggerStrategy {
    Chars,
    Ratio,
    Auto,
}

/// The outcome of the trigger evaluator.
#[derive(Clone, Copy, Debug, PartialEq, Eq, Structural)]
pub enum TriggerDecision {
    /// The history is left as it is.
    NotTriggered,
    /// The history holds at least `threshold_chars` bytes.
    TriggerChars { threshold_chars: usize },
    /// The history fills the share of the context window that triggers.
    TriggerRatio {
        context_window_tokens: u32,
        threshold_chars: usize,
        target_tail_budget_chars: usize,
        approx_total_tokens: u32,
    },
}

/// The strategy that a configured name stands for: `chars` and `ratio` in
/// any case and with white space around them; `auto` for every other name.
pub open spec fn strategy_of(name: Seq<char>) -> TriggerStrategy {
    if eq_ignoring_ascii_case(trimmed(name), "chars"@) {
        TriggerStrategy::Chars
    } else if eq_ignoring_ascii_case(trimmed(name), "ratio"@) {
        TriggerStrategy::Ratio
    } else {
        TriggerStrategy::Auto
    }
}

/// Reads a strategy's name.
pub fn parse_trigger_strategy(name: &str) -> (s: TriggerStrategy)
    ensures
        s == strategy_of(name@),
{
    let t = trim(name);
    if str_eq_ignoring_ascii_case(t, "chars") {
        TriggerStrategy::Chars
    } else if str_eq_ignoring_ascii_case(t, "ratio") {
        TriggerStrategy::Ratio
    } else {
        TriggerStrategy::Auto
    }
}

/// Whether an override applies to `model`: its key, trimmed, is not empty
/// and stands in the trimmed name of the model, and its window is known.
pub open spec fn override_matches(entry: (Seq<char>, u32), model: Seq<char>) -> bool {
    &&& trimmed(entry.0).len() > 0
    &&& contains_text(trimmed(model), trimmed(entry.0))
    &&& entry.1 > 0
}

/// Whether override `i` is the one that wins for `model`: it applies, no
/// override that applies has a key of more bytes, and none with a key of as
/// many bytes stands before it.
pub open spec fn is_best_override(overrides: Seq<(Seq<char>, u32)>, model: Seq<char>, i: int) -> bool {
    &&& 0 <= i < overrides.len()
    &&& override_matches(overrides[i], model)
    &&& forall|j: int|
        0 <= j < overrides.len() && override_matches(#[trigger] overrides[j], model) ==> {
            ||| utf8_len(overrides[j].0) < utf8_len(overrides[i].0)
            ||| (utf8_len(overrides[j].0) == utf8_len(overrides[i].0) && i <= j)
        }
}

/// The context window of `model` in tokens: that of the override that
/// wins; the default where no override applies and the default is known;
/// otherwise none.
pub open spec fn context_window(
    overrides: Seq<(Seq<char>, u32)>,
    default_tokens: u32,
    model: Seq<char>,
) -> Option<u32> {
    if exists|i: int| is_best_override(overrides, model, i) {
        Some(overrides[choose|i: int| is_best_override(overrides, model, i)].1)
    } else if default_tokens > 0 {
        Some(default_tokens)
    } else {
        None
    }
}

/// At most one override wins.
pub proof fn lemma_best_override_unique(
    overrides: Seq<(Seq<char>, u32)>,
    model: Seq<char>,
    i: int,
    j: int,
)
    requires
        is_best_override(overrides, model, i),
        is_best_override(overrides, model, j),
    ensures
        i == j,
{
    assert(override_matches(overrides[i], model));
    assert(override_matches(overrides[j], model));
}

/// Finds the context window of the requested model.
pub fn resolve_context_window_tokens(hs: &HistorySummaryConfig, requested_model: &str) -> (r:
    Option<u32>)
    ensures
        r == context_window(
            hs.context_window_tokens_overrides.deep_view(),
            hs.context_window_tokens_default,
            requested_model@,
        ),
{
    let model = to_chars(trim(requested_model));
    let entries = &hs.context_window_tokens_overrides;
    let ghost all = entries.deep_view();
    let ghost name = requested_model@;
    let mut best: Option<usize> = None;
    let mut best_len: usize = 0;
    let mut i: usize = 0;
    while i < entries.len()
        invariant
            i <= entries.len(),
            all == entries.deep_view(),
            model@ == trimmed(name),
            best is None ==> forall|j: int| 0 <= j < i ==> !override_matches(#[trigger] all[j], name),
            best matches Some(b) ==> {
                &&& b < i
                &&& best_len == utf8_len(all[b as int].0)
                &&& override_matches(all[b as int], name)
                &&& forall|j: int|
                    0 <= j < i && override_matches(#[trigger] all[j], name) ==> {
                        ||| utf8_len(all[j].0) < utf8_len(all[b as int].0)
                        ||| (utf8_len(all[j].0) == utf8_len(all[b as int].0) && b <= j)
                    }
            },
        decreases entries.len() - i,
    {
        let key = to_chars(trim(entries[i].0.as_str()));
        assert(all[i as int] == (entries[i as int].0@, entries[i as int].1));
        if key.len() > 0 && entries[i].1 > 0 && chars_contain(&model, &key) {
            let len = byte_len(entries[i].0.as_str());
            let better = match best {
                Some(_) => len > best_len,
                None => true,
            };
            if better {
                best = Some(i);
                best_len = len;
            }
        }
        i = i + 1;
    }
    match best {
        Some(b) => {
            proof {
                assert(is_best_override(all, name, b as int));
                let c = choose|c: int| is_best_override(all, name, c);
                lemma_best_override_unique(all, name, b as int, c);
            }
            Some(entries[b].1)
        },
        None => {
            if hs.context_window_tokens_default > 0 {
                Some(hs.context_window_tokens_default)
            } else {
                None
            }
        },
    }
}

/// The decision by bytes: triggered from `trigger_on_history_size_chars` on.
pub open spec fn chars_decision(hs: HistorySummaryConfig, total: usize) -> TriggerDecision {
    if total < hs.trigger_on_history_size_chars {
        TriggerDecision::NotTriggered
    } else {
        TriggerDecision::TriggerChars { threshold_chars: hs.trigger_on_history_size_chars }
    }
}

/// The tokens that `total` bytes stand for, clipped to the largest `u32`.
pub open spec fn total_tokens(total: usize) -> u32 {
    if approx_tokens(total as nat) <= u32::MAX as nat {
        approx_tokens(total as nat) as u32
    } else {
        u32::MAX
    }
}

/// Bytes that a summary adds to a compacted history: the abridged
/// transcript, the summarizer's output at four bytes a token, and a fixed
/// amount.
pub open spec fn summary_overhead(hs: HistorySummaryConfig) -> usize {
    clip(
        hs.abridged_history_params.total_chars_limit as nat + hs.max_tokens as nat * 4
            + SUMMARY_FIXED_OVERHEAD as nat,
    )
}

/// Bytes of tail that a compacted history may keep under a window of
/// `window` tokens: the target share of the window at four bytes a token,
/// less the summary's overhead, and not below zero.
pub open spec fn target_tail_budget(hs: HistorySummaryConfig, window: u32) -> usize {
    let budget = clip(hs.target_context_ratio@.floor_of(window as nat) * 4);
    if budget >= summary_overhead(hs) {
        (budget - summary_overhead(hs)) as usize
    } else {
        0
    }
}

/// The decision by the share of a window of `window` tokens: triggered
/// when the history's tokens, over the window, reach the trigger ratio.
pub open spec fn ratio_decision(hs: HistorySummaryConfig, window: u32, total: usize) -> TriggerDecision {
    if !hs.trigger_on_context_ratio@.reached_by(total_tokens(total) as nat, window as nat) {
        TriggerDecision::NotTriggered
    } else {
        TriggerDecision::TriggerRatio {
            context_window_tokens: window,
            threshold_chars: clip(hs.trigger_on_context_ratio@.ceil_of(window as nat) * 4),
            target_tail_budget_chars: target_tail_budget(hs, window),
            approx_total_tokens: total_tokens(total),
        }
    }
}

/// The window that `auto` works with: the known window, but no more than a
/// quarter of `trigger_on_history_size_chars` where that quarter is not zero.
pub open spec fn clamped_window(hs: HistorySummaryConfig, window: u32) -> u32 {
    let cap = hs.trigger_on_history_size_chars / 4;
    if 0 < cap < window {
        cap as u32
    } else {
        window
    }
}

/// The trigger's decision for a history of `total` bytes, the current
/// message counted in, under a context window of `window` tokens where one
/// is known.
pub open spec fn trigger_decision(
    hs: HistorySummaryConfig,
    window: Option<u32>,
    total: usize,
) -> TriggerDecision {
    match (strategy_of(hs.trigger_strategy@), window) {
        (TriggerStrategy::Ratio, Some(w)) => ratio_decision(hs, w, total),
        (TriggerStrategy::Auto, Some(w)) => ratio_decision(hs, clamped_window(hs, w), total),
        _ => chars_decision(hs, total),
    }
}

fn times_four(n: usize) -> (r: usize)
    ensures
        r == clip(n as nat * 4),
{
    if n > usize::MAX / 4 {
        usize::MAX
    } else {
        n * 4
    }
}

fn tokens_to_chars(tokens: u64) -> (r: usize)
    ensures
        r == clip(tokens as nat * 4),
{
    if tokens > (usize::MAX / 4) as u64 {
        usize::MAX
    } else {
        (tokens as usize) * 4
    }
}

fn decide_by_chars(hs: &HistorySummaryConfig, total: usize) -> (d: TriggerDecision)
    ensures
        d == chars_decision(*hs, total),
{
    if total < hs.trigger_on_history_size_chars {
        TriggerDecision::NotTriggered
    } else {
        TriggerDecision::TriggerChars { threshold_chars: hs.trigger_on_history_size_chars }
    }
}

fn decide_by_ratio(hs: &HistorySummaryConfig, window: u32, total: usize) -> (d: TriggerDecision)
    ensures
        d == ratio_decision(*hs, window, total),
{
    let tokens = approx_token_count_from_byte_len(total);
    if !hs.trigger_on_context_ratio.is_reached_by(tokens as u64, window as u64) {
        return TriggerDecision::NotTriggered;
    }
    let threshold_tokens = hs.trigger_on_context_ratio.scale_ceil(window as u64);
    let threshold_chars = tokens_to_chars(threshold_tokens);
    let target_tokens = hs.target_context_ratio.scale_floor(window as u64);
    let target_chars_budget = tokens_to_chars(target_tokens);
    let overhead = hs.abridged_history_params.total_chars_limit.saturating_add(
        times_four(hs.max_tokens as usize),
    ).saturating_add(SUMMARY_FIXED_OVERHEAD);
    let target_tail_budget_chars = target_chars_budget.saturating_sub(overhead);
    TriggerDecision::TriggerRatio {
        context_window_tokens: window,
        threshold_chars,
        target_tail_budget_chars,
        approx_total_tokens: tokens,
    }
}

/// Decides whether a history of `total_with_extra` bytes, the current
/// message counted in, is to be compacted for the requested model.
pub fn evaluate_trigger(
    hs: &HistorySummaryConfig,
    requested_model: &str,
    total_with_extra: usize,
) -> (d: TriggerDecision)
    ensures
        d == trigger_decision(
            *hs,
            context_window(
                hs.context_window_tokens_overrides.deep_view(),
                hs.context_window_tokens_default,
                requested_model@,
            ),
            total_with_extra,
        ),
{
    let strategy = parse_trigger_strategy(hs.trigger_strategy.as_str());
    let window = resolve_context_window_tokens(hs, requested_model);
    match (strategy, window) {
        (TriggerStrategy::Ratio, Some(w)) => decide_by_ratio(hs, w, total_with_extra),
        (TriggerStrategy::Auto, Some(w)) => {
            let cap = hs.trigger_on_history_size_chars / 4;
            let clamped = if 0 < cap && cap < w as usize {
                cap as u32
            } else {
                w
            };
            decide_by_ratio(hs, clamped, total_with_extra)
        },
        _ => decide_by_chars(hs, total_with_extra),
    }
}

} // verus!
