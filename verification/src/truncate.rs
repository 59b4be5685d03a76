//! Shortening a text in its middle.

use vstd::prelude::*;
use vstd::string::*;
use crate::ratio::{Ratio, RatioView};

verus! {

/// The smaller of two numbers.
pub open spec fn least(a: nat, b: nat) -> nat {
    if a <= b {
        a
    } else {
        b
    }
}

/// The characters that are kept from the start of a text that is cut to
/// `limit` characters: the start's share of what the ellipsis leaves.
pub open spec fn kept_at_start(limit: nat, start_ratio: RatioView) -> nat {
    least(start_ratio.floor_of((limit - 3) as nat), (limit - 3) as nat)
}

/// The characters that are kept from the end: the end's share of what the
/// ellipsis leaves, but no more than the start leaves over.
pub open spec fn kept_at_end(limit: nat, start_ratio: RatioView, end_ratio: RatioView) -> nat {
    least(
        end_ratio.floor_of((limit - 3) as nat),
        ((limit - 3) - kept_at_start(limit, start_ratio)) as nat,
    )
}

/// `s` cut to at most `limit` characters. A text that fits is left as it
/// is. A longer one becomes the start of `...` under a limit of three or
/// less; under a larger limit it keeps a share of its start and a share of
/// its end around `...`, the end clipped to what the start leaves over.
pub open spec fn middle_truncated(
    s: Seq<char>,
    limit: nat,
    start_ratio: RatioView,
    end_ratio: RatioView,
) -> Seq<char> {
    if s.len() <= limit {
        s
    } else if limit <= 3 {
        "..."@.take(limit as int)
    } else {
        s.take(kept_at_start(limit, start_ratio) as int) + "..."@ + s.skip(
            s.len() - kept_at_end(limit, start_ratio, end_ratio),
        )
    }
}

/// A cut text holds at most `limit` characters.
pub proof fn lemma_middle_truncated_len(
    s: Seq<char>,
    limit: nat,
    start_ratio: RatioView,
    end_ratio: RatioView,
)
    ensures
        middle_truncated(s, limit, start_ratio, end_ratio).len() <= limit,
{
    reveal_strlit("...");
}

/// Cutting a cut text to the same limit changes nothing.
pub proof fn lemma_middle_truncate_idempotent(
    s: Seq<char>,
    limit: nat,
    start_ratio: RatioView,
    end_ratio: RatioView,
)
    ensures
        middle_truncated(
            middle_truncated(s, limit, start_ratio, end_ratio),
            limit,
            start_ratio,
            end_ratio,
        ) == middle_truncated(s, limit, start_ratio, end_ratio),
{
    lemma_middle_truncated_len(s, limit, start_ratio, end_ratio);
}

fn share_of(ratio: &Ratio, keep: usize) -> (r: usize)
    ensures
        r == least(ratio@.floor_of(keep as nat), keep as nat),
{
    let scaled = ratio.scale_floor(keep as u64);
    if scaled > keep as u64 {
        keep
    } else {
        scaled as usize
    }
}

/// Cuts `s` to at most `limit` characters, keeping shares of its start and
/// of its end around `...`.
pub fn middle_truncate_with_ellipsis(
    s: &str,
    limit: usize,
    start_ratio: Ratio,
    end_ratio: Ratio,
) -> (r: String)
    ensures
        r@ == middle_truncated(s@, limit as nat, start_ratio@, end_ratio@),
{
    let n = s.unicode_len();
    if n <= limit {
        return s.to_owned();
    }
    proof {
        reveal_strlit("...");
    }
    if limit <= 3 {
        return "...".substring_char(0, limit).to_owned();
    }
    let keep = limit - 3;
    let start = share_of(&start_ratio, keep);
    let end_share = share_of(&end_ratio, keep);
    let end = if end_share > keep - start {
        keep - start
    } else {
        end_share
    };
    let mut out = s.substring_char(0, start).to_owned();
    out.append("...");
    out.append(s.substring_char(n - end, n));
    assert(s@.subrange(n - end, n as int) =~= s@.skip(n - end));
    assert(s@.subrange(0, start as int) =~= s@.take(start as int));
    out
}

} // verus!
