//! A set of texts that lists its members in ascending order.

use vstd::prelude::*;
use crate::text::{lemma_text_order, str_lt, text_eq, text_lt};

verus! {

/// Whether each text of `l` comes before the texts after it.
pub open spec fn ascending(l: Seq<Seq<char>>) -> bool {
    forall|i: int, j: int| 0 <= i < j < l.len() ==> text_lt(#[trigger] l[i], #[trigger] l[j])
}

/// The number of leading texts of `l` that come before `x`.
pub open spec fn rank(l: Seq<Seq<char>>, x: Seq<char>) -> int
    decreases l.len(),
{
    if l.len() > 0 && text_lt(l.first(), x) {
        1 + rank(l.drop_first(), x)
    } else {
        0
    }
}

/// The ascending listing `l` with `x` among its texts.
pub open spec fn inserted(l: Seq<Seq<char>>, x: Seq<char>) -> Seq<Seq<char>> {
    if l.contains(x) {
        l
    } else {
        l.insert(rank(l, x), x)
    }
}

/// The ascending listing `l` without `x`.
pub open spec fn removed(l: Seq<Seq<char>>, x: Seq<char>) -> Seq<Seq<char>> {
    if l.contains(x) {
        l.remove(l.index_of(x))
    } else {
        l
    }
}

/// The rank of `x` is an index of `l` or its length; the texts before it
/// come before `x`, and the text at it, if any, does not.
pub proof fn lemma_rank(l: Seq<Seq<char>>, x: Seq<char>)
    ensures
        0 <= rank(l, x) <= l.len(),
        forall|i: int| 0 <= i < rank(l, x) ==> text_lt(#[trigger] l[i], x),
        rank(l, x) < l.len() ==> !text_lt(l[rank(l, x)], x),
    decreases l.len(),
{
    if l.len() > 0 && text_lt(l.first(), x) {
        let rest = l.drop_first();
        lemma_rank(rest, x);
        assert forall|i: int| 0 <= i < rank(l, x) implies text_lt(#[trigger] l[i], x) by {
            if i > 0 {
                assert(l[i] == rest[i - 1]);
            }
        }
    }
}

/// Inserting keeps a listing ascending and adds `x` to its texts, and
/// nothing else.
pub proof fn lemma_inserted(l: Seq<Seq<char>>, x: Seq<char>)
    requires
        ascending(l),
    ensures
        ascending(inserted(l, x)),
        forall|y: Seq<char>| inserted(l, x).contains(y) <==> (l.contains(y) || y == x),
{
    let r = inserted(l, x);
    if l.contains(x) {
    } else {
        let k = rank(l, x);
        lemma_rank(l, x);
        assert forall|i: int, j: int| 0 <= i < j < r.len() implies text_lt(
            #[trigger] r[i],
            #[trigger] r[j],
        ) by {
            if j == k {
                assert(r[i] == l[i]);
            } else if i == k {
                // x stands before l[k], and l[k] before or at l[j - 1]
                assert(r[j] == l[j - 1]);
                assert(l.contains(l[k]));
                lemma_text_order(l[k], x, l[j - 1]);
                lemma_text_order(x, l[k], l[j - 1]);
                if j - 1 > k {
                    assert(text_lt(l[k], l[j - 1]));
                }
            } else {
                let a = if i < k { i } else { i - 1 };
                let b = if j < k { j } else { j - 1 };
                assert(r[i] == l[a]);
                assert(r[j] == l[b]);
            }
        }
        assert forall|y: Seq<char>| r.contains(y) <==> (l.contains(y) || y == x) by {
            if r.contains(y) {
                let i = choose|i: int| 0 <= i < r.len() && r[i] == y;
                if i < k {
                    assert(l[i] == y);
                } else if i > k {
                    assert(l[i - 1] == y);
                }
            }
            if l.contains(y) {
                let i = choose|i: int| 0 <= i < l.len() && l[i] == y;
                if i < k {
                    assert(r[i] == y);
                } else {
                    assert(r[i + 1] == y);
                }
            }
            if y == x {
                assert(r[k] == x);
            }
        }
    }
}

/// Removing keeps a listing ascending and takes `x` from its texts, and
/// nothing else.
pub proof fn lemma_removed(l: Seq<Seq<char>>, x: Seq<char>)
    requires
        ascending(l),
    ensures
        ascending(removed(l, x)),
        forall|y: Seq<char>| removed(l, x).contains(y) <==> (l.contains(y) && y != x),
{
    let r = removed(l, x);
    if l.contains(x) {
        let k = l.index_of(x);
        assert(0 <= k < l.len() && l[k] == x);
        assert forall|i: int, j: int| 0 <= i < j < r.len() implies text_lt(
            #[trigger] r[i],
            #[trigger] r[j],
        ) by {
            let a = if i < k { i } else { i + 1 };
            let b = if j < k { j } else { j + 1 };
            assert(r[i] == l[a]);
            assert(r[j] == l[b]);
        }
        assert forall|y: Seq<char>| r.contains(y) <==> (l.contains(y) && y != x) by {
            if r.contains(y) {
                let i = choose|i: int| 0 <= i < r.len() && r[i] == y;
                let a = if i < k { i } else { i + 1 };
                assert(l[a] == y);
                if a < k {
                    lemma_text_order(l[a], l[a], l[a]);
                    assert(text_lt(l[a], l[k]));
                } else {
                    lemma_text_order(l[k], l[k], l[k]);
                    assert(text_lt(l[k], l[a]));
                }
            }
            if l.contains(y) && y != x {
                let i = choose|i: int| 0 <= i < l.len() && l[i] == y;
                if i < k {
                    assert(r[i] == y);
                } else {
                    assert(r[i - 1] == y);
                }
            }
        }
    }
}

/// A set of texts, held in ascending order.
#[derive(Debug)]
pub struct StringSet {
    items: Vec<String>,
}

impl View for StringSet {
    type V = Seq<Seq<char>>;

    /// The members, in ascending order.
    closed spec fn view(&self) -> Seq<Seq<char>> {
        self.items.deep_view()
    }
}

impl DeepView for StringSet {
    type V = Seq<Seq<char>>;

    open spec fn deep_view(&self) -> Seq<Seq<char>> {
        self@
    }
}

impl StringSet {
    #[verifier::type_invariant]
    spec fn in_order(self) -> bool {
        ascending(self.items.deep_view())
    }

    /// The empty set.
    pub fn new() -> (s: Self)
        ensures
            s@ == Seq::<Seq<char>>::empty(),
    {
        let items: Vec<String> = Vec::new();
        assert(items.deep_view() =~= Seq::<Seq<char>>::empty());
        StringSet { items }
    }

    /// The number of members.
    pub fn len(&self) -> (n: usize)
        ensures
            n == self@.len(),
    {
        self.items.len()
    }

    /// Whether the set has no member.
    pub fn is_empty(&self) -> (r: bool)
        ensures
            r == (self@.len() == 0),
    {
        self.items.len() == 0
    }

    /// The members, in ascending order.
    pub fn items(&self) -> (items: &Vec<String>)
        ensures
            items.deep_view() == self@,
            ascending(self@),
    {
        proof {
            use_type_invariant(self);
        }
        &self.items
    }

    fn position(&self, s: &str) -> (at: usize)
        ensures
            at == rank(self@, s@),
            at <= self@.len(),
            ascending(self@),
    {
        proof {
            use_type_invariant(self);
        }
        let ghost l = self@;
        let n = self.items.len();
        let mut i: usize = 0;
        assert(l.skip(0) =~= l);
        while i < n && str_lt(self.items[i].as_str(), s)
            invariant
                i <= n,
                n == self.items.len(),
                l == self.items.deep_view(),
                rank(l, s@) == i + rank(l.skip(i as int), s@),
            decreases n - i,
        {
            assert(l.skip(i as int).drop_first() =~= l.skip(i as int + 1));
            assert(l.skip(i as int).first() == self.items[i as int]@);
            i = i + 1;
        }
        proof {
            if i < n {
                assert(l.skip(i as int).first() == self.items[i as int]@);
            }
        }
        i
    }

    /// Whether `s` is a member.
    pub fn contains(&self, s: &str) -> (r: bool)
        ensures
            r == self@.contains(s@),
    {
        let at = self.position(s);
        proof {
            lemma_members_around_rank(self@, s@);
        }
        at < self.items.len() && text_eq(self.items[at].as_str(), s)
    }

    /// Makes `s` a member.
    pub fn insert(&mut self, s: String)
        ensures
            final(self)@ == inserted(old(self)@, s@),
            ascending(final(self)@),
    {
        let at = self.position(s.as_str());
        let ghost l = self@;
        proof {
            lemma_members_around_rank(l, s@);
            lemma_inserted(l, s@);
        }
        if at < self.items.len() && text_eq(self.items[at].as_str(), s.as_str()) {
        } else {
            let ghost x = s@;
            let mut items: Vec<String> = Vec::new();
            assert(items.deep_view() =~= Seq::<Seq<char>>::empty());
            std::mem::swap(&mut self.items, &mut items);
            items.insert(at, s);
            assert(items.deep_view() =~= l.insert(at as int, x));
            self.items = items;
        }
    }

    /// Makes `s` no member.
    pub fn remove(&mut self, s: &str)
        ensures
            final(self)@ == removed(old(self)@, s@),
            ascending(final(self)@),
    {
        let at = self.position(s);
        let ghost l = self@;
        proof {
            lemma_members_around_rank(l, s@);
            lemma_removed(l, s@);
        }
        if at < self.items.len() && text_eq(self.items[at].as_str(), s) {
            proof {
                assert(l[at as int] == s@);
                lemma_index_in_ascending(l, at as int);
            }
            let mut items: Vec<String> = Vec::new();
            assert(items.deep_view() =~= Seq::<Seq<char>>::empty());
            std::mem::swap(&mut self.items, &mut items);
            items.remove(at);
            assert(items.deep_view() =~= l.remove(at as int));
            self.items = items;
        }
    }
}

impl Clone for StringSet {
    fn clone(&self) -> (r: Self)
        ensures
            r@ == self@,
    {
        proof {
            use_type_invariant(self);
        }
        StringSet { items: self.items.clone() }
    }
}

/// In an ascending listing, `x` is a member exactly if it stands at its
/// rank.
pub proof fn lemma_members_around_rank(l: Seq<Seq<char>>, x: Seq<char>)
    requires
        ascending(l),
    ensures
        l.contains(x) <==> (rank(l, x) < l.len() && l[rank(l, x)] == x),
{
    lemma_rank(l, x);
    let k = rank(l, x);
    if l.contains(x) {
        let i = choose|i: int| 0 <= i < l.len() && l[i] == x;
        lemma_text_order(x, x, x);
        if i < k {
            assert(text_lt(l[i], x));
        } else if i > k {
            assert(text_lt(l[k], l[i]));
        }
    }
}

/// In an ascending listing, a text's first index is its only index.
pub proof fn lemma_index_in_ascending(l: Seq<Seq<char>>, i: int)
    requires
        ascending(l),
        0 <= i < l.len(),
    ensures
        l.index_of(l[i]) == i,
{
    let k = l.index_of(l[i]);
    assert(l.contains(l[i]));
    assert(0 <= k < l.len() && l[k] == l[i]);
    lemma_text_order(l[i], l[i], l[i]);
    if k < i {
        assert(text_lt(l[k], l[i]));
    } else if k > i {
        assert(text_lt(l[i], l[k]));
    }
}

} // verus!
