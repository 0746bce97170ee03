//! Stable sorting of the lists shown to the user.
//!
//! Every list the brokers return is ordered by a rule of its own (strongest
//! signal first, active profiles first, connected devices first). A type
//! states its rule over its view by implementing [`Ranked`]; [`sort_stable`]
//! then orders a list by it and leaves items that tie in the order in which
//! they came.

use vstd::prelude::*;
use vstd::seq_lib::*;

verus! {

/// A type whose values are listed in a fixed order of precedence.
pub trait Ranked: View + Sized {
    /// Whether `a` has to be listed before `b`. Two values of which neither
    /// has to be listed before the other tie.
    spec fn ranks_before(a: Self::V, b: Self::V) -> bool;

    /// Whether `self` has to be listed before `other`.
    fn comes_before(&self, other: &Self) -> (r: bool)
        ensures
            r == Self::ranks_before(self@, other@),
    ;

    /// No two values each have to be listed before the other.
    proof fn lemma_asymmetric(a: Self::V, b: Self::V)
        ensures
            !(Self::ranks_before(a, b) && Self::ranks_before(b, a)),
    ;

    /// Precedence carries over a value in between.
    proof fn lemma_transitive(a: Self::V, b: Self::V, c: Self::V)
        requires
            Self::ranks_before(a, b),
            Self::ranks_before(b, c),
        ensures
            Self::ranks_before(a, c),
    ;
}

/// The views of a list's items.
pub open spec fn views<T: View>(s: Seq<T>) -> Seq<T::V> {
    s.map_values(|t: T| t@)
}

/// The first position at or after `from` whose item `x` has to be listed
/// before, or the length of `s` when there is none: the place where `x` goes
/// into an ordered `s` so that it comes after every item it ties with.
pub open spec fn place_from<T: Ranked>(s: Seq<T::V>, x: T::V, from: int) -> int
    decreases s.len() - from,
{
    if from >= s.len() {
        s.len() as int
    } else if T::ranks_before(x, s[from]) {
        from
    } else {
        place_from::<T>(s, x, from + 1)
    }
}

/// `s` in order of precedence, items that tie in the order they have in `s`.
pub open spec fn stable_sorted<T: Ranked>(s: Seq<T::V>) -> Seq<T::V>
    decreases s.len(),
{
    if s.len() == 0 {
        Seq::empty()
    } else {
        let before = stable_sorted::<T>(s.drop_last());
        before.insert(place_from::<T>(before, s.last(), 0), s.last())
    }
}

/// Whether no item of `s` has to be listed before an earlier one.
pub open spec fn ordered<T: Ranked>(s: Seq<T::V>) -> bool {
    forall|i: int, j: int| 0 <= i < j < s.len() ==> !T::ranks_before(s[j], s[i])
}

/// Where `x` goes into `s`.
pub fn place<T: Ranked>(s: &Vec<T>, x: &T) -> (p: usize)
    ensures
        p == place_from::<T>(views(s@), x@, 0),
        p <= s.len(),
{
    let mut i: usize = 0;
    while i < s.len() && !x.comes_before(&s[i])
        invariant
            i <= s.len(),
            place_from::<T>(views(s@), x@, 0) == place_from::<T>(views(s@), x@, i as int),
        decreases s.len() - i,
    {
        i += 1;
    }
    i
}

/// Orders `items` by precedence, keeping items that tie in the order in
/// which they came.
pub fn sort_stable<T: Ranked>(items: Vec<T>) -> (out: Vec<T>)
    ensures
        views(out@) == stable_sorted::<T>(views(items@)),
{
    let mut out: Vec<T> = Vec::new();
    proof {
        assert(views(items@).take(0) =~= Seq::empty());
        assert(views(out@) =~= Seq::empty());
    }
    for x in it: items
        invariant
            it.seq() == items@,
            views(out@) == stable_sorted::<T>(views(items@).take(it.index() as int)),
    {
        let ghost before = out@;
        let p = place(&out, &x);
        out.insert(p, x);
        proof {
            let done = views(items@).take(it.index() + 1);
            assert(done.drop_last() =~= views(items@).take(it.index() as int));
            assert(done.last() == x@);
            assert(views(out@) =~= views(before).insert(p as int, x@));
        }
    }
    proof {
        assert(views(items@).take(items@.len() as int) =~= views(items@));
    }
    out
}

/// The place found by [`place_from`] lies between `from` and the end, no
/// item before it (from `from` on) has to come after `x`, and the item at it
/// has.
pub proof fn lemma_place_from<T: Ranked>(s: Seq<T::V>, x: T::V, from: int)
    requires
        0 <= from <= s.len(),
    ensures
        from <= place_from::<T>(s, x, from) <= s.len(),
        forall|k: int| from <= k < place_from::<T>(s, x, from) ==> !T::ranks_before(x, s[k]),
        place_from::<T>(s, x, from) < s.len() ==> T::ranks_before(
            x,
            s[place_from::<T>(s, x, from)],
        ),
    decreases s.len() - from,
{
    if from < s.len() && !T::ranks_before(x, s[from]) {
        lemma_place_from::<T>(s, x, from + 1);
    }
}

/// Sorting neither adds nor drops an item.
pub proof fn lemma_sorted_is_permutation<T: Ranked>(s: Seq<T::V>)
    ensures
        stable_sorted::<T>(s).to_multiset() == s.to_multiset(),
        stable_sorted::<T>(s).len() == s.len(),
    decreases s.len(),
{
    broadcast use group_to_multiset_ensures;

    if s.len() == 0 {
        assert(stable_sorted::<T>(s) =~= s);
    } else {
        let rest = s.drop_last();
        let before = stable_sorted::<T>(rest);
        lemma_sorted_is_permutation::<T>(rest);
        let p = place_from::<T>(before, s.last(), 0);
        lemma_place_from::<T>(before, s.last(), 0);
        to_multiset_insert(before, p, s.last());
        assert(rest.push(s.last()) =~= s);
    }
}

/// A sorted list is in order of precedence.
pub proof fn lemma_sorted_is_ordered<T: Ranked>(s: Seq<T::V>)
    ensures
        ordered::<T>(stable_sorted::<T>(s)),
    decreases s.len(),
{
    if s.len() > 0 {
        let before = stable_sorted::<T>(s.drop_last());
        let x = s.last();
        lemma_sorted_is_ordered::<T>(s.drop_last());
        let p = place_from::<T>(before, x, 0);
        lemma_place_from::<T>(before, x, 0);
        let out = before.insert(p, x);
        assert forall|i: int, j: int| 0 <= i < j < out.len() implies !T::ranks_before(
            out[j],
            out[i],
        ) by {
            if j == p {
                assert(out[i] == before[i]);
            } else if i == p {
                assert(out[j] == before[j - 1]);
                if T::ranks_before(out[j], x) {
                    if j - 1 == p {
                        T::lemma_asymmetric(x, before[p]);
                    } else {
                        T::lemma_transitive(before[j - 1], x, before[p]);
                        assert(!T::ranks_before(before[j - 1], before[p]));
                    }
                }
            } else {
                let bi = if i < p { i } else { i - 1 };
                let bj = if j < p { j } else { j - 1 };
                assert(out[i] == before[bi]);
                assert(out[j] == before[bj]);
                assert(bi < bj);
            }
        }
    }
}

} // verus!
