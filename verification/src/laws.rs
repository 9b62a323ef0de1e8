//! Laws of the get-or-assign step.
//!
//! `Itemizer::id_of` promises `assigned(old(self)@, *item, final(self)@, r@)`
//! (see `itemizer::assigned`), and a well-formed `Itemizer` has
//! `distinct_values(self@)`. The proof functions here state, over those spec
//! functions alone, the properties that hold of every `Itemizer` as it moves
//! from state to state.

use vstd::prelude::*;

use crate::itemizer::{assigned, distinct_values};

verus! {

/// Determinism and idempotence: asking twice in succession for the same
/// value returns the same identifier both times and leaves the second state
/// equal to the first; the count grows by exactly one on the first call when
/// the value is new, by zero when it is not, and never on the second call.
pub proof fn lemma_assign_idempotent<T>(
    s: Seq<T>,
    v: T,
    s1: Seq<T>,
    i1: nat,
    s2: Seq<T>,
    i2: nat,
)
    requires
        distinct_values(s),
        assigned(s, v, s1, i1),
        assigned(s1, v, s2, i2),
    ensures
        s2 == s1,
        i2 == i1,
        !s.contains(v) ==> s1.len() == s.len() + 1,
        s.contains(v) ==> s1.len() == s.len(),
        s2.len() == s1.len(),
{
    assert(s1[i1 as int] == v);
    assert(s1.contains(v));
    lemma_assign_distinct(s, v, s1, i1);
}

/// Round-trip: a value assigned identifier `id` is exactly the value that
/// `id` resolves to in the resulting state.
pub proof fn lemma_round_trip<T>(s: Seq<T>, v: T, s2: Seq<T>, id: nat)
    requires
        assigned(s, v, s2, id),
    ensures
        s2[id as int] == v,
{
}

/// Density: in a state holding no value twice, asking for the value at any
/// in-range position `i` changes nothing and returns `i` itself; so every
/// position below the count is the identifier of exactly one value.
pub proof fn lemma_density<T>(s: Seq<T>, i: int, s2: Seq<T>, id: nat)
    requires
        distinct_values(s),
        0 <= i < s.len(),
        assigned(s, s[i], s2, id),
    ensures
        s2 == s,
        id == i,
{
    assert(s.contains(s[i]));
}

/// Distinctness: two unequal values asked for one after the other never
/// receive the same identifier.
pub proof fn lemma_distinct_ids<T>(
    s: Seq<T>,
    v1: T,
    v2: T,
    s1: Seq<T>,
    i1: nat,
    s2: Seq<T>,
    i2: nat,
)
    requires
        v1 != v2,
        assigned(s, v1, s1, i1),
        assigned(s1, v2, s2, i2),
    ensures
        i1 != i2,
{
    if i1 == i2 {
        assert(s1[i1 as int] == v1);
        assert(s2[i2 as int] == v2);
    }
}

/// A get-or-assign step keeps the state free of repeated values.
pub proof fn lemma_assign_distinct<T>(s: Seq<T>, v: T, s2: Seq<T>, id: nat)
    requires
        distinct_values(s),
        assigned(s, v, s2, id),
    ensures
        distinct_values(s2),
{
    if !s.contains(v) {
        assert forall|i: int, j: int| 0 <= i < j < s2.len() implies s2[i] != s2[j] by {
            if j == s.len() {
                assert(!s.contains(s2[j]));
                assert(s[i] == s2[i]);
            }
        }
    }
}

} // verus!
