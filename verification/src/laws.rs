//! Laws of the allocator, stated over the pool's transition predicates.
//!
//! Each lemma here relates the steps that [`crate::pool::Pool`]'s operations
//! promise in their contracts: [`crate::pool::reserve_step`],
//! [`crate::pool::reserve_fill_step`] and [`crate::pool::free_step`]. A
//! caller therefore gets each law for the real operations by chaining their
//! `ensures` clauses with the lemma.

use vstd::prelude::*;

use crate::pool::{
    free_step, reserve_fill_step, reserve_step, same_state, slot_unchanged, Pool,
};

verus! {

/// The pool's taken slots are exactly the ordinals below `m`, as after `m`
/// reservations with no frees.
pub open spec fn dense(p: Pool, m: int) -> bool {
    forall|i: int| 0 <= i < p.cap() ==> (p.is_free(i) <==> m <= i)
}

/// The basis of the density induction: a pool with every in-range ordinal
/// free — as [`crate::pool::Pool::new`] builds it — is dense with no ordinal
/// taken.
pub proof fn lemma_fresh_is_dense(p: Pool)
    requires
        forall|i: int| 0 <= i < p.cap() ==> p.is_free(i),
    ensures
        dense(p, 0),
{
}

/// Density: from a pool whose taken ordinals are exactly `{0, ..., m-1}`, a
/// completed reservation returns `m` and the taken ordinals become exactly
/// `{0, ..., m}`. By induction from a fresh pool (which is dense with `m ==
/// 0`), any `N` reservations with no frees return exactly `0, 1, ..., N-1`,
/// in increasing order.
pub proof fn lemma_density(pre: Pool, post: Pool, k: int, name: Seq<char>, m: int)
    requires
        dense(pre, m),
        0 <= m < pre.cap(),
        reserve_fill_step(pre, post, k, name),
    ensures
        k == m,
        dense(post, m + 1),
{
    assert(pre.is_free(k));
    if k != m {
        assert(pre.is_free(m));
        assert(!pre.is_free(m));
    }
    assert forall|i: int| 0 <= i < post.cap() implies (post.is_free(i) <==> m + 1 <= i) by {
        if i != k {
            assert(slot_unchanged(pre, post, i));
            assert(pre.is_free(i) <==> m <= i);
        }
    }
}

/// Reuse: completing a reservation of ordinal `k`, then freeing `k`, leaves
/// `k` as the lowest available ordinal again, so the next reservation —
/// capacity unchanged, nothing else allocated or freed meanwhile — returns
/// `k` by the reservation contract.
pub proof fn lemma_reuse(p0: Pool, p1: Pool, p2: Pool, k: int, name: Seq<char>)
    requires
        reserve_fill_step(p0, p1, k, name),
        free_step(p1, p2, k),
    ensures
        p2.smallest_free(k),
{
    assert forall|j: int| 0 <= j < k implies !p2.is_free(j) by {
        assert(!p0.is_free(j));
        assert(slot_unchanged(p0, p1, j));
        assert(slot_unchanged(p1, p2, j));
    }
}

/// Exhaustion: once every ordinal below the capacity is taken — as after
/// `capacity` reservations with no frees — the pool is exhausted, so the
/// next reservation fails by the reservation contract; and after freeing any
/// in-range ordinal `k`, ordinal `k` is the lowest available one, so a
/// subsequent reservation succeeds and returns `k`.
pub proof fn lemma_exhaustion(p: Pool, q: Pool, k: int)
    requires
        dense(p, p.cap() as int),
        0 <= k < p.cap(),
        free_step(p, q, k),
    ensures
        p.exhausted(),
        !q.exhausted(),
        q.smallest_free(k),
{
    assert forall|j: int| 0 <= j < k implies !q.is_free(j) by {
        assert(!p.is_free(j));
        assert(slot_unchanged(p, q, j));
    }
    assert(q.is_free(k));
}

/// No duplicate allocation, at the reservation level: two reservations made
/// one after the other — as the pool's lock serializes concurrent reservers —
/// with no free in between never claim the same ordinal.
pub proof fn lemma_no_duplicate_reservation(p0: Pool, p1: Pool, p2: Pool, k1: int, k2: int)
    requires
        reserve_step(p0, p1, k1),
        reserve_step(p1, p2, k2),
    ensures
        k1 != k2,
{
    assert(p1.is_reserved(k1));
    assert(p1.is_free(k2));
}

/// No duplicate allocation, for completed reservations: two completed
/// reservations with no free in between return distinct ordinals. With
/// density, exactly `capacity` distinct ordinals are handed out before
/// exhaustion is observed.
pub proof fn lemma_no_duplicate(
    p0: Pool,
    p1: Pool,
    p2: Pool,
    k1: int,
    k2: int,
    n1: Seq<char>,
    n2: Seq<char>,
)
    requires
        reserve_fill_step(p0, p1, k1, n1),
        reserve_fill_step(p1, p2, k2, n2),
    ensures
        k1 != k2,
{
    assert(p1.is_filled(k1));
    assert(p1.is_free(k2));
}

/// Rollback: when populating a reserved ordinal fails, freeing the
/// reservation restores the pool to exactly the state before the
/// reservation, and the ordinal is immediately the lowest available one
/// again — it does not leak as permanently reserved.
pub proof fn lemma_rollback(p0: Pool, p1: Pool, p2: Pool, k: int)
    requires
        reserve_step(p0, p1, k),
        free_step(p1, p2, k),
    ensures
        same_state(p0, p2),
        p2.smallest_free(k),
{
    assert(p0.is_free(k));
    assert forall|i: int| slot_unchanged(p0, p2, i) by {
        if i != k {
            assert(slot_unchanged(p0, p1, i));
            assert(slot_unchanged(p1, p2, i));
        }
    }
    assert forall|j: int| 0 <= j < k implies !p2.is_free(j) by {
        assert(!p0.is_free(j));
        assert(slot_unchanged(p0, p2, j));
    }
}

/// Idempotent free: freeing an ordinal that is not taken — already free, or
/// out of range — leaves the pool in exactly the state it was in.
pub proof fn lemma_idempotent_free(p: Pool, q: Pool, k: int)
    requires
        free_step(p, q, k),
        !p.is_filled(k),
        !p.is_reserved(k),
    ensures
        same_state(p, q),
{
    p.lemma_out_of_range_is_free(k);
    assert(p.state_of(k) is Free);
}

} // verus!
