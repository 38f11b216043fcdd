//! The capacity-bounded, dense, reusable ordinal allocator.
//!
//! A pool owns `capacity` slots, identified by the ordinals `0` to
//! `capacity - 1`. Each slot is in exactly one of three states: *Free*
//! (available for reservation), *Reserved* (claimed, its name not yet
//! stored), or *Filled* (bound to an immutable name). Reservation always
//! claims the lowest free ordinal, which keeps ordinals dense and
//! reproducible; freeing makes an ordinal available again.
//!
//! The reservation protocol separates claiming a slot from populating it, so
//! that the name can be computed — by a step that a caller may make fallible —
//! without a half-initialized slot ever becoming visible: [`Pool::reserve`]
//! claims, [`Pool::fill`] populates, and [`Pool::free`] rolls a claim back or
//! releases a filled slot. [`Pool::reserve_and_fill`] composes the three with
//! this crate's total name formatter.

use vstd::prelude::*;

use crate::error::PoolError;
use crate::name::{format_name, spec_name};

verus! {

/// One slot of the pool.
enum Slot {
    /// Available for reservation.
    Free,
    /// Claimed by a reservation, not yet populated.
    Reserved,
    /// Bound to its formatted name.
    Filled(String),
}

/// The state of one slot, as contracts speak of it.
pub enum SlotState {
    /// Available for reservation.
    Free,
    /// Claimed by a reservation, not yet populated.
    Reserved,
    /// Bound to its formatted name.
    Filled,
}

/// The ordinal allocator: a fixed number of slots, each free, reserved or
/// filled with a name.
pub struct Pool {
    /// One entry per ordinal; the length is the capacity.
    slots: Vec<Slot>,
}

impl Pool {
    /// How many ordinals the pool can hand out at once.
    pub closed spec fn cap(self) -> nat {
        self.slots@.len()
    }

    /// The state of slot `i`. An ordinal outside `[0, cap)` has no entry and
    /// counts as free.
    pub closed spec fn state_of(self, i: int) -> SlotState {
        if 0 <= i < self.slots@.len() {
            match self.slots@[i] {
                Slot::Free => SlotState::Free,
                Slot::Reserved => SlotState::Reserved,
                Slot::Filled(_) => SlotState::Filled,
            }
        } else {
            SlotState::Free
        }
    }

    /// The name stored in slot `i`; meaningful only when the slot is filled.
    pub closed spec fn name_at(self, i: int) -> Seq<char> {
        if 0 <= i < self.slots@.len() {
            match self.slots@[i] {
                Slot::Filled(name) => name@,
                _ => Seq::<char>::empty(),
            }
        } else {
            Seq::<char>::empty()
        }
    }

    /// Ordinal `i` is in range and available.
    pub open spec fn is_free(self, i: int) -> bool {
        0 <= i < self.cap() && self.state_of(i) is Free
    }

    /// Ordinal `i` is in range and claimed but not yet populated.
    pub open spec fn is_reserved(self, i: int) -> bool {
        0 <= i < self.cap() && self.state_of(i) is Reserved
    }

    /// Ordinal `i` is in range and bound to a name.
    pub open spec fn is_filled(self, i: int) -> bool {
        0 <= i < self.cap() && self.state_of(i) is Filled
    }

    /// No ordinal below the capacity is available.
    pub open spec fn exhausted(self) -> bool {
        forall|i: int| 0 <= i < self.cap() ==> !self.is_free(i)
    }

    /// `k` is the lowest available ordinal.
    pub open spec fn smallest_free(self, k: int) -> bool {
        &&& self.is_free(k)
        &&& forall|j: int| 0 <= j < k ==> !self.is_free(j)
    }

    /// An ordinal outside `[0, cap)` has no entry, so it counts as free.
    pub proof fn lemma_out_of_range_is_free(self, i: int)
        ensures
            !(0 <= i < self.cap()) ==> self.state_of(i) is Free,
    {
    }
}

/// Slot `i` has the same state — and, when filled, the same name — in `pre`
/// and `post`.
pub open spec fn slot_unchanged(pre: Pool, post: Pool, i: int) -> bool {
    &&& post.state_of(i) == pre.state_of(i)
    &&& (pre.is_filled(i) ==> post.name_at(i) == pre.name_at(i))
}

/// `post` is `pre` with the lowest free ordinal `k` claimed and nothing else
/// touched.
pub open spec fn reserve_step(pre: Pool, post: Pool, k: int) -> bool {
    &&& post.cap() == pre.cap()
    &&& pre.smallest_free(k)
    &&& post.is_reserved(k)
    &&& forall|j: int| j != k ==> slot_unchanged(pre, post, j)
}

/// `post` is `pre` with the reserved ordinal `k` populated with `name` and
/// nothing else touched.
pub open spec fn fill_step(pre: Pool, post: Pool, k: int, name: Seq<char>) -> bool {
    &&& post.cap() == pre.cap()
    &&& pre.is_reserved(k)
    &&& post.is_filled(k)
    &&& post.name_at(k) == name
    &&& forall|j: int| j != k ==> slot_unchanged(pre, post, j)
}

/// `post` is `pre` with ordinal `k` free and nothing else touched.
pub open spec fn free_step(pre: Pool, post: Pool, k: int) -> bool {
    &&& post.cap() == pre.cap()
    &&& post.state_of(k) is Free
    &&& forall|j: int| j != k ==> slot_unchanged(pre, post, j)
}

/// `post` is `pre` with the lowest free ordinal `k` claimed and populated
/// with `name`, and nothing else touched.
pub open spec fn reserve_fill_step(pre: Pool, post: Pool, k: int, name: Seq<char>) -> bool {
    &&& post.cap() == pre.cap()
    &&& pre.smallest_free(k)
    &&& post.is_filled(k)
    &&& post.name_at(k) == name
    &&& forall|j: int| j != k ==> slot_unchanged(pre, post, j)
}

/// The two pools have the same capacity and agree on every slot's state and
/// stored name.
pub open spec fn same_state(a: Pool, b: Pool) -> bool {
    &&& a.cap() == b.cap()
    &&& forall|i: int| slot_unchanged(a, b, i)
}

/// `b` answers true whenever the slot holds `Slot::Free`.
fn slot_is_free(s: &Slot) -> (b: bool)
    ensures
        b == (s is Free),
{
    match s {
        Slot::Free => true,
        Slot::Reserved => false,
        Slot::Filled(_) => false,
    }
}

impl Pool {
    /// Builds a pool of `capacity` slots, all free. The capacity is fixed for
    /// the pool's lifetime and must be positive.
    pub fn new(capacity: usize) -> (p: Pool)
        requires
            capacity >= 1,
        ensures
            p.cap() == capacity,
            forall|i: int| 0 <= i < capacity ==> p.is_free(i),
    {
        let mut slots: Vec<Slot> = Vec::new();
        while slots.len() < capacity
            invariant
                slots@.len() <= capacity,
                forall|i: int| 0 <= i < slots@.len() ==> slots@[i] is Free,
            decreases capacity - slots@.len(),
        {
            slots.push(Slot::Free);
        }
        Pool { slots }
    }

    /// The number of slots.
    pub fn capacity(&self) -> (c: usize)
        ensures
            c == self.cap(),
    {
        self.slots.len()
    }

    /// Claims the lowest free ordinal, marking it reserved, or fails with
    /// [`PoolError::Exhausted`] exactly when every ordinal below the capacity
    /// is taken. On failure the pool is unchanged.
    pub fn reserve(&mut self) -> (r: Result<usize, PoolError>)
        ensures
            match r {
                Ok(k) => reserve_step(*old(self), *final(self), k as int),
                Err(e) => {
                    &&& e == PoolError::Exhausted
                    &&& old(self).exhausted()
                    &&& *final(self) == *old(self)
                },
            },
    {
        let n = self.slots.len();
        let mut i: usize = 0;
        while i < n
            invariant
                n == self.slots@.len(),
                *self == *old(self),
                i <= n,
                forall|j: int| 0 <= j < i ==> !self.is_free(j),
            decreases n - i,
        {
            if slot_is_free(&self.slots[i]) {
                self.slots.set(i, Slot::Reserved);
                return Ok(i);
            }
            i = i + 1;
        }
        Err(PoolError::Exhausted)
    }

    /// Populates the reserved ordinal with its name, making the slot filled.
    /// Nothing else is touched; the name is immutable from here until the
    /// ordinal is freed.
    pub fn fill(&mut self, ordinal: usize, name: String)
        requires
            old(self).is_reserved(ordinal as int),
        ensures
            fill_step(*old(self), *final(self), ordinal as int, name@),
    {
        self.slots.set(ordinal, Slot::Filled(name));
    }

    /// Returns `ordinal` to the free state: it removes a stored name, rolls a
    /// pending reservation back, and is a no-op on an ordinal that is already
    /// free or out of range.
    pub fn free(&mut self, ordinal: usize)
        ensures
            free_step(*old(self), *final(self), ordinal as int),
    {
        if ordinal < self.slots.len() {
            self.slots.set(ordinal, Slot::Free);
        }
    }

    /// The name currently bound to `ordinal`: present exactly when the slot
    /// is filled. A reserved slot is not visible here.
    pub fn lookup(&self, ordinal: usize) -> (r: Option<String>)
        ensures
            match r {
                Some(name) => self.is_filled(ordinal as int) && name@ == self.name_at(
                    ordinal as int,
                ),
                None => !self.is_filled(ordinal as int),
            },
    {
        if ordinal < self.slots.len() {
            match &self.slots[ordinal] {
                Slot::Filled(name) => Some(name.clone()),
                Slot::Free => None,
                Slot::Reserved => None,
            }
        } else {
            None
        }
    }

    /// Claims the lowest free ordinal and binds it to its formatted name, or
    /// fails with [`PoolError::Exhausted`] exactly when every ordinal below
    /// the capacity is taken, leaving the pool unchanged. The returned string
    /// equals the stored name.
    pub fn reserve_and_fill(&mut self) -> (r: Result<(usize, String), PoolError>)
        ensures
            match r {
                Ok((k, name)) => {
                    &&& name@ == spec_name(k as nat)
                    &&& reserve_fill_step(*old(self), *final(self), k as int, name@)
                },
                Err(e) => {
                    &&& e == PoolError::Exhausted
                    &&& old(self).exhausted()
                    &&& *final(self) == *old(self)
                },
            },
    {
        let k = match self.reserve() {
            Ok(k) => k,
            Err(e) => {
                return Err(e);
            },
        };
        let ghost mid = *self;
        let name = format_name(k);
        let result = name.clone();
        self.fill(k, name);
        proof {
            assert forall|j: int| j != k as int implies slot_unchanged(
                *old(self),
                *self,
                j,
            ) by {
                assert(slot_unchanged(*old(self), mid, j));
                assert(slot_unchanged(mid, *self, j));
            }
        }
        Ok((k, result))
    }
}

} // verus!
