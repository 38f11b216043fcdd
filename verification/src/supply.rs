//! The lazily initialized owner of the allocation pool, and the handle that
//! releases an ordinal when its owner's lifetime ends.
//!
//! A freshly constructed [`Supply`] holds no pool. The first call to
//! [`Supply::next`] builds the pool from the capacity configured at that
//! moment and installs it once; every later call delegates to that same pool
//! and ignores the configuration argument, so the capacity is fixed at
//! first-use time. Freeing through an uninitialized supply is a no-op rather
//! than an error, which keeps teardown ordering simple.

use vstd::prelude::*;

use crate::error::PoolError;
use crate::name::spec_name;
use crate::pool::{free_step, reserve_fill_step, Pool};

verus! {

/// Exclusive ownership of one allocated ordinal.
///
/// A handle is created only by [`Supply::next`], one per successful
/// reservation, and is deliberately neither cloneable nor copyable: at most
/// one live handle exists per filled slot. It may be moved freely — into a
/// larger device structure, across scopes — without affecting its slot; only
/// [`Supply::release`] consumes it, and consuming it is the one way to spend
/// it, so a handle releases its ordinal at most once.
#[derive(Debug)]
pub struct OrdinalHandle {
    /// The ordinal this handle owns the right to release.
    ordinal: usize,
}

impl View for OrdinalHandle {
    type V = nat;

    /// A handle is identified by the ordinal it owns.
    closed spec fn view(&self) -> nat {
        self.ordinal as nat
    }
}

impl OrdinalHandle {
    /// The ordinal this handle owns.
    pub fn ordinal(&self) -> (o: usize)
        ensures
            o == self@,
    {
        self.ordinal
    }
}

/// The process-lifetime holder of the pool, initialized on first demand.
pub struct Supply {
    /// The pool, absent until the first reservation installs it.
    inner: Option<Pool>,
}

impl Supply {
    /// The pool has been installed.
    pub closed spec fn initialized(self) -> bool {
        self.inner is Some
    }

    /// The installed pool; meaningful only when initialized.
    pub closed spec fn pool(self) -> Pool {
        self.inner->Some_0
    }

    /// A supply that holds no pool yet.
    pub fn new() -> (s: Supply)
        ensures
            !s.initialized(),
    {
        Supply { inner: None }
    }

    /// Whether the pool has been installed.
    pub fn is_initialized(&self) -> (b: bool)
        ensures
            b == self.initialized(),
    {
        self.inner.is_some()
    }

    /// Hands out the next ordinal and its formatted name, wrapped in a handle
    /// that owns the ordinal's release.
    ///
    /// On the first call the pool is built with `configured_max` slots — the
    /// capacity read from configuration at first-use time — and installed for
    /// good; later calls ignore `configured_max` and use the installed pool.
    /// The reservation takes the lowest free ordinal, so the very first call
    /// returns ordinal `0`. The call fails, with
    /// [`PoolError::Exhausted`] and the supply unchanged, exactly when the
    /// installed pool has no free ordinal left.
    pub fn next(&mut self, configured_max: u32) -> (r: Result<(OrdinalHandle, String), PoolError>)
        requires
            configured_max >= 1,
        ensures
            final (self).initialized(),
            final (self).pool().cap() == if old(self).initialized() {
                old(self).pool().cap()
            } else {
                configured_max as nat
            },
            match r {
                Ok((handle, name)) => {
                    &&& name@ == spec_name(handle@)
                    &&& final (self).pool().is_filled(handle@ as int)
                    &&& final (self).pool().name_at(handle@ as int) == name@
                    &&& old(self).initialized() ==> reserve_fill_step(
                        old(self).pool(),
                        final (self).pool(),
                        handle@ as int,
                        name@,
                    )
                    &&& !old(self).initialized() ==> handle@ == 0 && forall|i: int|
                        1 <= i < configured_max ==> final (self).pool().is_free(i)
                },
                Err(e) => {
                    &&& e == PoolError::Exhausted
                    &&& old(self).initialized()
                    &&& old(self).pool().exhausted()
                    &&& *final (self) == *old(self)
                },
            },
    {
        let mut pool: Pool = match self.inner.take() {
            Some(pool) => pool,
            None => Pool::new(configured_max as usize),
        };
        let ghost pre = pool;
        let result = pool.reserve_and_fill();
        self.inner = Some(pool);
        match result {
            Ok((ordinal, name)) => {
                proof {
                    if !old(self).initialized() {
                        assert(pre.is_free(0));
                        if ordinal as int != 0 {
                            assert(!pre.is_free(0));
                        }
                        assert forall|i: int|
                            1 <= i < configured_max implies self.pool().is_free(i) by {
                            assert(crate::pool::slot_unchanged(pre, self.pool(), i));
                            assert(pre.is_free(i));
                        }
                    }
                }
                Ok((OrdinalHandle { ordinal }, name))
            },
            Err(e) => {
                proof {
                    if !old(self).initialized() {
                        assert(pre.is_free(0));
                        assert(!pre.is_free(0));
                    }
                }
                Err(e)
            },
        }
    }

    /// Returns `ordinal` to the pool. A no-op when the pool was never
    /// installed, when the ordinal is already free, or when it is out of
    /// range; otherwise exactly that slot becomes free and nothing else is
    /// touched.
    pub fn free(&mut self, ordinal: usize)
        ensures
            final (self).initialized() == old(self).initialized(),
            !old(self).initialized() ==> *final (self) == *old(self),
            old(self).initialized() ==> free_step(
                old(self).pool(),
                final (self).pool(),
                ordinal as int,
            ),
    {
        match &mut self.inner {
            Some(pool) => pool.free(ordinal),
            None => (),
        }
    }

    /// Spends `handle`, freeing its ordinal: the slot the handle owns becomes
    /// free and nothing else is touched. The handle is consumed, so its
    /// ordinal is released through it exactly once; a later identical ordinal
    /// can only come from a fresh reservation.
    pub fn release(&mut self, handle: OrdinalHandle)
        ensures
            final (self).initialized() == old(self).initialized(),
            !old(self).initialized() ==> *final (self) == *old(self),
            old(self).initialized() ==> free_step(
                old(self).pool(),
                final (self).pool(),
                handle@ as int,
            ),
    {
        let OrdinalHandle { ordinal } = handle;
        self.free(ordinal);
    }

    /// The name currently bound to `ordinal`: present exactly when the pool
    /// is installed and the slot is filled.
    pub fn lookup(&self, ordinal: usize) -> (r: Option<String>)
        ensures
            match r {
                Some(name) => {
                    &&& self.initialized()
                    &&& self.pool().is_filled(ordinal as int)
                    &&& name@ == self.pool().name_at(ordinal as int)
                },
                None => !self.initialized() || !self.pool().is_filled(ordinal as int),
            },
    {
        match &self.inner {
            Some(pool) => pool.lookup(ordinal),
            None => None,
        }
    }
}

} // verus!
