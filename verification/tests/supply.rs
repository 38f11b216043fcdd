use tt_core::error::PoolError;
use tt_core::supply::{OrdinalHandle, Supply};

#[test]
fn lazy_init_example() {
    // Freshly constructed, capacity configured to 2: the first two calls
    // return ordinals 0 and 1 with their names; the third fails with
    // Exhausted; freeing ordinal 0 and calling again returns ordinal 0 with
    // the same name.
    let mut supply = Supply::new();
    assert!(!supply.is_initialized());

    let (h0, name0) = supply.next(2).unwrap();
    assert!(supply.is_initialized());
    assert_eq!(h0.ordinal(), 0);
    assert_eq!(name0.as_str(), "tenstorrent/0");

    let (h1, name1) = supply.next(2).unwrap();
    assert_eq!(h1.ordinal(), 1);
    assert_eq!(name1.as_str(), "tenstorrent/1");

    assert_eq!(supply.next(2).unwrap_err(), PoolError::Exhausted);

    supply.release(h0);
    let (h0_again, name_again) = supply.next(2).unwrap();
    assert_eq!(h0_again.ordinal(), 0);
    assert_eq!(name_again.as_str(), "tenstorrent/0");
}

#[test]
fn release_frees_exactly_its_ordinal() {
    let mut supply = Supply::new();
    let (h0, _) = supply.next(3).unwrap();
    let (h1, _) = supply.next(3).unwrap();
    assert_eq!(supply.lookup(0).unwrap().as_str(), "tenstorrent/0");
    assert_eq!(supply.lookup(1).unwrap().as_str(), "tenstorrent/1");

    supply.release(h0);
    // Exactly ordinal 0 was freed; ordinal 1 is untouched.
    assert!(supply.lookup(0).is_none());
    assert_eq!(supply.lookup(1).unwrap().as_str(), "tenstorrent/1");

    // The freed ordinal is handed out again; releasing the other handle
    // afterwards frees its own ordinal, not the re-allocated one.
    let (h0_again, _) = supply.next(3).unwrap();
    assert_eq!(h0_again.ordinal(), 0);
    supply.release(h1);
    assert!(supply.lookup(0).is_some());
    assert!(supply.lookup(1).is_none());
}

#[test]
fn free_on_uninitialized_supply_is_noop() {
    // Freeing or looking up through a supply whose pool was never installed
    // is a no-op, not an error, and does not install the pool.
    let mut supply = Supply::new();
    supply.free(0);
    supply.free(42);
    assert!(!supply.is_initialized());
    assert!(supply.lookup(0).is_none());
}

#[test]
fn free_on_absent_ordinal_is_noop() {
    let mut supply = Supply::new();
    let (h0, _) = supply.next(2).unwrap();
    // Ordinal 1 is free and ordinal 9 is out of range: both calls are no-ops.
    supply.free(1);
    supply.free(9);
    assert_eq!(supply.lookup(0).unwrap().as_str(), "tenstorrent/0");
    supply.release(h0);
}

#[test]
fn capacity_is_fixed_at_first_use() {
    // The configured capacity is read once, on the call that installs the
    // pool; a different configuration on later calls changes nothing.
    let mut supply = Supply::new();
    supply.next(2).unwrap();
    supply.next(10).unwrap();
    assert_eq!(supply.next(10).unwrap_err(), PoolError::Exhausted);
}

#[test]
fn handle_is_movable_without_release() {
    // Moving a handle around does not release its ordinal; only release does.
    let mut supply = Supply::new();
    let (handle, _) = supply.next(2).unwrap();
    let parked: Vec<OrdinalHandle> = vec![handle];
    assert_eq!(supply.lookup(0).unwrap().as_str(), "tenstorrent/0");
    for h in parked {
        supply.release(h);
    }
    assert!(supply.lookup(0).is_none());
}
