use tt_core::error::PoolError;
use tt_core::name::format_name;
use tt_core::pool::Pool;

#[test]
fn density_sequence() {
    // With no frees, ordinals come out dense and increasing: 0, 1, ..., N-1.
    let mut pool = Pool::new(4);
    for expected in 0..4usize {
        let (ordinal, name) = pool.reserve_and_fill().unwrap();
        assert_eq!(ordinal, expected);
        assert_eq!(name, format!("tenstorrent/{}", expected));
    }
}

#[test]
fn reuse_after_free() {
    // Freeing ordinal k makes the next reservation return k again.
    let mut pool = Pool::new(3);
    let (first, _) = pool.reserve_and_fill().unwrap();
    let (second, _) = pool.reserve_and_fill().unwrap();
    assert_eq!(first, 0);
    assert_eq!(second, 1);
    pool.free(0);
    let (again, name) = pool.reserve_and_fill().unwrap();
    assert_eq!(again, 0);
    assert_eq!(name.as_str(), "tenstorrent/0");
}

#[test]
fn exhaustion_and_recovery() {
    // With capacity C, the (C+1)-th reservation fails with Exhausted; a free
    // followed by a reservation succeeds again.
    let mut pool = Pool::new(2);
    assert_eq!(pool.capacity(), 2);
    let (a, _) = pool.reserve_and_fill().unwrap();
    let (b, _) = pool.reserve_and_fill().unwrap();
    assert_eq!(a, 0);
    assert_eq!(b, 1);
    let third = pool.reserve_and_fill();
    assert!(matches!(third, Err(PoolError::Exhausted)));
    pool.free(1);
    let (again, name) = pool.reserve_and_fill().unwrap();
    assert_eq!(again, 1);
    assert_eq!(name.as_str(), "tenstorrent/1");
}

#[test]
fn no_duplicate_allocation() {
    // Exactly `capacity` distinct ordinals are handed out before Exhausted.
    let mut pool = Pool::new(3);
    let mut seen = Vec::new();
    while let Ok((ordinal, _)) = pool.reserve_and_fill() {
        assert!(!seen.contains(&ordinal));
        seen.push(ordinal);
    }
    assert_eq!(seen.len(), 3);
    assert_eq!(pool.reserve_and_fill().unwrap_err(), PoolError::Exhausted);
}

#[test]
fn rollback_after_failed_population() {
    // A reservation whose population step fails is rolled back by freeing
    // the ordinal; the ordinal is immediately available again and never
    // leaks as permanently reserved.
    let mut pool = Pool::new(2);
    let reserved = pool.reserve().unwrap();
    assert_eq!(reserved, 0);
    // The reserved-but-unpopulated slot is not visible to readers.
    assert!(pool.lookup(0).is_none());
    // The population step failed: roll the reservation back.
    pool.free(reserved);
    let again = pool.reserve().unwrap();
    assert_eq!(again, 0);
    pool.free(again);
    // The slot is fully reusable afterwards.
    let (ordinal, name) = pool.reserve_and_fill().unwrap();
    assert_eq!(ordinal, 0);
    assert_eq!(name.as_str(), "tenstorrent/0");
}

#[test]
fn reserve_then_fill_then_lookup() {
    let mut pool = Pool::new(2);
    let ordinal = pool.reserve().unwrap();
    let name = format_name(ordinal);
    pool.fill(ordinal, name);
    assert_eq!(pool.lookup(0).unwrap().as_str(), "tenstorrent/0");
    assert!(pool.lookup(1).is_none());
}

#[test]
fn idempotent_free_on_absent_ordinal() {
    // Freeing an ordinal that is already free, twice, or out of range is a
    // no-op, not an error, and disturbs nothing.
    let mut pool = Pool::new(2);
    pool.free(1);
    pool.free(1);
    pool.free(17);
    let (ordinal, _) = pool.reserve_and_fill().unwrap();
    assert_eq!(ordinal, 0);
    // Free the same filled ordinal twice: the second call is a no-op.
    pool.free(0);
    pool.free(0);
    let (again, _) = pool.reserve_and_fill().unwrap();
    assert_eq!(again, 0);
}

#[test]
fn lowest_free_ordinal_wins() {
    // After freeing a ordinal in the middle, the lowest free one is chosen.
    let mut pool = Pool::new(4);
    for _ in 0..4 {
        pool.reserve_and_fill().unwrap();
    }
    pool.free(2);
    pool.free(1);
    let (ordinal, _) = pool.reserve_and_fill().unwrap();
    assert_eq!(ordinal, 1);
    let (next, _) = pool.reserve_and_fill().unwrap();
    assert_eq!(next, 2);
}
