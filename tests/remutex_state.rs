use persisted_lock::remutex::{ReentrantEvent, ReentrantState, MAX_DEPTH};

#[test]
fn owner_nests_without_blocking() {
    let mut s = ReentrantState::new();
    for i in 1..=5u64 {
        assert!(s.try_lock(1));
        assert_eq!(s.depth(), i);
        assert!(s.is_owned_by(1));
        assert!(!s.try_lock(2));
    }
    for i in (0..5u64).rev() {
        s.unlock(1);
        assert_eq!(s.depth(), i);
        if i > 0 {
            assert!(!s.try_lock(2));
        }
    }
    assert!(!s.is_locked());
    assert!(s.try_lock(2));
    assert!(s.is_owned_by(2));
    assert_eq!(s.depth(), 1);
}

#[test]
fn unlock_by_other_thread_is_refused() {
    let mut s = ReentrantState::new();
    assert!(s.apply(ReentrantEvent::Lock(1)));
    assert!(s.apply(ReentrantEvent::Lock(1)));
    assert!(!s.apply(ReentrantEvent::Unlock(2)));
    assert_eq!(s.depth(), 2);
    assert!(s.apply(ReentrantEvent::Unlock(1)));
    assert!(s.is_locked());
    assert!(s.apply(ReentrantEvent::Unlock(1)));
    assert!(!s.is_locked());
    assert!(!s.apply(ReentrantEvent::Unlock(1)));
}

#[test]
fn force_unlock_clears_every_depth() {
    let mut s = ReentrantState::new();
    assert!(s.try_lock(9));
    assert!(s.try_lock(9));
    assert!(s.try_lock(9));
    s.force_unlock();
    assert!(!s.is_locked());
    assert_eq!(s.depth(), 0);
    assert!(!s.is_owned_by(9));
    assert!(s.try_lock(10));
}

#[test]
fn depth_limit() {
    assert_eq!(MAX_DEPTH, u64::MAX);
}
