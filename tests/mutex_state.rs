use persisted_lock::mutex::{MutexEvent, MutexState};

#[test]
fn one_holder_at_a_time() {
    let mut s = MutexState::new();
    assert!(!s.is_locked());
    assert!(s.try_lock(1));
    assert!(s.is_owned_by(1));
    assert!(!s.try_lock(2));
    assert!(!s.try_lock(1));
    s.unlock(1);
    assert!(!s.is_locked());
    assert!(s.try_lock(2));
    assert!(s.is_owned_by(2));
    assert!(!s.is_owned_by(1));
}

#[test]
fn unlock_by_non_owner_is_refused() {
    let mut s = MutexState::new();
    assert!(s.apply(MutexEvent::Lock(7)));
    assert!(!s.apply(MutexEvent::Unlock(8)));
    assert!(s.is_owned_by(7));
    assert!(s.apply(MutexEvent::Unlock(7)));
    assert!(!s.apply(MutexEvent::Unlock(7)));
}

#[test]
fn force_unlock_frees_any_holder() {
    let mut s = MutexState::new();
    assert!(s.try_lock(3));
    s.force_unlock();
    assert!(!s.is_locked());
    assert!(s.apply(MutexEvent::ForceUnlock));
    assert!(s.try_lock(4));
}

#[test]
fn interleaving_of_threads_keeps_one_guard() {
    let mut s = MutexState::new();
    let mut live: i32 = 0;
    let events = [
        MutexEvent::Lock(1),
        MutexEvent::Lock(2),
        MutexEvent::Lock(3),
        MutexEvent::Unlock(2),
        MutexEvent::Unlock(1),
        MutexEvent::Lock(3),
        MutexEvent::Lock(1),
        MutexEvent::Unlock(3),
    ];
    for e in events.iter() {
        if s.apply(*e) {
            match e {
                MutexEvent::Lock(_) => live += 1,
                MutexEvent::Unlock(_) => live -= 1,
                MutexEvent::ForceUnlock => {}
            }
        }
        assert!(live == 0 || live == 1);
        assert_eq!(live == 1, s.is_locked());
    }
    assert!(!s.is_locked());
}
