use persisted_lock::guarded::{MutexCell, ReentrantCell, RwCell};
use persisted_lock::error::PersistError;
use persisted_lock::persist::Durable;
use persisted_lock::rwlock::RwEvent;

fn io_failure() -> PersistError {
    PersistError::from(std::io::Error::new(std::io::ErrorKind::PermissionDenied, "denied"))
}

#[test]
fn counter_set_under_write_guard_is_persisted() {
    let mut c = RwCell::new(Durable::init_with(0u64, Ok(())).ok().unwrap());
    assert!(c.try_acquire(RwEvent::Write));
    c.set(42);
    assert_eq!(c.get(), 42);
    c.release_write(Ok(()));
    assert_eq!(c.is_locked(), (false, false));
    assert_eq!(c.into_inner(), 42);
}

#[test]
fn second_writer_waits_for_first_release() {
    let mut c = RwCell::new(Durable::init_with(1u32, Ok(())).ok().unwrap());
    assert!(c.try_acquire(RwEvent::Write));
    assert!(!c.try_acquire(RwEvent::Write));
    assert!(!c.try_acquire(RwEvent::Read));
    c.release_write(Ok(()));
    assert!(c.try_acquire(RwEvent::Write));
    assert_eq!(c.is_locked(), (true, true));
}

#[test]
fn rw_downgrade_and_upgrade_keep_value() {
    let mut c = RwCell::new(Durable::init_with(7i64, Ok(())).ok().unwrap());
    assert!(c.try_acquire(RwEvent::Write));
    c.set(8);
    assert!(c.transition(RwEvent::DowngradeToUpgradable));
    assert_eq!(c.is_locked(), (true, false));
    assert!(c.try_acquire(RwEvent::Read));
    assert!(!c.transition(RwEvent::Upgrade));
    c.release_shared(RwEvent::ReleaseRead);
    assert!(c.transition(RwEvent::Upgrade));
    assert_eq!(c.get(), 8);
    assert!(c.transition(RwEvent::Downgrade));
    c.release_shared(RwEvent::ReleaseRead);
    assert_eq!(c.is_locked(), (false, false));
}

#[test]
fn rw_explicit_save_reports_failure() {
    let mut c = RwCell::new(Durable::init_with(3u8, Ok(())).ok().unwrap());
    assert!(c.try_acquire(RwEvent::Write));
    assert!(c.finish_save(Err(io_failure())).unwrap_err().is_io());
    assert_eq!(c.is_locked(), (false, false));
    assert!(c.try_acquire(RwEvent::Write));
    assert!(c.finish_save(Ok(())).is_ok());
}

#[test]
fn rw_mapped_release_and_force_unlock() {
    let mut c = RwCell::new(Durable::init_with(3u8, Ok(())).ok().unwrap());
    assert!(c.try_acquire(RwEvent::Write));
    c.set(4);
    c.release_mapped_write();
    assert_eq!(c.is_locked(), (false, false));
    assert!(c.try_acquire(RwEvent::Write));
    c.force_unlock_write();
    c.set_unique(5);
    assert_eq!(c.into_inner(), 5);
}

#[test]
fn mutex_cell_holder_writes_and_releases() {
    let mut c = MutexCell::new(Durable::init_with(0u64, Ok(())).ok().unwrap());
    assert!(c.try_lock(1));
    assert!(!c.try_lock(2));
    c.set(1, 42);
    assert_eq!(c.get(1), 42);
    c.release(1, Ok(()));
    assert!(!c.is_locked());
    assert!(c.try_lock(2));
    assert_eq!(c.get(2), 42);
    c.release_mapped(2);
    assert!(c.try_lock(3));
    assert!(c.finish_save(3, Ok(())).is_ok());
    assert!(!c.is_locked());
    assert!(c.try_lock(4));
    c.force_unlock();
    c.set_unique(9);
    assert_eq!(c.into_inner(), 9);
}

#[test]
fn reentrant_cell_nests_for_owner() {
    let mut c = ReentrantCell::new(Durable::init_with(5u16, Ok(())).ok().unwrap());
    assert!(c.try_lock(1));
    assert!(c.try_lock(1));
    assert!(!c.try_lock(2));
    assert!(c.is_owned_by(1));
    assert_eq!(c.get(1), 5);
    c.release(1);
    assert!(!c.try_lock(2));
    assert!(c.finish_save(1, Ok(())).is_ok());
    assert!(!c.is_owned_by(1));
    assert!(c.try_lock(2));
    c.force_unlock();
    c.set_unique(6);
    assert_eq!(c.into_inner(), 6);
}
