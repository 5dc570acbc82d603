use persisted_lock::error::PersistError;
use persisted_lock::persist::{can_write, persists_on_release, save_outcome, Durable, GuardKind};

fn io_failure() -> PersistError {
    PersistError::from(std::io::Error::new(std::io::ErrorKind::NotFound, "missing"))
}

#[test]
fn write_guard_release_persists_counter() {
    let mut d = Durable::init_with(0u64, Ok(())).ok().unwrap();
    assert_eq!(d.snapshot(), 0);
    d.set(42);
    assert_eq!(d.value(), 42);
    assert_eq!(d.snapshot(), 0);
    d.release(GuardKind::Write, Ok(()));
    assert_eq!(d.snapshot(), 42);
    assert_eq!(d.value(), 42);
}

#[test]
fn exclusive_guard_release_persists() {
    let mut d = Durable::init_with(5i32, Ok(())).ok().unwrap();
    d.set(-3);
    d.release(GuardKind::Exclusive, Ok(()));
    assert_eq!(d.snapshot(), -3);
}

#[test]
fn failed_release_write_is_dropped() {
    let mut d = Durable::init_with(1u8, Ok(())).ok().unwrap();
    d.set(2);
    d.release(GuardKind::Write, Err(io_failure()));
    assert_eq!(d.snapshot(), 1);
    assert_eq!(d.value(), 2);
}

#[test]
fn mapped_and_read_releases_do_not_persist() {
    let mut d = Durable::init_with(10u32, Ok(())).ok().unwrap();
    d.set(11);
    for k in [
        GuardKind::MappedWrite,
        GuardKind::MappedExclusive,
        GuardKind::Read,
        GuardKind::UpgradableRead,
        GuardKind::Reentrant,
        GuardKind::MappedRead,
        GuardKind::MappedReentrant,
    ] {
        d.release(k, Ok(()));
        assert_eq!(d.snapshot(), 10, "{:?}", k);
    }
}

#[test]
fn release_kinds() {
    assert!(persists_on_release(GuardKind::Write));
    assert!(persists_on_release(GuardKind::Exclusive));
    assert!(!persists_on_release(GuardKind::MappedWrite));
    assert!(!persists_on_release(GuardKind::Read));
    assert!(can_write(GuardKind::MappedWrite));
    assert!(can_write(GuardKind::Exclusive));
    assert!(!can_write(GuardKind::Reentrant));
    assert!(!can_write(GuardKind::UpgradableRead));
}

#[test]
fn init_with_then_init_round_trip() {
    let first = Durable::init_with((3u16, true), Ok(())).ok().unwrap();
    let second = Durable::init(Ok(first.snapshot()), Ok(())).ok().unwrap();
    assert_eq!(second.value(), (3u16, true));
    assert_eq!(second.snapshot(), (3u16, true));
}

#[test]
fn init_with_failed_write_builds_nothing() {
    let r = Durable::init_with(4u64, Err(io_failure()));
    assert!(r.err().unwrap().is_io());
}

#[test]
fn init_failures() {
    let bad = serde_json::from_str::<serde_json::Value>("{").unwrap_err();
    let r = Durable::<u64>::init(Err(PersistError::from(bad)), Ok(()));
    assert!(r.err().unwrap().is_serde());
    let r = Durable::<u64>::init(Ok(8), Err(io_failure()));
    assert!(r.err().unwrap().is_io());
}

#[test]
fn explicit_save_reports_and_syncs() {
    let mut d = Durable::init_with(1u64, Ok(())).ok().unwrap();
    d.set(2);
    assert!(d.save(Err(io_failure())).is_err());
    assert_eq!(d.snapshot(), 1);
    assert!(d.save(Ok(())).is_ok());
    assert_eq!(d.snapshot(), 2);
    assert_eq!(d.into_inner(), 2);
}

#[test]
fn save_outcome_without_lock_is_empty() {
    assert!(save_outcome(false, Ok(())).is_none());
    assert!(save_outcome(true, Ok(())).unwrap().is_ok());
    assert!(save_outcome(true, Err(io_failure())).unwrap().is_err());
}

#[test]
fn error_kinds() {
    let e = io_failure();
    assert!(e.is_io());
    assert!(!e.is_serde());
    let bad = serde_json::from_str::<serde_json::Value>("[1,").unwrap_err();
    let e = PersistError::from(bad);
    assert!(e.is_serde());
    assert!(!e.is_io());
}
