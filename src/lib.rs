//! A value guarded by a lock whose write critical sections are coupled to a
//! durable snapshot of the value.
//!
//! - `mutex`, `remutex`, `rwlock`: the protocol of each lock discipline
//!   (exclusive, reentrant, and shared/exclusive with an upgradable slot) as a
//!   state machine, with the exclusion laws each one keeps.
//! - `persist`: which guard releases write the value out, and what each
//!   persistence outcome does to the backing snapshot.
//! - `guarded`: each discipline paired with that coupling.
//! - `error`: why a persistence operation failed.
pub mod error;
pub mod guarded;
pub mod mutex;
pub mod persist;
pub mod remutex;
pub mod rwlock;
