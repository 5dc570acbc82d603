//! Each lock discipline paired with the persistence coupling: the value is
//! reached only under a hold, and the normal release of a write-capable hold
//! writes the value out before the lock is free again.
use vstd::prelude::*;
use crate::error::PersistError;
use crate::mutex::MutexState;
use crate::persist::{after_release, after_save, after_set, Durable, DurableModel, GuardKind};
use crate::remutex::{re_after, re_step, ReentrantEvent, ReentrantState};
use crate::rwlock::{rw_after, rw_locked, rw_step, rw_unlocked, RwEvent, RwModel, RwState};

verus! {

/// A value under the exclusive discipline, with its backing snapshot.
pub struct MutexCell<V> {
    lock: MutexState,
    cell: Durable<V>,
}

impl<V: Copy> MutexCell<V> {
    /// The thread that holds the lock, if any.
    pub closed spec fn owner(&self) -> Option<u64> {
        self.lock@
    }

    /// The value and its snapshot.
    pub closed spec fn data(&self) -> DurableModel<V> {
        self.cell@
    }

    /// An unlocked cell over a built wrapper.
    pub fn new(cell: Durable<V>) -> (r: MutexCell<V>)
        ensures
            r.owner() is None,
            r.data() == cell@,
    {
        MutexCell { lock: MutexState::new(), cell }
    }

    /// Whether some thread holds the lock.
    pub fn is_locked(&self) -> (r: bool)
        ensures
            r == self.owner() is Some,
    {
        self.lock.is_locked()
    }

    /// Thread `t` takes the lock if it is free; the value is untouched.
    pub fn try_lock(&mut self, t: u64) -> (r: bool)
        ensures
            r == old(self).owner() is None,
            final(self).owner() == (if r { Some(t) } else { old(self).owner() }),
            final(self).data() == old(self).data(),
    {
        self.lock.try_lock(t)
    }

    /// The value, as the holder's guard shows it.
    pub fn get(&self, t: u64) -> (r: V)
        requires
            self.owner() == Some(t),
        ensures
            r == self.data().value,
    {
        self.cell.value()
    }

    /// The holder sets the value through its guard.
    pub fn set(&mut self, t: u64, v: V)
        requires
            old(self).owner() == Some(t),
        ensures
            final(self).owner() == old(self).owner(),
            final(self).data() == after_set(old(self).data(), v),
    {
        self.cell.set(v);
    }

    /// The holder's guard is released (plainly or fairly): the value is written
    /// out while the lock is still held, whose outcome is `written`, then the
    /// lock is freed. A failed write is dropped.
    pub fn release(&mut self, t: u64, written: Result<(), PersistError>)
        requires
            old(self).owner() == Some(t),
        ensures
            final(self).owner() is None,
            final(self).data() == after_release(old(self).data(), GuardKind::Exclusive, written is Ok),
    {
        self.cell.release(GuardKind::Exclusive, written);
        self.lock.unlock(t);
    }

    /// The holder releases a projection of its guard: nothing is written.
    pub fn release_mapped(&mut self, t: u64)
        requires
            old(self).owner() == Some(t),
        ensures
            final(self).owner() is None,
            final(self).data() == old(self).data(),
    {
        self.lock.unlock(t);
    }

    /// Frees the lock without any guard's bookkeeping: nothing is written.
    pub fn force_unlock(&mut self)
        ensures
            final(self).owner() is None,
            final(self).data() == old(self).data(),
    {
        self.lock.force_unlock();
    }

    /// Sets the value through unique ownership of the cell, with no lock taken.
    pub fn set_unique(&mut self, v: V)
        ensures
            final(self).owner() == old(self).owner(),
            final(self).data() == after_set(old(self).data(), v),
    {
        self.cell.set(v);
    }

    /// An explicit save by thread `t` once it holds the lock for it: the
    /// outcome of the write is recorded and handed back, and the lock is freed.
    pub fn finish_save(&mut self, t: u64, written: Result<(), PersistError>) -> (r: Result<(), PersistError>)
        requires
            old(self).owner() == Some(t),
        ensures
            r == written,
            final(self).owner() is None,
            final(self).data() == after_save(old(self).data(), written is Ok),
    {
        let r = self.cell.save(written);
        self.lock.unlock(t);
        r
    }

    /// Gives up the cell and hands back the value.
    pub fn into_inner(self) -> (r: V)
        ensures
            r == self.data().value,
    {
        self.cell.into_inner()
    }
}

/// A value under the reentrant discipline, with its backing snapshot. Its
/// guards read only, so their release writes nothing out.
pub struct ReentrantCell<V> {
    lock: ReentrantState,
    cell: Durable<V>,
}

impl<V: Copy> ReentrantCell<V> {
    /// The lock state.
    pub closed spec fn lock_state(&self) -> crate::remutex::ReentrantModel {
        self.lock@
    }

    /// The value and its snapshot.
    pub closed spec fn data(&self) -> DurableModel<V> {
        self.cell@
    }

    /// The cell holds together.
    pub closed spec fn wf(&self) -> bool {
        self.lock.wf()
    }

    /// An unlocked cell over a built wrapper.
    pub fn new(cell: Durable<V>) -> (r: ReentrantCell<V>)
        ensures
            r.lock_state() == crate::remutex::re_unlocked(),
            r.data() == cell@,
            r.wf(),
    {
        ReentrantCell { lock: ReentrantState::new(), cell }
    }

    /// Whether thread `t` holds the lock.
    pub fn is_owned_by(&self, t: u64) -> (r: bool)
        ensures
            r == (self.lock_state().owner == Some(t)),
    {
        self.lock.is_owned_by(t)
    }

    /// Thread `t` takes the lock, or one more nested hold; the value is untouched.
    pub fn try_lock(&mut self, t: u64) -> (r: bool)
        requires
            old(self).wf(),
        ensures
            r == re_step(old(self).lock_state(), ReentrantEvent::Lock(t)) is Some,
            final(self).lock_state() == re_after(old(self).lock_state(), ReentrantEvent::Lock(t)),
            final(self).data() == old(self).data(),
            final(self).wf(),
    {
        self.lock.try_lock(t)
    }

    /// The value, as the owner's guard shows it.
    pub fn get(&self, t: u64) -> (r: V)
        requires
            self.lock_state().owner == Some(t),
        ensures
            r == self.data().value,
    {
        self.cell.value()
    }

    /// The owner releases its innermost guard: nothing is written.
    pub fn release(&mut self, t: u64)
        requires
            old(self).wf(),
            old(self).lock_state().owner == Some(t),
        ensures
            Some(final(self).lock_state()) == re_step(old(self).lock_state(), ReentrantEvent::Unlock(t)),
            final(self).data() == old(self).data(),
            final(self).wf(),
    {
        self.lock.unlock(t);
    }

    /// Frees the lock at every depth without any guard's bookkeeping.
    pub fn force_unlock(&mut self)
        ensures
            final(self).lock_state() == crate::remutex::re_unlocked(),
            final(self).data() == old(self).data(),
            final(self).wf(),
    {
        self.lock.force_unlock();
    }

    /// Sets the value through unique ownership of the cell, with no lock taken.
    pub fn set_unique(&mut self, v: V)
        requires
            old(self).wf(),
        ensures
            final(self).lock_state() == old(self).lock_state(),
            final(self).data() == after_set(old(self).data(), v),
            final(self).wf(),
    {
        self.cell.set(v);
    }

    /// An explicit save by thread `t` once it holds the lock for it (at any
    /// depth): the outcome is recorded and handed back, and that hold is given back.
    pub fn finish_save(&mut self, t: u64, written: Result<(), PersistError>) -> (r: Result<(), PersistError>)
        requires
            old(self).wf(),
            old(self).lock_state().owner == Some(t),
        ensures
            r == written,
            Some(final(self).lock_state()) == re_step(old(self).lock_state(), ReentrantEvent::Unlock(t)),
            final(self).data() == after_save(old(self).data(), written is Ok),
            final(self).wf(),
    {
        let r = self.cell.save(written);
        self.lock.unlock(t);
        r
    }

    /// Gives up the cell and hands back the value.
    pub fn into_inner(self) -> (r: V)
        ensures
            r == self.data().value,
    {
        self.cell.into_inner()
    }
}

/// A value under the shared/exclusive discipline, with its backing snapshot.
pub struct RwCell<V> {
    lock: RwState,
    cell: Durable<V>,
}

impl<V: Copy> RwCell<V> {
    /// The lock state.
    pub closed spec fn lock_state(&self) -> RwModel {
        self.lock@
    }

    /// The value and its snapshot.
    pub closed spec fn data(&self) -> DurableModel<V> {
        self.cell@
    }

    /// The cell holds together.
    pub closed spec fn wf(&self) -> bool {
        self.lock.wf()
    }

    /// An unlocked cell over a built wrapper.
    pub fn new(cell: Durable<V>) -> (r: RwCell<V>)
        ensures
            r.lock_state() == rw_unlocked(),
            r.data() == cell@,
            r.wf(),
    {
        RwCell { lock: RwState::new(), cell }
    }

    /// Whether anybody holds the lock, and whether exclusively.
    pub fn is_locked(&self) -> (r: (bool, bool))
        ensures
            r.0 == rw_locked(self.lock_state()),
            r.1 == self.lock_state().exclusive,
    {
        (self.lock.is_locked(), self.lock.is_locked_exclusive())
    }

    /// Takes a hold of the mode that `e` asks for (`Read`, `Write` or
    /// `UpgradableRead`) if it can be had now; the value is untouched.
    pub fn try_acquire(&mut self, e: RwEvent) -> (r: bool)
        requires
            old(self).wf(),
            e == RwEvent::Read || e == RwEvent::Write || e == RwEvent::UpgradableRead,
        ensures
            r == rw_step(old(self).lock_state(), e) is Some,
            final(self).lock_state() == rw_after(old(self).lock_state(), e),
            final(self).data() == old(self).data(),
            final(self).wf(),
    {
        self.lock.apply(e)
    }

    /// The value, as any holder's guard shows it.
    pub fn get(&self) -> (r: V)
        requires
            rw_locked(self.lock_state()),
        ensures
            r == self.data().value,
    {
        self.cell.value()
    }

    /// The exclusive holder sets the value through its write guard.
    pub fn set(&mut self, v: V)
        requires
            old(self).wf(),
            old(self).lock_state().exclusive,
        ensures
            final(self).lock_state() == old(self).lock_state(),
            final(self).data() == after_set(old(self).data(), v),
            final(self).wf(),
    {
        self.cell.set(v);
    }

    /// The write guard is released: the value is written out while the
    /// exclusive hold lasts, whose outcome is `written`, then the lock is
    /// freed. A failed write is dropped.
    pub fn release_write(&mut self, written: Result<(), PersistError>)
        requires
            old(self).wf(),
            old(self).lock_state().exclusive,
        ensures
            final(self).lock_state() == rw_unlocked(),
            final(self).data() == after_release(old(self).data(), GuardKind::Write, written is Ok),
            final(self).wf(),
    {
        self.cell.release(GuardKind::Write, written);
        self.lock.unlock_write();
    }

    /// A projection of the write guard is released: nothing is written.
    pub fn release_mapped_write(&mut self)
        requires
            old(self).wf(),
            old(self).lock_state().exclusive,
        ensures
            final(self).lock_state() == rw_unlocked(),
            final(self).data() == old(self).data(),
            final(self).wf(),
    {
        self.lock.unlock_write();
    }

    /// A shared or upgradable guard is released (as `e` says: `ReleaseRead` or
    /// `ReleaseUpgradable`): nothing is written.
    pub fn release_shared(&mut self, e: RwEvent)
        requires
            old(self).wf(),
            e == RwEvent::ReleaseRead || e == RwEvent::ReleaseUpgradable,
            rw_step(old(self).lock_state(), e) is Some,
        ensures
            Some(final(self).lock_state()) == rw_step(old(self).lock_state(), e),
            final(self).data() == old(self).data(),
            final(self).wf(),
    {
        self.lock.apply(e);
    }

    /// An upgrade or downgrade of the caller's guard (as `e` says), in one
    /// step; where it cannot happen now the guard stays as it was. Nothing is
    /// written: the write guard that a downgrade ends is not released.
    pub fn transition(&mut self, e: RwEvent) -> (r: bool)
        requires
            old(self).wf(),
            e == RwEvent::Upgrade || e == RwEvent::Downgrade || e == RwEvent::DowngradeToUpgradable
                || e == RwEvent::DowngradeUpgradable,
        ensures
            r == rw_step(old(self).lock_state(), e) is Some,
            final(self).lock_state() == rw_after(old(self).lock_state(), e),
            final(self).data() == old(self).data(),
            final(self).wf(),
    {
        self.lock.apply(e)
    }

    /// Frees the exclusive hold without any guard's bookkeeping: nothing is written.
    pub fn force_unlock_write(&mut self)
        requires
            old(self).wf(),
            old(self).lock_state().exclusive,
        ensures
            final(self).lock_state() == rw_unlocked(),
            final(self).data() == old(self).data(),
            final(self).wf(),
    {
        self.lock.unlock_write();
    }

    /// Sets the value through unique ownership of the cell, with no lock taken.
    pub fn set_unique(&mut self, v: V)
        requires
            old(self).wf(),
        ensures
            final(self).lock_state() == old(self).lock_state(),
            final(self).data() == after_set(old(self).data(), v),
            final(self).wf(),
    {
        self.cell.set(v);
    }

    /// An explicit save under the exclusive hold taken for it: the outcome is
    /// recorded and handed back, and the lock is freed.
    pub fn finish_save(&mut self, written: Result<(), PersistError>) -> (r: Result<(), PersistError>)
        requires
            old(self).wf(),
            old(self).lock_state().exclusive,
        ensures
            r == written,
            final(self).lock_state() == rw_unlocked(),
            final(self).data() == after_save(old(self).data(), written is Ok),
            final(self).wf(),
    {
        let r = self.cell.save(written);
        self.lock.unlock_write();
        r
    }

    /// Gives up the cell and hands back the value.
    pub fn into_inner(self) -> (r: V)
        ensures
            r == self.data().value,
    {
        self.cell.into_inner()
    }
}

} // verus!
