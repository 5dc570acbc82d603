//! The exclusive discipline as a finite-state machine over thread identities.
use vstd::prelude::*;

verus! {

/// What a thread asks of an exclusive lock.
#[derive(Clone, Copy, Debug, PartialEq, Eq, Structural)]
pub enum MutexEvent {
    /// The thread takes the lock.
    Lock(u64),
    /// The thread gives back the lock it holds (plainly or fairly: both free it).
    Unlock(u64),
    /// The lock is freed without any guard's bookkeeping.
    ForceUnlock,
}

/// The state after `e` from `owner`, or `None` where `e` cannot happen now.
pub open spec fn mutex_step(owner: Option<u64>, e: MutexEvent) -> Option<Option<u64>> {
    match e {
        MutexEvent::Lock(t) => if owner is None {
            Some(Some(t))
        } else {
            None
        },
        MutexEvent::Unlock(t) => if owner == Some(t) {
            Some(None)
        } else {
            None
        },
        MutexEvent::ForceUnlock => Some(None),
    }
}

/// The state after `e`, where a refused event leaves the state as it was.
pub open spec fn mutex_after(owner: Option<u64>, e: MutexEvent) -> Option<u64> {
    match mutex_step(owner, e) {
        Some(n) => n,
        None => owner,
    }
}

/// The owner after the events of `es`, one after another, from `owner`.
pub open spec fn mutex_run(owner: Option<u64>, es: Seq<MutexEvent>) -> Option<u64>
    decreases es.len(),
{
    if es.len() == 0 {
        owner
    } else {
        mutex_after(mutex_run(owner, es.drop_last()), es.last())
    }
}

/// Number of guards handed out, less those given back, over `es` from `owner`.
pub open spec fn mutex_live_guards(owner: Option<u64>, es: Seq<MutexEvent>) -> int
    decreases es.len(),
{
    if es.len() == 0 {
        if owner is Some { 1 } else { 0 }
    } else {
        let before = mutex_run(owner, es.drop_last());
        let n = mutex_live_guards(owner, es.drop_last());
        match es.last() {
            MutexEvent::Lock(_) => if mutex_step(before, es.last()) is Some { n + 1 } else { n },
            MutexEvent::Unlock(_) => if mutex_step(before, es.last()) is Some { n - 1 } else { n },
            MutexEvent::ForceUnlock => n,
        }
    }
}

/// The lock state of an exclusive lock: which thread holds it, if any.
pub struct MutexState {
    owner: Option<u64>,
}

impl View for MutexState {
    type V = Option<u64>;

    closed spec fn view(&self) -> Option<u64> {
        self.owner
    }
}

impl MutexState {
    /// An unlocked state.
    pub fn new() -> (r: MutexState)
        ensures
            r@ is None,
    {
        MutexState { owner: None }
    }

    /// Whether some thread holds the lock.
    pub fn is_locked(&self) -> (r: bool)
        ensures
            r == self@ is Some,
    {
        self.owner.is_some()
    }

    /// Whether thread `t` holds the lock.
    pub fn is_owned_by(&self, t: u64) -> (r: bool)
        ensures
            r == (self@ == Some(t)),
    {
        match self.owner {
            Some(o) => o == t,
            None => false,
        }
    }

    /// Thread `t` takes the lock if it is free.
    pub fn try_lock(&mut self, t: u64) -> (r: bool)
        ensures
            r == old(self)@ is None,
            r == mutex_step(old(self)@, MutexEvent::Lock(t)) is Some,
            final(self)@ == mutex_after(old(self)@, MutexEvent::Lock(t)),
            r ==> final(self)@ == Some(t),
    {
        if self.owner.is_none() {
            self.owner = Some(t);
            true
        } else {
            false
        }
    }

    /// Thread `t` gives back the lock it holds.
    pub fn unlock(&mut self, t: u64)
        requires
            old(self)@ == Some(t),
        ensures
            Some(final(self)@) == mutex_step(old(self)@, MutexEvent::Unlock(t)),
            final(self)@ is None,
    {
        self.owner = None;
    }

    /// Frees the lock whoever holds it, without any guard's bookkeeping.
    pub fn force_unlock(&mut self)
        ensures
            Some(final(self)@) == mutex_step(old(self)@, MutexEvent::ForceUnlock),
            final(self)@ is None,
    {
        self.owner = None;
    }

    /// Applies `e` where it can happen now and reports whether it did.
    pub fn apply(&mut self, e: MutexEvent) -> (r: bool)
        ensures
            r == mutex_step(old(self)@, e) is Some,
            final(self)@ == mutex_after(old(self)@, e),
    {
        match e {
            MutexEvent::Lock(t) => self.try_lock(t),
            MutexEvent::Unlock(t) => if self.is_owned_by(t) {
                self.unlock(t);
                true
            } else {
                false
            },
            MutexEvent::ForceUnlock => {
                self.force_unlock();
                true
            },
        }
    }
}

/// Mutual exclusion: whatever the interleaving of lock and unlock requests by
/// any number of threads, starting unlocked and with no forced unlock, at most
/// one guard is live at any instant, and exactly one while the lock is held.
pub proof fn lemma_mutual_exclusion(es: Seq<MutexEvent>)
    requires
        forall|i: int| 0 <= i < es.len() ==> es[i] != MutexEvent::ForceUnlock,
    ensures
        mutex_live_guards(None, es) == (if mutex_run(None, es) is Some { 1int } else { 0int }),
        0 <= mutex_live_guards(None, es) <= 1,
    decreases es.len(),
{
    if es.len() > 0 {
        let p = es.drop_last();
        assert forall|i: int| 0 <= i < p.len() implies p[i] != MutexEvent::ForceUnlock by {
            assert(p[i] == es[i]);
        }
        lemma_mutual_exclusion(p);
        assert(es.last() == es[es.len() - 1]);
    }
}

} // verus!
