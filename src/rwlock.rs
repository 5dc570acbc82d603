//! The shared/exclusive discipline as a finite-state machine: ordinary shared
//! holders, at most one upgradable holder, or one exclusive holder.
use vstd::prelude::*;

verus! {

/// The largest number of ordinary shared holders the lock state can count.
pub const MAX_READERS: u64 = 0xffff_ffff_ffff_ffff;

/// What a caller asks of a shared/exclusive lock.
#[derive(Clone, Copy, Debug, PartialEq, Eq, Structural)]
pub enum RwEvent {
    /// Take an ordinary shared hold.
    Read,
    /// Take the exclusive hold.
    Write,
    /// Take the single upgradable shared slot.
    UpgradableRead,
    /// Give back an ordinary shared hold.
    ReleaseRead,
    /// Give back the exclusive hold.
    ReleaseWrite,
    /// Give back the upgradable slot.
    ReleaseUpgradable,
    /// Turn the upgradable hold into the exclusive hold.
    Upgrade,
    /// Turn the exclusive hold into one ordinary shared hold.
    Downgrade,
    /// Turn the exclusive hold into the upgradable hold.
    DowngradeToUpgradable,
    /// Turn the upgradable hold into an ordinary shared hold.
    DowngradeUpgradable,
}

/// The abstract state of a shared/exclusive lock.
pub struct RwModel {
    /// Number of ordinary shared holders.
    pub readers: nat,
    /// Whether the upgradable slot is taken.
    pub upgradable: bool,
    /// Whether the exclusive hold is taken.
    pub exclusive: bool,
}

/// The state in which nobody holds the lock.
pub open spec fn rw_unlocked() -> RwModel {
    RwModel { readers: 0, upgradable: false, exclusive: false }
}

/// Exclusive holding excludes every shared holder, upgradable ones included.
pub open spec fn rw_inv(m: RwModel) -> bool {
    &&& m.exclusive ==> m.readers == 0 && !m.upgradable
    &&& m.readers <= MAX_READERS
}

/// Whether anybody holds the lock in any mode.
pub open spec fn rw_locked(m: RwModel) -> bool {
    m.readers > 0 || m.upgradable || m.exclusive
}

/// The state after `e`, or `None` where `e` cannot happen now: an acquisition
/// that would have to wait, or a release or transition without the hold it needs.
pub open spec fn rw_step(m: RwModel, e: RwEvent) -> Option<RwModel> {
    match e {
        RwEvent::Read => if !m.exclusive && m.readers < MAX_READERS {
            Some(RwModel { readers: m.readers + 1, ..m })
        } else {
            None
        },
        RwEvent::Write => if !m.exclusive && !m.upgradable && m.readers == 0 {
            Some(RwModel { exclusive: true, ..m })
        } else {
            None
        },
        RwEvent::UpgradableRead => if !m.exclusive && !m.upgradable {
            Some(RwModel { upgradable: true, ..m })
        } else {
            None
        },
        RwEvent::ReleaseRead => if m.readers > 0 {
            Some(RwModel { readers: (m.readers - 1) as nat, ..m })
        } else {
            None
        },
        RwEvent::ReleaseWrite => if m.exclusive {
            Some(RwModel { exclusive: false, ..m })
        } else {
            None
        },
        RwEvent::ReleaseUpgradable => if m.upgradable {
            Some(RwModel { upgradable: false, ..m })
        } else {
            None
        },
        RwEvent::Upgrade => if m.upgradable && m.readers == 0 {
            Some(RwModel { upgradable: false, exclusive: true, ..m })
        } else {
            None
        },
        RwEvent::Downgrade => if m.exclusive {
            Some(RwModel { readers: 1, exclusive: false, ..m })
        } else {
            None
        },
        RwEvent::DowngradeToUpgradable => if m.exclusive {
            Some(RwModel { upgradable: true, exclusive: false, ..m })
        } else {
            None
        },
        RwEvent::DowngradeUpgradable => if m.upgradable && m.readers < MAX_READERS {
            Some(RwModel { readers: m.readers + 1, upgradable: false, ..m })
        } else {
            None
        },
    }
}

/// The state after `e`, where a refused event leaves the state as it was.
pub open spec fn rw_after(m: RwModel, e: RwEvent) -> RwModel {
    match rw_step(m, e) {
        Some(n) => n,
        None => m,
    }
}

/// The state after the events of `es`, one after another, from `m`.
pub open spec fn rw_run(m: RwModel, es: Seq<RwEvent>) -> RwModel
    decreases es.len(),
{
    if es.len() == 0 {
        m
    } else {
        rw_after(rw_run(m, es.drop_last()), es.last())
    }
}

/// The lock state of a shared/exclusive lock.
pub struct RwState {
    readers: u64,
    upgradable: bool,
    exclusive: bool,
}

impl View for RwState {
    type V = RwModel;

    closed spec fn view(&self) -> RwModel {
        RwModel { readers: self.readers as nat, upgradable: self.upgradable, exclusive: self.exclusive }
    }
}

impl RwState {
    /// The state holds together: no exclusive holder beside shared ones.
    pub open spec fn wf(&self) -> bool {
        rw_inv(self@)
    }

    /// An unlocked state.
    pub fn new() -> (r: RwState)
        ensures
            r@ == rw_unlocked(),
            r.wf(),
    {
        RwState { readers: 0, upgradable: false, exclusive: false }
    }

    /// Number of ordinary shared holders.
    pub fn readers(&self) -> (r: u64)
        ensures
            r as nat == self@.readers,
    {
        self.readers
    }

    /// Whether the upgradable slot is taken.
    pub fn is_upgradable_held(&self) -> (r: bool)
        ensures
            r == self@.upgradable,
    {
        self.upgradable
    }

    /// Whether anybody holds the lock in any mode.
    pub fn is_locked(&self) -> (r: bool)
        ensures
            r == rw_locked(self@),
    {
        self.readers > 0 || self.upgradable || self.exclusive
    }

    /// Whether the exclusive hold is taken.
    pub fn is_locked_exclusive(&self) -> (r: bool)
        ensures
            r == self@.exclusive,
    {
        self.exclusive
    }

    /// Takes an ordinary shared hold unless an exclusive holder is present.
    pub fn try_read(&mut self) -> (r: bool)
        requires
            old(self).wf(),
        ensures
            r == rw_step(old(self)@, RwEvent::Read) is Some,
            final(self)@ == rw_after(old(self)@, RwEvent::Read),
            final(self).wf(),
    {
        if !self.exclusive && self.readers < MAX_READERS {
            self.readers = self.readers + 1;
            true
        } else {
            false
        }
    }

    /// Takes the exclusive hold when nobody holds the lock.
    pub fn try_write(&mut self) -> (r: bool)
        requires
            old(self).wf(),
        ensures
            r == rw_step(old(self)@, RwEvent::Write) is Some,
            r == !rw_locked(old(self)@),
            final(self)@ == rw_after(old(self)@, RwEvent::Write),
            final(self).wf(),
    {
        if !self.exclusive && !self.upgradable && self.readers == 0 {
            self.exclusive = true;
            true
        } else {
            false
        }
    }

    /// Takes the upgradable slot unless it or the exclusive hold is taken.
    pub fn try_upgradable_read(&mut self) -> (r: bool)
        requires
            old(self).wf(),
        ensures
            r == rw_step(old(self)@, RwEvent::UpgradableRead) is Some,
            final(self)@ == rw_after(old(self)@, RwEvent::UpgradableRead),
            final(self).wf(),
    {
        if !self.exclusive && !self.upgradable {
            self.upgradable = true;
            true
        } else {
            false
        }
    }

    /// Gives back an ordinary shared hold.
    pub fn unlock_read(&mut self)
        requires
            old(self).wf(),
            old(self)@.readers > 0,
        ensures
            Some(final(self)@) == rw_step(old(self)@, RwEvent::ReleaseRead),
            final(self).wf(),
    {
        self.readers = self.readers - 1;
    }

    /// Gives back the exclusive hold.
    pub fn unlock_write(&mut self)
        requires
            old(self).wf(),
            old(self)@.exclusive,
        ensures
            Some(final(self)@) == rw_step(old(self)@, RwEvent::ReleaseWrite),
            final(self)@ == rw_unlocked(),
            final(self).wf(),
    {
        self.exclusive = false;
    }

    /// Gives back the upgradable slot.
    pub fn unlock_upgradable(&mut self)
        requires
            old(self).wf(),
            old(self)@.upgradable,
        ensures
            Some(final(self)@) == rw_step(old(self)@, RwEvent::ReleaseUpgradable),
            final(self).wf(),
    {
        self.upgradable = false;
    }

    /// Turns the upgradable hold into the exclusive hold once no ordinary
    /// shared holder is left; otherwise the upgradable hold stays as it was.
    pub fn try_upgrade(&mut self) -> (r: bool)
        requires
            old(self).wf(),
            old(self)@.upgradable,
        ensures
            r == (old(self)@.readers == 0),
            r == rw_step(old(self)@, RwEvent::Upgrade) is Some,
            final(self)@ == rw_after(old(self)@, RwEvent::Upgrade),
            final(self).wf(),
    {
        if self.readers == 0 {
            self.upgradable = false;
            self.exclusive = true;
            true
        } else {
            false
        }
    }

    /// Turns the exclusive hold into one ordinary shared hold, in one step.
    pub fn downgrade(&mut self)
        requires
            old(self).wf(),
            old(self)@.exclusive,
        ensures
            Some(final(self)@) == rw_step(old(self)@, RwEvent::Downgrade),
            final(self)@ == (RwModel { readers: 1, upgradable: false, exclusive: false }),
            final(self).wf(),
    {
        self.exclusive = false;
        self.readers = 1;
    }

    /// Turns the exclusive hold into the upgradable hold, in one step.
    pub fn downgrade_to_upgradable(&mut self)
        requires
            old(self).wf(),
            old(self)@.exclusive,
        ensures
            Some(final(self)@) == rw_step(old(self)@, RwEvent::DowngradeToUpgradable),
            final(self)@ == (RwModel { readers: 0, upgradable: true, exclusive: false }),
            final(self).wf(),
    {
        self.exclusive = false;
        self.upgradable = true;
    }

    /// Turns the upgradable hold into an ordinary shared hold, in one step,
    /// unless the count of shared holders is full.
    pub fn downgrade_upgradable(&mut self) -> (r: bool)
        requires
            old(self).wf(),
            old(self)@.upgradable,
        ensures
            r == (old(self)@.readers < MAX_READERS),
            r == rw_step(old(self)@, RwEvent::DowngradeUpgradable) is Some,
            final(self)@ == rw_after(old(self)@, RwEvent::DowngradeUpgradable),
            final(self).wf(),
    {
        if self.readers < MAX_READERS {
            self.upgradable = false;
            self.readers = self.readers + 1;
            true
        } else {
            false
        }
    }

    /// Applies `e` where it can happen now and reports whether it did; a
    /// refused event leaves the state as it was.
    pub fn apply(&mut self, e: RwEvent) -> (r: bool)
        requires
            old(self).wf(),
        ensures
            r == rw_step(old(self)@, e) is Some,
            final(self)@ == rw_after(old(self)@, e),
            final(self).wf(),
    {
        match e {
            RwEvent::Read => self.try_read(),
            RwEvent::Write => self.try_write(),
            RwEvent::UpgradableRead => self.try_upgradable_read(),
            RwEvent::ReleaseRead => if self.readers > 0 {
                self.unlock_read();
                true
            } else {
                false
            },
            RwEvent::ReleaseWrite => if self.exclusive {
                self.unlock_write();
                true
            } else {
                false
            },
            RwEvent::ReleaseUpgradable => if self.upgradable {
                self.unlock_upgradable();
                true
            } else {
                false
            },
            RwEvent::Upgrade => if self.upgradable {
                self.try_upgrade()
            } else {
                false
            },
            RwEvent::Downgrade => if self.exclusive {
                self.downgrade();
                true
            } else {
                false
            },
            RwEvent::DowngradeToUpgradable => if self.exclusive {
                self.downgrade_to_upgradable();
                true
            } else {
                false
            },
            RwEvent::DowngradeUpgradable => if self.upgradable {
                self.downgrade_upgradable()
            } else {
                false
            },
        }
    }
}

/// Every event keeps exclusive and shared holding apart.
pub proof fn lemma_rw_step_keeps_exclusion(m: RwModel, e: RwEvent)
    requires
        rw_inv(m),
    ensures
        rw_inv(rw_after(m, e)),
{
}

/// Reader/writer exclusion: whatever the interleaving of requests by any number
/// of threads, starting unlocked, there is never an exclusive holder beside a
/// shared one, and at most one upgradable holder at a time.
pub proof fn lemma_reader_writer_exclusion(es: Seq<RwEvent>)
    ensures
        rw_inv(rw_run(rw_unlocked(), es)),
        rw_run(rw_unlocked(), es).exclusive ==> rw_run(rw_unlocked(), es).readers == 0
            && !rw_run(rw_unlocked(), es).upgradable,
    decreases es.len(),
{
    if es.len() > 0 {
        lemma_reader_writer_exclusion(es.drop_last());
        lemma_rw_step_keeps_exclusion(rw_run(rw_unlocked(), es.drop_last()), es.last());
    }
}

/// Upgrade and downgrade are atomic: each goes in one step from a held state to
/// a held state, so no third party ever sees the lock free between the two
/// holds, nor takes the exclusive hold in between.
pub proof fn lemma_transition_without_gap(m: RwModel, e: RwEvent)
    requires
        rw_inv(m),
        e == RwEvent::Upgrade || e == RwEvent::Downgrade || e == RwEvent::DowngradeToUpgradable
            || e == RwEvent::DowngradeUpgradable,
        rw_step(m, e) is Some,
    ensures
        rw_locked(m),
        rw_locked(rw_step(m, e)->0),
        rw_step(rw_step(m, e)->0, RwEvent::Write) is None,
        e == RwEvent::Upgrade ==> rw_step(rw_step(m, e)->0, RwEvent::Read) is None,
        e == RwEvent::Downgrade || e == RwEvent::DowngradeToUpgradable ==> rw_step(
            rw_step(m, e)->0,
            RwEvent::UpgradableRead,
        ) is Some == (e == RwEvent::Downgrade),
{
}

} // verus!
