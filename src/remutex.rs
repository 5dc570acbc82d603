//! The reentrant exclusive discipline as a finite-state machine: an owning
//! thread and the depth of its nested holds.
use vstd::prelude::*;

verus! {

/// The deepest nesting of holds the lock state can count.
pub const MAX_DEPTH: u64 = 0xffff_ffff_ffff_ffff;

/// What a thread asks of a reentrant lock.
#[derive(Clone, Copy, Debug, PartialEq, Eq, Structural)]
pub enum ReentrantEvent {
    /// The thread takes the lock, or one more nested hold of it.
    Lock(u64),
    /// The thread gives back its innermost hold.
    Unlock(u64),
    /// The lock is freed at every depth without any guard's bookkeeping.
    ForceUnlock,
}

/// The abstract state of a reentrant lock.
pub struct ReentrantModel {
    /// The thread that holds the lock, if any.
    pub owner: Option<u64>,
    /// How many nested holds the owner has.
    pub depth: nat,
}

/// The state in which nobody holds the lock.
pub open spec fn re_unlocked() -> ReentrantModel {
    ReentrantModel { owner: None, depth: 0 }
}

/// The lock has an owner exactly while the depth is positive.
pub open spec fn re_inv(m: ReentrantModel) -> bool {
    &&& (m.owner is None) == (m.depth == 0)
    &&& m.depth <= MAX_DEPTH
}

/// The state after `e`, or `None` where `e` cannot happen now.
pub open spec fn re_step(m: ReentrantModel, e: ReentrantEvent) -> Option<ReentrantModel> {
    match e {
        ReentrantEvent::Lock(t) => if m.owner is None {
            Some(ReentrantModel { owner: Some(t), depth: 1 })
        } else if m.owner == Some(t) && m.depth < MAX_DEPTH {
            Some(ReentrantModel { owner: m.owner, depth: m.depth + 1 })
        } else {
            None
        },
        ReentrantEvent::Unlock(t) => if m.owner == Some(t) && m.depth > 0 {
            if m.depth == 1 {
                Some(re_unlocked())
            } else {
                Some(ReentrantModel { owner: m.owner, depth: (m.depth - 1) as nat })
            }
        } else {
            None
        },
        ReentrantEvent::ForceUnlock => Some(re_unlocked()),
    }
}

/// The state after `e`, where a refused event leaves the state as it was.
pub open spec fn re_after(m: ReentrantModel, e: ReentrantEvent) -> ReentrantModel {
    match re_step(m, e) {
        Some(n) => n,
        None => m,
    }
}

/// The state after the events of `es`, one after another, from `m`.
pub open spec fn re_run(m: ReentrantModel, es: Seq<ReentrantEvent>) -> ReentrantModel
    decreases es.len(),
{
    if es.len() == 0 {
        m
    } else {
        re_after(re_run(m, es.drop_last()), es.last())
    }
}

/// `n` times the event `e`.
pub open spec fn repeated(e: ReentrantEvent, n: nat) -> Seq<ReentrantEvent> {
    Seq::new(n, |i: int| e)
}

/// The lock state of a reentrant lock.
pub struct ReentrantState {
    owner: Option<u64>,
    depth: u64,
}

impl View for ReentrantState {
    type V = ReentrantModel;

    closed spec fn view(&self) -> ReentrantModel {
        ReentrantModel { owner: self.owner, depth: self.depth as nat }
    }
}

impl ReentrantState {
    /// The owner and the depth agree.
    pub open spec fn wf(&self) -> bool {
        re_inv(self@)
    }

    /// An unlocked state.
    pub fn new() -> (r: ReentrantState)
        ensures
            r@ == re_unlocked(),
            r.wf(),
    {
        ReentrantState { owner: None, depth: 0 }
    }

    /// Whether some thread holds the lock.
    pub fn is_locked(&self) -> (r: bool)
        requires
            self.wf(),
        ensures
            r == (self@.depth > 0),
            r == self@.owner is Some,
    {
        self.depth > 0
    }

    /// Whether thread `t` holds the lock.
    pub fn is_owned_by(&self, t: u64) -> (r: bool)
        ensures
            r == (self@.owner == Some(t)),
    {
        match self.owner {
            Some(o) => o == t,
            None => false,
        }
    }

    /// How many nested holds the owner has.
    pub fn depth(&self) -> (r: u64)
        ensures
            r as nat == self@.depth,
    {
        self.depth
    }

    /// Thread `t` takes the lock if it is free, or one more nested hold if it
    /// already owns it; another thread's hold makes it wait.
    pub fn try_lock(&mut self, t: u64) -> (r: bool)
        requires
            old(self).wf(),
        ensures
            r == re_step(old(self)@, ReentrantEvent::Lock(t)) is Some,
            final(self)@ == re_after(old(self)@, ReentrantEvent::Lock(t)),
            final(self).wf(),
    {
        match self.owner {
            None => {
                self.owner = Some(t);
                self.depth = 1;
                true
            },
            Some(o) => if o == t && self.depth < MAX_DEPTH {
                self.depth = self.depth + 1;
                true
            } else {
                false
            },
        }
    }

    /// Thread `t` gives back its innermost hold; the lock is free once the
    /// depth reaches zero.
    pub fn unlock(&mut self, t: u64)
        requires
            old(self).wf(),
            old(self)@.owner == Some(t),
        ensures
            Some(final(self)@) == re_step(old(self)@, ReentrantEvent::Unlock(t)),
            final(self)@.depth == old(self)@.depth - 1,
            final(self).wf(),
    {
        self.depth = self.depth - 1;
        if self.depth == 0 {
            self.owner = None;
        }
    }

    /// Frees the lock at every depth, without any guard's bookkeeping.
    pub fn force_unlock(&mut self)
        ensures
            final(self)@ == re_unlocked(),
            Some(final(self)@) == re_step(old(self)@, ReentrantEvent::ForceUnlock),
            final(self).wf(),
    {
        self.owner = None;
        self.depth = 0;
    }

    /// Applies `e` where it can happen now and reports whether it did.
    pub fn apply(&mut self, e: ReentrantEvent) -> (r: bool)
        requires
            old(self).wf(),
        ensures
            r == re_step(old(self)@, e) is Some,
            final(self)@ == re_after(old(self)@, e),
            final(self).wf(),
    {
        match e {
            ReentrantEvent::Lock(t) => self.try_lock(t),
            ReentrantEvent::Unlock(t) => if self.is_owned_by(t) {
                self.unlock(t);
                true
            } else {
                false
            },
            ReentrantEvent::ForceUnlock => {
                self.force_unlock();
                true
            },
        }
    }
}

proof fn lemma_repeated_drop_last(e: ReentrantEvent, n: nat)
    requires
        n > 0,
    ensures
        repeated(e, n).drop_last() == repeated(e, (n - 1) as nat),
        repeated(e, n).last() == e,
{
    assert(repeated(e, n).drop_last() =~= repeated(e, (n - 1) as nat));
}

/// `n` nested acquisitions by one thread from the free state all succeed.
proof fn lemma_nest(t: u64, n: nat)
    requires
        n <= MAX_DEPTH,
    ensures
        re_run(re_unlocked(), repeated(ReentrantEvent::Lock(t), n)) == (ReentrantModel {
            owner: if n == 0 { None } else { Some(t) },
            depth: n,
        }),
    decreases n,
{
    if n > 0 {
        lemma_repeated_drop_last(ReentrantEvent::Lock(t), n);
        lemma_nest(t, (n - 1) as nat);
    }
}

/// `j` releases by the owner from depth `n` leave depth `n - j`.
proof fn lemma_unwind(t: u64, n: nat, j: nat)
    requires
        0 < n <= MAX_DEPTH,
        j <= n,
    ensures
        re_run(ReentrantModel { owner: Some(t), depth: n }, repeated(ReentrantEvent::Unlock(t), j))
            == (ReentrantModel { owner: if j == n { None } else { Some(t) }, depth: (n - j) as nat }),
    decreases j,
{
    if j > 0 {
        lemma_repeated_drop_last(ReentrantEvent::Unlock(t), j);
        lemma_unwind(t, n, (j - 1) as nat);
    }
}

/// Every event keeps the owner and the depth in agreement.
pub proof fn lemma_re_step_keeps_inv(m: ReentrantModel, e: ReentrantEvent)
    requires
        re_inv(m),
    ensures
        re_inv(re_after(m, e)),
{
}

/// Reentrant safety: the owning thread takes `n` nested holds without waiting,
/// and another thread is refused at every depth until the owner has given all
/// `n` back; then the other thread gets the lock.
pub proof fn lemma_reentrant_safety(t: u64, u: u64, n: nat)
    requires
        t != u,
        0 < n <= MAX_DEPTH,
    ensures
        forall|k: nat|
            k < n ==> re_step(
                re_run(re_unlocked(), #[trigger] repeated(ReentrantEvent::Lock(t), k)),
                ReentrantEvent::Lock(t),
            ) is Some,
        forall|k: nat|
            0 < k <= n ==> re_step(
                re_run(re_unlocked(), #[trigger] repeated(ReentrantEvent::Lock(t), k)),
                ReentrantEvent::Lock(u),
            ) is None,
        forall|j: nat|
            j < n ==> re_step(
                re_run(
                    re_run(re_unlocked(), repeated(ReentrantEvent::Lock(t), n)),
                    #[trigger] repeated(ReentrantEvent::Unlock(t), j),
                ),
                ReentrantEvent::Lock(u),
            ) is None,
        re_run(
            re_run(re_unlocked(), repeated(ReentrantEvent::Lock(t), n)),
            repeated(ReentrantEvent::Unlock(t), n),
        ) == re_unlocked(),
        re_step(
            re_run(
                re_run(re_unlocked(), repeated(ReentrantEvent::Lock(t), n)),
                repeated(ReentrantEvent::Unlock(t), n),
            ),
            ReentrantEvent::Lock(u),
        ) is Some,
{
    assert forall|k: nat| k < n implies re_step(
        re_run(re_unlocked(), #[trigger] repeated(ReentrantEvent::Lock(t), k)),
        ReentrantEvent::Lock(t),
    ) is Some by {
        lemma_nest(t, k);
    }
    assert forall|k: nat| 0 < k <= n implies re_step(
        re_run(re_unlocked(), #[trigger] repeated(ReentrantEvent::Lock(t), k)),
        ReentrantEvent::Lock(u),
    ) is None by {
        lemma_nest(t, k);
    }
    lemma_nest(t, n);
    assert forall|j: nat| j < n implies re_step(
        re_run(
            re_run(re_unlocked(), repeated(ReentrantEvent::Lock(t), n)),
            #[trigger] repeated(ReentrantEvent::Unlock(t), j),
        ),
        ReentrantEvent::Lock(u),
    ) is None by {
        lemma_unwind(t, n, j);
    }
    lemma_unwind(t, n, n);
}

} // verus!
