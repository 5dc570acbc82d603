//! The coupling of a protected value to its backing snapshot: which guard
//! releases persist, and what each persistence outcome does to the snapshot.
use vstd::prelude::*;
use crate::error::PersistError;

verus! {

/// The kinds of guard through which the protected value is reached.
#[derive(Clone, Copy, Debug, PartialEq, Eq, Structural)]
pub enum GuardKind {
    /// The guard of the exclusive discipline.
    Exclusive,
    /// The guard of the reentrant discipline: it reads only.
    Reentrant,
    /// An ordinary shared guard of the shared/exclusive discipline.
    Read,
    /// The exclusive guard of the shared/exclusive discipline.
    Write,
    /// The upgradable shared guard of the shared/exclusive discipline.
    UpgradableRead,
    /// A projection of an exclusive guard.
    MappedExclusive,
    /// A projection of a reentrant guard.
    MappedReentrant,
    /// A projection of a shared guard.
    MappedRead,
    /// A projection of a write guard.
    MappedWrite,
}

/// Whether a guard of `kind` can change the protected value.
pub open spec fn spec_can_write(kind: GuardKind) -> bool {
    kind == GuardKind::Exclusive || kind == GuardKind::Write || kind == GuardKind::MappedExclusive
        || kind == GuardKind::MappedWrite
}

/// Whether the normal release of a guard of `kind` writes the whole value to
/// the backing location: only unprojected write-capable guards do.
pub open spec fn spec_persists_on_release(kind: GuardKind) -> bool {
    kind == GuardKind::Exclusive || kind == GuardKind::Write
}

/// Whether a guard of `kind` can change the protected value.
pub fn can_write(kind: GuardKind) -> (r: bool)
    ensures
        r == spec_can_write(kind),
{
    match kind {
        GuardKind::Exclusive | GuardKind::Write | GuardKind::MappedExclusive
        | GuardKind::MappedWrite => true,
        _ => false,
    }
}

/// Whether the normal (plain or fair) release of a guard of `kind` persists the value.
pub fn persists_on_release(kind: GuardKind) -> (r: bool)
    ensures
        r == spec_persists_on_release(kind),
{
    match kind {
        GuardKind::Exclusive | GuardKind::Write => true,
        _ => false,
    }
}

/// What an explicit save reports: `None` where the lock was not had within the
/// bound, else the outcome of the write.
pub fn save_outcome(acquired: bool, written: Result<(), PersistError>) -> (r: Option<
    Result<(), PersistError>,
>)
    ensures
        !acquired ==> r is None,
        acquired ==> r == Some(written),
{
    if acquired {
        Some(written)
    } else {
        None
    }
}

/// The protected value beside the snapshot that its backing location holds.
pub struct DurableModel<V> {
    /// The in-memory value.
    pub value: V,
    /// The value last written to the backing location.
    pub snapshot: V,
}

/// The value and the snapshot agree.
pub open spec fn in_sync<V>(m: DurableModel<V>) -> bool {
    m.value == m.snapshot
}

/// A freshly built wrapper over `v`: the backing location was just written with it.
pub open spec fn synced<V>(v: V) -> DurableModel<V> {
    DurableModel { value: v, snapshot: v }
}

/// The state after a write-capable guard (or unique ownership) sets the value to `v`.
pub open spec fn after_set<V>(m: DurableModel<V>, v: V) -> DurableModel<V> {
    DurableModel { value: v, snapshot: m.snapshot }
}

/// The state after the normal release of a guard of `kind`, where `written`
/// tells whether writing the value out succeeded (a failure is not reported).
pub open spec fn after_release<V>(m: DurableModel<V>, kind: GuardKind, written: bool) -> DurableModel<V> {
    if spec_persists_on_release(kind) && written {
        DurableModel { value: m.value, snapshot: m.value }
    } else {
        m
    }
}

/// The state after an explicit save whose write succeeded or not.
pub open spec fn after_save<V>(m: DurableModel<V>, written: bool) -> DurableModel<V> {
    if written {
        DurableModel { value: m.value, snapshot: m.value }
    } else {
        m
    }
}

/// A protected value and the snapshot of it that its backing location holds.
pub struct Durable<V> {
    value: V,
    snapshot: V,
}

impl<V> View for Durable<V> {
    type V = DurableModel<V>;

    closed spec fn view(&self) -> DurableModel<V> {
        DurableModel { value: self.value, snapshot: self.snapshot }
    }
}

impl<V: Copy> Durable<V> {
    /// Builds the wrapper over `value` once writing it to the backing location
    /// has come back as `written`; a failed write builds nothing.
    pub fn init_with(value: V, written: Result<(), PersistError>) -> (r: Result<
        Durable<V>,
        PersistError,
    >)
        ensures
            written is Ok <==> r is Ok,
            written is Err ==> r == Err::<Durable<V>, PersistError>(written->Err_0),
            r is Ok ==> r->Ok_0@ == synced(value),
    {
        match written {
            Ok(()) => Ok(Durable { value, snapshot: value }),
            Err(e) => Err(e),
        }
    }

    /// Builds the wrapper over what was decoded from the backing location, once
    /// writing it back has come back as `written`; a failed read or decode, or
    /// a failed write-back, builds nothing.
    pub fn init(decoded: Result<V, PersistError>, written: Result<(), PersistError>) -> (r: Result<
        Durable<V>,
        PersistError,
    >)
        ensures
            r is Ok <==> decoded is Ok && written is Ok,
            decoded is Err ==> r == Err::<Durable<V>, PersistError>(decoded->Err_0),
            decoded is Ok && written is Err ==> r == Err::<Durable<V>, PersistError>(
                written->Err_0,
            ),
            r is Ok ==> r->Ok_0@ == synced(decoded->Ok_0),
    {
        match decoded {
            Err(e) => Err(e),
            Ok(v) => Durable::init_with(v, written),
        }
    }

    /// The in-memory value.
    pub fn value(&self) -> (r: V)
        ensures
            r == self@.value,
    {
        self.value
    }

    /// The value last written to the backing location.
    pub fn snapshot(&self) -> (r: V)
        ensures
            r == self@.snapshot,
    {
        self.snapshot
    }

    /// Sets the value, as a write-capable guard or unique ownership does; the
    /// backing location is not touched.
    pub fn set(&mut self, v: V)
        ensures
            final(self)@ == after_set(old(self)@, v),
    {
        self.value = v;
    }

    /// The normal release of a guard of `kind`, where `written` is the outcome
    /// of writing the value out (asked for only where the kind persists).
    /// A failed write is dropped: the snapshot then stays as it was.
    pub fn release(&mut self, kind: GuardKind, written: Result<(), PersistError>)
        ensures
            final(self)@ == after_release(old(self)@, kind, written is Ok),
    {
        if persists_on_release(kind) {
            if written.is_ok() {
                self.snapshot = self.value;
            }
        }
    }

    /// An explicit save under a held lock, whose write came back as `written`;
    /// the outcome is handed back to the caller.
    pub fn save(&mut self, written: Result<(), PersistError>) -> (r: Result<(), PersistError>)
        ensures
            r == written,
            final(self)@ == after_save(old(self)@, written is Ok),
    {
        if written.is_ok() {
            self.snapshot = self.value;
        }
        written
    }

    /// Gives up the wrapper and hands back the value; the backing location
    /// keeps its last snapshot.
    pub fn into_inner(self) -> (r: V)
        ensures
            r == self@.value,
    {
        self.value
    }
}

/// Write-then-durability: a value set through a write guard is what the backing
/// location holds once the guard is released and the write succeeded; a
/// projected or read-only guard's release leaves the snapshot alone.
pub proof fn lemma_write_then_durable<V>(m: DurableModel<V>, v: V, kind: GuardKind)
    ensures
        spec_persists_on_release(kind) ==> after_release(after_set(m, v), kind, true).snapshot == v,
        spec_persists_on_release(kind) ==> in_sync(after_release(after_set(m, v), kind, true)),
        !spec_persists_on_release(kind) ==> after_release(after_set(m, v), kind, true).snapshot
            == m.snapshot,
        after_release(after_set(m, v), kind, false).snapshot == m.snapshot,
{
}

/// Round trip: a wrapper built over `v` leaves `v` as the snapshot, and a fresh
/// wrapper built from what decoding that snapshot gives holds `v` again.
pub proof fn lemma_round_trip<V>(v: V)
    ensures
        synced(v).snapshot == v,
        synced(synced(v).snapshot).value == v,
        in_sync(synced(synced(v).snapshot)),
{
}

/// Every persistence point leaves the value and the snapshot in agreement.
pub proof fn lemma_persistence_points_sync<V>(m: DurableModel<V>)
    ensures
        in_sync(after_save(m, true)),
        in_sync(after_release(m, GuardKind::Exclusive, true)),
        in_sync(after_release(m, GuardKind::Write, true)),
        in_sync(m) ==> forall|k: GuardKind, w: bool| #[trigger] after_release(m, k, w) == m,
{
}

} // verus!
