//! The write-once slot and its writer.
//!
//! A [`Deferred`] slot is created empty and holds, once filled, a non-owning
//! link to one [`Registry`] entry. The slot itself offers only read
//! operations; the single permitted write goes through a [`SetOnce`] writer.
//! Once filled, a slot keeps the same link forever, even after the referenced
//! value has lost its last strong owner — reading it back then fails instead.

use crate::registry::Handle;
use crate::registry::Registry;
use vstd::prelude::*;

verus! {

/// The conditions a slot operation can fail with.
#[derive(Clone, Copy, Debug, PartialEq, Eq, Structural)]
#[non_exhaustive]
pub enum DeferredError {
    /// A write found the slot already filled.
    DuplicateInitialization(),
    /// A read found the slot empty, or filled with a link whose target has
    /// lost its last strong owner.
    NotInitializedError(),
}

/// A write-once slot holding a non-owning link into a [`Registry`].
///
/// Its view is the linked entry's index, or `None` while the slot is empty.
/// Copying a slot duplicates the fill state and the link, never the referenced
/// value.
#[derive(Clone, Copy, Debug)]
pub struct Deferred {
    link: Option<usize>,
}

impl View for Deferred {
    type V = Option<int>;

    closed spec fn view(&self) -> Option<int> {
        match self.link {
            Some(id) => Some(id as int),
            None => None,
        }
    }
}

impl Default for Deferred {
    /// An empty slot.
    fn default() -> (slot: Self)
        ensures
            slot@ is None,
    {
        Deferred { link: None }
    }
}

/// What resolving `slot` against `reg` yields: the handle of the linked entry
/// while that entry is live, and `NotInitializedError` when the slot is empty
/// or the entry is dead. No other outcome exists.
pub closed spec fn resolution<T>(slot: Deferred, reg: Registry<T>) -> Result<
    Handle,
    DeferredError,
> {
    match slot.link {
        Some(id) => if reg.live(id as int) {
            Ok(Handle { id })
        } else {
            Err(DeferredError::NotInitializedError())
        },
        None => Err(DeferredError::NotInitializedError()),
    }
}

/// What writing `value` into `slot` yields: the slot afterwards, and the
/// write's outcome. An empty slot is filled with the link; a filled slot is
/// left exactly as it was and the write fails with `DuplicateInitialization`.
pub closed spec fn assign(slot: Deferred, value: Handle) -> (Deferred, Result<
    (),
    DeferredError,
>) {
    if slot.link is Some {
        (slot, Err(DeferredError::DuplicateInitialization()))
    } else {
        (Deferred { link: Some(value.id) }, Ok(()))
    }
}

impl Deferred {
    /// Resolves the slot against `reg`: the handle of the linked entry if the
    /// slot is filled and the entry is still live, and `NotInitializedError`
    /// otherwise. An empty slot and a dead target fail alike.
    pub fn try_get<T>(&self, reg: &Registry<T>) -> (r: Result<Handle, DeferredError>)
        ensures
            r == resolution(*self, *reg),
            r matches Ok(h) ==> self@ == Some(h@) && reg.live(h@),
            r is Err <==> (self@ is None || !reg.live(self@->0)),
            r is Err ==> r == Err::<Handle, DeferredError>(DeferredError::NotInitializedError()),
    {
        match self.link {
            Some(id) => {
                if reg.is_live(id) {
                    Ok(Handle { id })
                } else {
                    Err(DeferredError::NotInitializedError())
                }
            },
            None => Err(DeferredError::NotInitializedError()),
        }
    }

    /// Resolves the slot against `reg`, for callers that know resolution
    /// cannot fail: the slot must be filled and its target still live.
    pub fn get<T>(&self, reg: &Registry<T>) -> (h: Handle)
        requires
            resolution(*self, *reg) is Ok,
        ensures
            Ok::<Handle, DeferredError>(h) == resolution(*self, *reg),
            self@ == Some(h@),
            reg.live(h@),
    {
        match self.try_get(reg) {
            Ok(h) => h,
            Err(_) => vstd::pervasive::unreached(),
        }
    }

    /// Whether the slot was ever filled. True from the moment a write
    /// succeeds, even after the linked value has lost its last strong owner
    /// and [`Deferred::try_get`] has begun to fail.
    pub fn is_ready(&self) -> (r: bool)
        ensures
            r == (self@ is Some),
    {
        self.link.is_some()
    }
}

/// The writer through which a [`Deferred`] slot receives its one write.
///
/// A writer takes the slot over, accepts at most one successful
/// [`SetOnce::try_set`], and hands the slot back through
/// [`SetOnce::into_slot`]. Reads stay on [`Deferred`] itself; this split keeps
/// write access narrow while the slot's owner builds the graph.
#[derive(Debug)]
pub struct SetOnce {
    cell: Deferred,
}

impl SetOnce {
    /// The wrapped slot.
    pub closed spec fn slot(&self) -> Deferred {
        self.cell
    }

    /// Wraps `cell`, whatever its state, taking it over until
    /// [`SetOnce::into_slot`].
    pub fn from(cell: Deferred) -> (w: SetOnce)
        ensures
            w.slot() == cell,
    {
        SetOnce { cell }
    }

    /// Writes a link to `value`'s entry into the slot. Succeeds exactly when
    /// the slot is still empty; a filled slot is left unchanged and the write
    /// fails with `DuplicateInitialization`. The link records the entry alone
    /// and adds no strong owner to it.
    pub fn try_set(&mut self, value: &Handle) -> (r: Result<(), DeferredError>)
        ensures
            final(self).slot() == assign(old(self).slot(), *value).0,
            r == assign(old(self).slot(), *value).1,
            old(self).slot()@ is None ==> r is Ok && final(self).slot()@ == Some(value@),
            old(self).slot()@ is Some ==> r == Err::<(), DeferredError>(
                DeferredError::DuplicateInitialization(),
            ) && final(self).slot() == old(self).slot(),
    {
        match self.cell.link {
            Some(_) => Err(DeferredError::DuplicateInitialization()),
            None => {
                self.cell = Deferred { link: Some(value.id) };
                Ok(())
            },
        }
    }

    /// Whether a write would currently succeed: true exactly while the slot is
    /// empty. Purely advisory — it reserves nothing.
    pub fn can_set(&self) -> (r: bool)
        ensures
            r == (self.slot()@ is None),
    {
        self.cell.link.is_none()
    }

    /// Hands the slot back, in whatever state the writer left it.
    pub fn into_slot(self) -> (slot: Deferred)
        ensures
            slot == self.slot(),
    {
        self.cell
    }
}

/// A slot accepts exactly one write: on an empty slot the first write succeeds
/// and links the slot to its value's entry, and every later write — with any
/// value, the first one included — fails with `DuplicateInitialization` and
/// changes nothing, so the slot still resolves, against any registry, to what
/// the first write made it.
pub proof fn lemma_single_assignment<T>(
    slot: Deferred,
    first: Handle,
    second: Handle,
    reg: Registry<T>,
)
    requires
        slot@ is None,
    ensures
        ({
            let (filled, outcome) = assign(slot, first);
            let (after, again) = assign(filled, second);
            &&& outcome == Ok::<(), DeferredError>(())
            &&& filled@ == Some(first@)
            &&& again == Err::<(), DeferredError>(DeferredError::DuplicateInitialization())
            &&& after == filled
            &&& resolution(after, reg) == resolution(filled, reg)
        }),
{
}

/// A fresh (never-written) slot is not ready, resolves against any registry to
/// `NotInitializedError`, and would accept any write.
pub proof fn lemma_fresh_slot<T>(slot: Deferred, reg: Registry<T>, value: Handle)
    requires
        slot@ is None,
    ensures
        resolution(slot, reg) == Err::<Handle, DeferredError>(DeferredError::NotInitializedError()),
        !(slot@ is Some),
        assign(slot, value).1 == Ok::<(), DeferredError>(()),
{
}

/// While the entry a filled slot links to still has a strong owner, the slot
/// resolves to exactly the handle that was written into it.
pub proof fn lemma_filled_slot_resolves<T>(slot: Deferred, reg: Registry<T>, id: int)
    requires
        slot@ == Some(id),
        reg.live(id),
    ensures
        resolution(slot, reg) matches Ok(h) && h@ == id,
{
}

/// Once the entry a filled slot links to has lost every strong owner, the slot
/// no longer resolves — it fails with `NotInitializedError` just as an empty
/// slot does — and yet it still reports ready.
pub proof fn lemma_released_referent<T>(slot: Deferred, reg: Registry<T>, id: int)
    requires
        slot@ == Some(id),
        reg.wf(),
        0 <= id < reg.entry_count() ==> reg.refs(id) == 0,
    ensures
        resolution(slot, reg) == Err::<Handle, DeferredError>(DeferredError::NotInitializedError()),
        slot@ is Some,
{
    crate::registry::lemma_no_owners_not_live(reg, id);
}

} // verus!
