//! The ownership arena that slot links point into.
//!
//! A [`Registry`] owns every value that slots may refer to. Each value sits in
//! a numbered entry together with a count of its strong owners; a value is
//! live while that count is positive. A [`Handle`] names an entry. Handles are
//! plain indices and never keep an entry live by themselves: liveness is
//! governed solely by the registry's owner counts, through [`Registry::retain`]
//! and [`Registry::release`].

use vstd::prelude::*;

verus! {

/// A name for one entry of a [`Registry`].
///
/// A handle is obtained from [`Registry::insert`] and stands for the strong
/// ownership recorded there; copies of a handle do not add owners. Its view is
/// the index of the entry it names.
#[derive(Clone, Copy, Debug, PartialEq, Eq, Structural)]
pub struct Handle {
    pub(crate) id: usize,
}

impl View for Handle {
    type V = int;

    open(crate) spec fn view(&self) -> int {
        self.id as int
    }
}

impl Handle {
    /// The index of the registry entry this handle names.
    pub fn index(&self) -> (i: usize)
        ensures
            i == self@,
    {
        self.id
    }
}

struct Entry<T> {
    value: Option<T>,
    strong: usize,
}

/// Owns values and counts the strong owners of each.
///
/// An entry is created with one owner by [`Registry::insert`]; owners are
/// added by [`Registry::retain`] and removed by [`Registry::release`]. When
/// the last owner of an entry is released its value is dropped and the entry
/// stays dead forever: entries are never reused.
pub struct Registry<T> {
    entries: Vec<Entry<T>>,
}

impl<T> Registry<T> {
    /// The number of entries ever created, dead ones included.
    pub closed spec fn entry_count(&self) -> nat {
        self.entries@.len()
    }

    /// Whether entry `id` exists and still has at least one strong owner.
    pub closed spec fn live(&self, id: int) -> bool {
        0 <= id < self.entries@.len() && self.entries@[id].value is Some
    }

    /// The number of strong owners of entry `id`.
    pub closed spec fn refs(&self, id: int) -> nat {
        self.entries@[id].strong as nat
    }

    /// The value held by entry `id`.
    pub closed spec fn value_at(&self, id: int) -> T {
        self.entries@[id].value->0
    }

    /// Well-formedness: an entry holds a value exactly while it has owners.
    pub closed spec fn wf(&self) -> bool {
        forall|i: int|
            0 <= i < self.entries@.len() ==> ((#[trigger] self.entries@[i]).strong > 0
                <==> self.entries@[i].value is Some)
    }

    /// An empty registry.
    pub fn new() -> (reg: Self)
        ensures
            reg.wf(),
            reg.entry_count() == 0,
    {
        Registry { entries: Vec::new() }
    }

    /// Takes ownership of `value`, creating a live entry with one strong
    /// owner, and returns the handle that names it.
    pub fn insert(&mut self, value: T) -> (h: Handle)
        requires
            old(self).wf(),
        ensures
            final(self).wf(),
            h@ == old(self).entry_count(),
            final(self).entry_count() == old(self).entry_count() + 1,
            final(self).live(h@),
            final(self).refs(h@) == 1,
            final(self).value_at(h@) == value,
            forall|j: int|
                0 <= j < old(self).entry_count() ==> #[trigger] final(self).live(j)
                    == old(self).live(j) && final(self).refs(j) == old(self).refs(j),
            forall|j: int|
                0 <= j < old(self).entry_count() && old(self).live(j)
                    ==> #[trigger] final(self).value_at(j) == old(self).value_at(j),
    {
        let id = self.entries.len();
        self.entries.push(Entry { value: Some(value), strong: 1 });
        Handle { id }
    }

    /// Whether entry `id` is live: in range and still owned.
    pub fn is_live(&self, id: usize) -> (r: bool)
        ensures
            r == self.live(id as int),
    {
        id < self.entries.len() && self.entries[id].value.is_some()
    }

    /// Reads the value of the live entry that `h` names.
    pub fn value(&self, h: &Handle) -> (r: &T)
        requires
            self.live(h@),
        ensures
            *r == self.value_at(h@),
    {
        match &self.entries[h.id].value {
            Some(v) => v,
            None => vstd::pervasive::unreached(),
        }
    }

    /// Records one more strong owner of the live entry that `h` names.
    pub fn retain(&mut self, h: &Handle)
        requires
            old(self).wf(),
            old(self).live(h@),
            old(self).refs(h@) < usize::MAX,
        ensures
            final(self).wf(),
            final(self).entry_count() == old(self).entry_count(),
            final(self).live(h@),
            final(self).refs(h@) == old(self).refs(h@) + 1,
            final(self).value_at(h@) == old(self).value_at(h@),
            forall|j: int|
                0 <= j < old(self).entry_count() && j != h@ ==> #[trigger] final(self).live(j)
                    == old(self).live(j) && final(self).refs(j) == old(self).refs(j),
            forall|j: int|
                0 <= j < old(self).entry_count() && j != h@ && old(self).live(j)
                    ==> #[trigger] final(self).value_at(j) == old(self).value_at(j),
    {
        let entry = &mut self.entries[h.id];
        entry.strong = entry.strong + 1;
    }

    /// Gives up one strong owner of the live entry that `h` names. When the
    /// last owner is released the value is dropped and the entry is dead for
    /// good.
    pub fn release(&mut self, h: &Handle)
        requires
            old(self).wf(),
            old(self).live(h@),
        ensures
            final(self).wf(),
            final(self).entry_count() == old(self).entry_count(),
            final(self).refs(h@) == old(self).refs(h@) - 1,
            final(self).live(h@) <==> old(self).refs(h@) > 1,
            final(self).live(h@) ==> final(self).value_at(h@) == old(self).value_at(h@),
            forall|j: int|
                0 <= j < old(self).entry_count() && j != h@ ==> #[trigger] final(self).live(j)
                    == old(self).live(j) && final(self).refs(j) == old(self).refs(j),
            forall|j: int|
                0 <= j < old(self).entry_count() && j != h@ && old(self).live(j)
                    ==> #[trigger] final(self).value_at(j) == old(self).value_at(j),
    {
        let entry = &mut self.entries[h.id];
        entry.strong = entry.strong - 1;
        if entry.strong == 0 {
            entry.value = None;
        }
    }
}

/// An entry without strong owners is not live: in a well-formed registry a
/// value's liveness is exactly the survival of at least one of its owners.
pub proof fn lemma_no_owners_not_live<T>(reg: Registry<T>, id: int)
    requires
        reg.wf(),
        0 <= id < reg.entry_count() ==> reg.refs(id) == 0,
    ensures
        !reg.live(id),
{
}

} // verus!
