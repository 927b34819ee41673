//! The sequence adapter: resolving every slot of a sequence at once.
//!
//! [`DeferredIteratorExt`] extends a sequence of [`Deferred`] slots with two
//! bulk reads against one registry. One demands that every slot resolve and
//! yields the handles alone; the other yields one result per slot, so that a
//! failing slot affects no other element's outcome.

use crate::registry::Handle;
use crate::registry::Registry;
use crate::slot::Deferred;
use crate::slot::DeferredError;
use crate::slot::resolution;
use vstd::prelude::*;

verus! {

/// Bulk resolution over a sequence of [`Deferred`] slots.
pub trait DeferredIteratorExt<T>: View<V = Seq<Deferred>> + Sized {
    /// Resolves every slot against `reg`, yielding the handles in order. Every
    /// slot must resolve: the sequence may hold no empty slot and no slot
    /// whose target has lost its last strong owner.
    fn get_deferred(&self, reg: &Registry<T>) -> (out: Vec<Handle>)
        requires
            forall|i: int| 0 <= i < self@.len() ==> resolution(self@[i], *reg) is Ok,
        ensures
            out@.len() == self@.len(),
            forall|i: int|
                0 <= i < self@.len() ==> Ok::<Handle, DeferredError>(#[trigger] out@[i])
                    == resolution(self@[i], *reg),
    ;

    /// Resolves every slot against `reg`, yielding one result per slot, in
    /// order. No slot's failure affects any other element's outcome.
    fn try_get_deferred(&self, reg: &Registry<T>) -> (out: Vec<Result<Handle, DeferredError>>)
        ensures
            out@.len() == self@.len(),
            forall|i: int| 0 <= i < self@.len() ==> #[trigger] out@[i] == resolution(
                self@[i],
                *reg,
            ),
    ;
}

impl<T> DeferredIteratorExt<T> for Vec<Deferred> {
    fn get_deferred(&self, reg: &Registry<T>) -> (out: Vec<Handle>) {
        let mut out: Vec<Handle> = Vec::new();
        let mut i: usize = 0;
        while i < self.len()
            invariant
                i <= self@.len(),
                out@.len() == i,
                forall|k: int| 0 <= k < self@.len() ==> resolution(self@[k], *reg) is Ok,
                forall|k: int|
                    0 <= k < i ==> Ok::<Handle, DeferredError>(#[trigger] out@[k]) == resolution(
                        self@[k],
                        *reg,
                    ),
            decreases self@.len() - i,
        {
            let h = self[i].get(reg);
            out.push(h);
            i = i + 1;
        }
        out
    }

    fn try_get_deferred(&self, reg: &Registry<T>) -> (out: Vec<Result<Handle, DeferredError>>) {
        let mut out: Vec<Result<Handle, DeferredError>> = Vec::new();
        let mut i: usize = 0;
        while i < self.len()
            invariant
                i <= self@.len(),
                out@.len() == i,
                forall|k: int| 0 <= k < i ==> #[trigger] out@[k] == resolution(self@[k], *reg),
            decreases self@.len() - i,
        {
            let r = self[i].try_get(reg);
            out.push(r);
            i = i + 1;
        }
        out
    }
}

} // verus!
