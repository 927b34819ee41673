//! A single-assignment slot for building cyclic object graphs.
//!
//! A [`Deferred`] slot starts empty and is filled exactly once, through a
//! [`SetOnce`] writer, with a non-owning link to a value held by a
//! [`Registry`]. Reading the slot back checks that the referenced value is
//! still owned; links never keep their target alive, so graphs with cycles do
//! not leak.

pub mod registry;
pub mod seq_ext;
pub mod slot;

pub use registry::Handle;
pub use registry::Registry;
pub use seq_ext::DeferredIteratorExt;
pub use slot::Deferred;
pub use slot::DeferredError;
pub use slot::SetOnce;
