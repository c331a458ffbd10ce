//! A sequence container that presents one uniform API over interchangeable
//! storage strategies: a fixed-capacity inline block of slots, a growable
//! heap buffer, or a hybrid that starts inline and spills to the heap the
//! first time its inline capacity would be exceeded.
//!
//! The backend is chosen once, at the type level, by instantiating
//! [`svec::StorageVec`] with one of the three engines; every operation is
//! then monomorphized against that engine, with no per-call dispatch.

pub mod backend;
pub mod fixed;
pub mod heap;
pub mod hybrid;
pub mod laws;
pub mod slots;
pub mod svec;

pub use backend::{DuplicableBackend, StorageBackend};
pub use fixed::FixedEngine;
pub use heap::HeapEngine;
pub use hybrid::HybridEngine;
pub use slots::SlotBlock;
pub use svec::{FixedStorageVec, HeapStorageVec, HybridStorageVec, StorageVec, StorageVecIterator};
