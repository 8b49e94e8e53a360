//! Existence handles: certified addresses into caller-owned storage.
//!
//! An existence handle records that a value of type `T` sits at a given
//! position of some storage, without asserting whether that position is
//! exclusively held or shared.  Two live handles may certify the same
//! position; the handle type itself never promises uniqueness.  Only the
//! access operations carry obligations, and those are stated as contracts
//! over a mathematical view of the storage.
//!
//! The storage is an ordinary vector supplied by the caller at each access;
//! the library never owns, grows or frees it.  A scalar handle ([`Exists`])
//! certifies one position; a slice handle ([`slice::SliceExists`]) certifies a
//! contiguous run of positions and supports bounds-checked indexing,
//! splitting, iteration and chunking, each producing further handles by
//! address arithmetic alone: no element is read or copied to carve out a
//! sub-handle.

mod handle;
pub mod slice;

pub use handle::Exists;
pub use slice::SliceExists;
