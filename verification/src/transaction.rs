//! What a transaction has to offer to be carried in a block.
use core::fmt::Debug;
use core::hash::Hash;
use vstd::prelude::*;

verus! {

/// A value that can say how many bytes it takes up in memory.
pub trait InMemorySize {
    /// The size of the value in bytes.
    fn size(&self) -> usize;
}

/// A value that has a compact database encoding. Every type has the marker;
/// the encoding itself is supplied where a database is.
pub trait MaybeCompact {

}

impl<T> MaybeCompact for T {

}

/// A transaction: a value that can be shared between threads, copied,
/// compared, hashed and printed, and that knows its size in memory.
pub trait Transaction: Send + Sync + Unpin + Clone + Debug + Eq + PartialEq + Hash + InMemorySize {

}

impl<T> Transaction for T where
    T: Send + Sync + Unpin + Clone + Debug + Eq + PartialEq + Hash + InMemorySize,
 {
}

/// A transaction that a full node can also store.
pub trait FullTransaction: Transaction + MaybeCompact {

}

impl<T> FullTransaction for T where T: Transaction + MaybeCompact {

}

} // verus!
