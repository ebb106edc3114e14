//! Which parts of the stored history may be dropped.
use vstd::prelude::*;

verus! {

/// How far back one part of the history is kept.
#[derive(Debug, Clone, Copy, PartialEq, Eq, Structural)]
pub enum PruneMode {
    /// Nothing is kept.
    Full,
    /// The last so many blocks are kept.
    Distance(u64),
    /// Everything from this block on is kept.
    Before(u64),
}

/// The pruning rule for each part of the history; `None` keeps everything.
#[derive(Debug, Clone, Copy, PartialEq, Eq, Structural)]
pub struct PruneModes {
    /// Recovered senders of transactions.
    pub sender_recovery: Option<PruneMode>,
    /// The index from transaction hash to transaction.
    pub transaction_lookup: Option<PruneMode>,
    /// Receipts.
    pub receipts: Option<PruneMode>,
    /// The history of accounts.
    pub account_history: Option<PruneMode>,
    /// The history of storage.
    pub storage_history: Option<PruneMode>,
}

impl PruneModes {
    /// The rules under which nothing is pruned.
    pub fn none() -> (modes: Self)
        ensures
            modes == (PruneModes {
                sender_recovery: None,
                transaction_lookup: None,
                receipts: None,
                account_history: None,
                storage_history: None,
            }),
            modes.is_empty(),
    {
        PruneModes {
            sender_recovery: None,
            transaction_lookup: None,
            receipts: None,
            account_history: None,
            storage_history: None,
        }
    }

    /// Whether no part of the history is pruned.
    pub open spec fn is_empty(&self) -> bool {
        &&& self.sender_recovery is None
        &&& self.transaction_lookup is None
        &&& self.receipts is None
        &&& self.account_history is None
        &&& self.storage_history is None
    }
}

} // verus!
