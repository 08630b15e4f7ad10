//! What the ledger reports of a signature, and what one poll brings back.

use vstd::prelude::*;

verus! {

/// How far the ledger has taken a transaction.
#[derive(Clone, Copy, Debug, PartialEq, Eq)]
pub enum ConfirmationStatus {
    /// The ledger has no record of the signature.
    Unknown,
    /// Seen by a node, not yet committed.
    Processed,
    /// Committed by a supermajority.
    Confirmed,
    /// Rooted: it can no longer be rolled back.
    Finalized,
}

impl ConfirmationStatus {
    /// A transaction has landed once it is confirmed or finalized.
    pub open spec fn landed(self) -> bool {
        self is Confirmed || self is Finalized
    }

    /// Whether this status is terminal success.
    pub fn is_landed(&self) -> (b: bool)
        ensures
            b == self.landed(),
    {
        match self {
            ConfirmationStatus::Confirmed | ConfirmationStatus::Finalized => true,
            ConfirmationStatus::Unknown | ConfirmationStatus::Processed => false,
        }
    }
}

/// What one status query brought back: a status for each signature asked
/// about, or nothing because the query itself failed.
#[derive(Clone, Debug, PartialEq, Eq)]
pub enum PollReply {
    Statuses(Vec<ConfirmationStatus>),
    TransportError,
}

/// Some status in the list is terminal success.
pub open spec fn any_landed(statuses: Seq<ConfirmationStatus>) -> bool {
    exists|i: int| 0 <= i < statuses.len() && (#[trigger] statuses[i]).landed()
}

impl PollReply {
    /// The reply shows the transaction landed. A failed query shows nothing.
    pub open spec fn landed(self) -> bool {
        match self {
            PollReply::Statuses(statuses) => any_landed(statuses@),
            PollReply::TransportError => false,
        }
    }

    /// Whether the reply shows the transaction landed.
    pub fn is_landed(&self) -> (b: bool)
        ensures
            b == self.landed(),
    {
        match self {
            PollReply::TransportError => false,
            PollReply::Statuses(statuses) => {
                let mut i: usize = 0;
                while i < statuses.len()
                    invariant
                        i <= statuses.len(),
                        self.landed() == any_landed(statuses@),
                        forall|j: int| 0 <= j < i ==> !(#[trigger] statuses@[j]).landed(),
                    decreases statuses.len() - i,
                {
                    if statuses[i].is_landed() {
                        assert(statuses@[i as int].landed());
                        return true;
                    }
                    i = i + 1;
                }
                false
            },
        }
    }
}

} // verus!
