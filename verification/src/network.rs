//! Consensus messages as they come from the network, reduced to what the
//! epoch manager reads of them, and what it asks to be sent or recorded.

use vstd::prelude::*;
use crate::account_address::AccountAddress;
use crate::epoch_retrieval::EpochRetrievalRequest;

verus! {

/// A proposed block: the epoch it is for and who signed it as its author,
/// if anyone did.
#[derive(Clone, Copy, Debug, PartialEq, Eq, Structural)]
pub struct ProposalMsg {
    pub epoch: u64,
    pub author: Option<AccountAddress>,
}

/// A vote, with the epoch it is for.
#[derive(Clone, Copy, Debug, PartialEq, Eq, Structural)]
pub struct VoteMsg {
    pub epoch: u64,
}

/// The sender's highest known certificates, with their epoch.
#[derive(Clone, Copy, Debug, PartialEq, Eq, Structural)]
pub struct SyncInfo {
    pub epoch: u64,
}

/// A chain of signed ledger infos that leads from one epoch to a later one.
/// `epoch` is the epoch the chain starts from, `None` where it cannot be
/// read off the chain.
#[derive(Clone, Copy, Debug, PartialEq, Eq, Structural)]
pub struct ValidatorChangeProof {
    pub epoch: Option<u64>,
}

/// A decoded message from a peer.
#[derive(Clone, Copy, Debug, PartialEq, Eq, Structural)]
pub enum FromNetworkMsg {
    Proposal(ProposalMsg),
    /// A peer asks for a block by its id.
    RequestBlock,
    Vote(VoteMsg),
    Sync(SyncInfo),
    EpochChange(ValidatorChangeProof),
    RequestEpoch(EpochRetrievalRequest),
}

/// What checking a message against the verifier of the current epoch gave.
/// The checks themselves belong to the cryptographic layer; a message is
/// judged by the verdict of its own kind, and any other verdict counts as a
/// failed check.
#[derive(Clone, Copy, Debug, PartialEq, Eq, Structural)]
pub enum Verdict {
    /// Nothing was checked.
    Unchecked,
    /// A proposal: whether all its signatures verify, and whether it is
    /// well formed.
    Proposal { signatures_valid: bool, well_formed: bool },
    /// A vote: whether it verifies.
    Vote { valid: bool },
    /// An epoch change proof: the epoch of the ledger info it leads to, if
    /// the chain verifies from the current epoch on.
    EpochChange { target_epoch: Option<u64> },
}

impl Verdict {
    /// Whether the signatures of a proposal were found valid.
    pub open spec fn proposal_signed(self) -> bool {
        self matches Verdict::Proposal { signatures_valid: true, .. }
    }

    /// Whether a proposal was found well formed.
    pub open spec fn proposal_well_formed(self) -> bool {
        self matches Verdict::Proposal { well_formed: true, .. }
    }

    /// Whether a vote was found valid.
    pub open spec fn vote_verified(self) -> bool {
        self == (Verdict::Vote { valid: true })
    }

    /// The epoch that a verified epoch change proof leads to.
    pub open spec fn proof_target(self) -> Option<u64> {
        match self {
            Verdict::EpochChange { target_epoch } => target_epoch,
            _ => None,
        }
    }
}

/// A security event worth an audit record.
#[derive(Clone, Copy, Debug, PartialEq, Eq, Structural)]
pub enum SecurityEvent {
    /// A vote of the current epoch did not verify.
    InvalidConsensusVote,
}

/// Something worth a line in the log.
#[derive(Clone, Copy, Debug, PartialEq, Eq, Structural)]
pub enum Notice {
    /// Help across epochs was asked for a peer of our own epoch.
    SameEpoch,
    /// A peer asked for epoch change proofs beyond our epoch.
    RequestBeyondLocalEpoch,
    /// The state computer could not sync to the target of an epoch change.
    StateSyncFailed,
}

/// What the epoch manager asks its driver to do for it. Each is best
/// effort: a failure is logged and the message dropped.
#[derive(Clone, Copy, Debug, PartialEq, Eq, Structural)]
pub enum Action {
    /// Get the epoch change proof for `span` from the state computer and
    /// send it to `peer`.
    SendEpochChange { span: EpochRetrievalRequest, peer: AccountAddress },
    /// Send `request` to `peer`.
    SendEpochRequest { request: EpochRetrievalRequest, peer: AccountAddress },
    /// Write an audit record of the event.
    SecurityAudit(SecurityEvent),
    /// Write the notice to the log.
    Log(Notice),
}

impl Action {
    /// Whether this action sends `peer` something that helps one of the two
    /// sides to reach the other's epoch.
    pub open spec fn helps(self, peer: AccountAddress) -> bool {
        match self {
            Action::SendEpochChange { peer: to, .. } => to == peer,
            Action::SendEpochRequest { peer: to, .. } => to == peer,
            _ => false,
        }
    }
}

} // verus!
