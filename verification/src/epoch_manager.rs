//! The epoch manager: it decides whether a message from the network belongs
//! to the current epoch, what is owed to a peer that is in another one, and
//! how the components of a new epoch are set up.
//!
//! The manager does no input or output of its own. It takes what a message
//! shows and what its verification gave, and answers with a decision and
//! with the action, if any, that its driver is to carry out.

use vstd::prelude::*;
use crate::account_address::{is_least, strictly_ascending, AccountAddress};
use crate::config::{ConsensusConfig, ConsensusProposerType};
use crate::epoch_retrieval::EpochRetrievalRequest;
use crate::liveness::{
    choose_leader, div_ceil, leader_of, lemma_leader_is_least, lemma_leader_of_set, Backoff,
    ElectionPlan, ExponentialTimeInterval, ProposerElection,
};
use crate::network::{
    Action, FromNetworkMsg, Notice, ProposalMsg, SecurityEvent, SyncInfo, Verdict, VoteMsg,
};
use crate::validator_verifier::{ValidatorSet, ValidatorVerifier};

verus! {

/// The number of proposers in each round of a multi-proposer election.
pub const PROPOSERS_PER_ROUND: usize = 2;

/// The factor by which round timeouts grow is 3/2.
pub const TIMEOUT_GROWTH_NUMERATOR: u32 = 3;

pub const TIMEOUT_GROWTH_DENOMINATOR: u32 = 2;

/// Round timeouts grow for six rounds.
pub const TIMEOUT_MAX_EXPONENT: u32 = 6;

/// An epoch and the committee that signs its messages.
#[derive(Clone, Debug, PartialEq, Eq)]
pub struct EpochInfo {
    pub epoch: u64,
    pub verifier: ValidatorVerifier,
}

/// What persistent storage recovered, as far as an epoch starts from it.
#[derive(Clone, Debug, PartialEq, Eq)]
pub struct RecoveryData {
    pub epoch: u64,
    pub validators: ValidatorVerifier,
}

/// A message for the current epoch.
#[derive(Clone, Copy, Debug, PartialEq, Eq, Structural)]
pub enum EpochMsg {
    Proposal(ProposalMsg),
    RequestBlock,
    Vote(VoteMsg),
    Sync(SyncInfo),
}

/// How the epoch manager dealt with a message.
#[derive(Clone, Copy, Debug, PartialEq, Eq, Structural)]
pub enum EpochCheck {
    /// A message for the current epoch, to be passed on to the round
    /// processor.
    Current(EpochMsg),
    /// The message is handled or dropped here.
    NotCurrent,
    /// A verified proof leads to the ledger info of the given epoch: a new
    /// epoch is to be started from it.
    NewStart(u64),
}

/// Why a message of the current epoch was turned down.
#[derive(Clone, Copy, Debug, PartialEq, Eq, Structural)]
pub enum Rejection {
    /// The signatures of a proposal do not verify.
    InvalidSignatures,
    /// A proposal is not well formed.
    NotWellFormed,
    /// The author of a proposal is not the peer that sent it.
    AuthorMismatch,
    /// A vote does not verify.
    InvalidVote,
    /// An epoch change proof does not verify from the current epoch on.
    InvalidEpochChangeProof,
}

/// Whether a message belongs to the current epoch.
#[derive(Clone, Copy, Debug, PartialEq, Eq, Structural)]
pub enum EpochFilter {
    /// It does, and goes on to be validated.
    Current,
    /// It does not, and is not passed on; the action, if any, is owed.
    NotCurrent(Option<Action>),
}

/// The outcome of checking a message: the check itself and the one action,
/// if any, that it asks for.
#[derive(Clone, Copy, Debug, PartialEq, Eq)]
pub struct EpochDecision {
    pub check: Result<EpochCheck, Rejection>,
    pub action: Option<Action>,
}

/// The gauges that are set when an epoch starts.
#[derive(Clone, Copy, Debug, PartialEq, Eq, Structural)]
pub struct EpochCounters {
    pub epoch: u64,
    pub validators: usize,
    pub quorum_voting_power: u64,
}

/// What the round processor of an epoch is built from. Its parts are built
/// in this order: the network is told the new committee; then come the
/// block store, the safety rules, the proposal generator, the pacemaker,
/// the proposer election and the network sender.
#[derive(Debug, PartialEq, Eq)]
pub struct EventProcessorSetup {
    /// The gauges of the epoch.
    pub counters: EpochCounters,
    /// The epoch that starts.
    pub epoch: u64,
    /// The committee: the nodes that may send consensus messages.
    pub validators: ValidatorVerifier,
    /// The cap on pruned blocks in the block store.
    pub max_pruned_blocks_in_mem: u64,
    /// The author of the proposals that the node makes.
    pub author: AccountAddress,
    /// The cap on the payload of a proposed block.
    pub max_block_size: u64,
    /// How round timeouts grow.
    pub pacemaker: ExponentialTimeInterval,
    /// Who proposes.
    pub proposer_election: ProposerElection,
}

/// A new epoch: the setup of its round processor, and a notice where the
/// state computer had failed to sync.
#[derive(Debug, PartialEq, Eq)]
pub struct NewEpoch {
    pub notice: Option<Notice>,
    pub processor: EventProcessorSetup,
}

/// What is owed to a peer in `different_epoch`: the proof it lacks if it is
/// behind, a request for the proof we lack if it is ahead. For a peer of
/// our own epoch there is only a notice for the log.
pub open spec fn different_epoch_action(
    local_epoch: u64,
    different_epoch: u64,
    peer_id: AccountAddress,
) -> Action {
    if different_epoch < local_epoch {
        Action::SendEpochChange {
            span: EpochRetrievalRequest { start_epoch: different_epoch, end_epoch: local_epoch },
            peer: peer_id,
        }
    } else if different_epoch > local_epoch {
        Action::SendEpochRequest {
            request: EpochRetrievalRequest { start_epoch: local_epoch, end_epoch: different_epoch },
            peer: peer_id,
        }
    } else {
        Action::Log(Notice::SameEpoch)
    }
}

/// Whether `msg` from `peer_id` belongs to `local_epoch`.
///
/// A proposal of another epoch is dropped. A vote or a sync info of another
/// epoch is dropped and its sender helped. An epoch change proof belongs to
/// the epoch it starts from; where that cannot be read it is dropped. A
/// block request always passes. A request for epochs passes if it ends no
/// later than the local epoch.
pub open spec fn epoch_filter(
    local_epoch: u64,
    peer_id: AccountAddress,
    msg: FromNetworkMsg,
) -> EpochFilter {
    match msg {
        FromNetworkMsg::Proposal(proposal) => if proposal.epoch != local_epoch {
            EpochFilter::NotCurrent(None)
        } else {
            EpochFilter::Current
        },
        FromNetworkMsg::RequestBlock => EpochFilter::Current,
        FromNetworkMsg::Vote(vote) => if vote.epoch != local_epoch {
            EpochFilter::NotCurrent(Some(different_epoch_action(local_epoch, vote.epoch, peer_id)))
        } else {
            EpochFilter::Current
        },
        FromNetworkMsg::Sync(sync_info) => if sync_info.epoch != local_epoch {
            EpochFilter::NotCurrent(
                Some(different_epoch_action(local_epoch, sync_info.epoch, peer_id)),
            )
        } else {
            EpochFilter::Current
        },
        FromNetworkMsg::EpochChange(change) => match change.epoch {
            None => EpochFilter::NotCurrent(None),
            Some(msg_epoch) => if msg_epoch != local_epoch {
                EpochFilter::NotCurrent(
                    Some(different_epoch_action(local_epoch, msg_epoch, peer_id)),
                )
            } else {
                EpochFilter::Current
            },
        },
        FromNetworkMsg::RequestEpoch(request) => if request.end_epoch <= local_epoch {
            EpochFilter::Current
        } else {
            EpochFilter::NotCurrent(Some(Action::Log(Notice::RequestBeyondLocalEpoch)))
        },
    }
}

/// What becomes of a message of the current epoch, given the verdict on it.
pub open spec fn validation(
    local_epoch: u64,
    peer_id: AccountAddress,
    msg: FromNetworkMsg,
    verdict: Verdict,
) -> EpochDecision {
    match msg {
        FromNetworkMsg::Proposal(proposal) => if !verdict.proposal_signed() {
            EpochDecision { check: Err(Rejection::InvalidSignatures), action: None }
        } else if !verdict.proposal_well_formed() {
            EpochDecision { check: Err(Rejection::NotWellFormed), action: None }
        } else if proposal.author != Some(peer_id) {
            EpochDecision { check: Err(Rejection::AuthorMismatch), action: None }
        } else {
            EpochDecision {
                check: Ok(EpochCheck::Current(EpochMsg::Proposal(proposal))),
                action: None,
            }
        },
        FromNetworkMsg::RequestBlock => EpochDecision {
            check: Ok(EpochCheck::Current(EpochMsg::RequestBlock)),
            action: None,
        },
        FromNetworkMsg::Vote(vote) => if !verdict.vote_verified() {
            EpochDecision {
                check: Err(Rejection::InvalidVote),
                action: Some(Action::SecurityAudit(SecurityEvent::InvalidConsensusVote)),
            }
        } else {
            EpochDecision { check: Ok(EpochCheck::Current(EpochMsg::Vote(vote))), action: None }
        },
        FromNetworkMsg::Sync(sync_info) => EpochDecision {
            check: Ok(EpochCheck::Current(EpochMsg::Sync(sync_info))),
            action: None,
        },
        FromNetworkMsg::EpochChange(_) => match verdict.proof_target() {
            None => EpochDecision { check: Err(Rejection::InvalidEpochChangeProof), action: None },
            Some(target_epoch) => if local_epoch <= target_epoch {
                EpochDecision { check: Ok(EpochCheck::NewStart(target_epoch)), action: None }
            } else {
                EpochDecision { check: Ok(EpochCheck::NotCurrent), action: None }
            },
        },
        FromNetworkMsg::RequestEpoch(request) => EpochDecision {
            check: Ok(EpochCheck::NotCurrent),
            action: Some(Action::SendEpochChange { span: request, peer: peer_id }),
        },
    }
}

/// The decision on `msg` from `peer_id` in `local_epoch`, given the verdict
/// on it.
pub open spec fn epoch_decision(
    local_epoch: u64,
    peer_id: AccountAddress,
    msg: FromNetworkMsg,
    verdict: Verdict,
) -> EpochDecision {
    match epoch_filter(local_epoch, peer_id, msg) {
        EpochFilter::NotCurrent(action) => EpochDecision {
            check: Ok(EpochCheck::NotCurrent),
            action,
        },
        EpochFilter::Current => validation(local_epoch, peer_id, msg, verdict),
    }
}

/// The proposer election that `config` asks for, among `proposers`.
pub open spec fn election_plan(
    config: ConsensusConfig,
    epoch: u64,
    proposers: Seq<AccountAddress>,
) -> ElectionPlan {
    match config.proposer_type {
        ConsensusProposerType::MultipleOrderedProposers => ElectionPlan::Multi {
            epoch,
            proposers,
            num_proposers_per_round: PROPOSERS_PER_ROUND,
        },
        ConsensusProposerType::RotatingProposer => ElectionPlan::Rotating {
            proposers,
            contiguous_rounds: config.contiguous_rounds,
        },
        ConsensusProposerType::FixedProposer => ElectionPlan::Rotating {
            proposers: seq![leader_of(proposers)],
            contiguous_rounds: config.contiguous_rounds,
        },
    }
}

/// The growth of round timeouts from the base that `config` gives.
pub open spec fn pacemaker_backoff(config: ConsensusConfig) -> Backoff {
    Backoff {
        base_ms: config.pacemaker_initial_timeout_ms,
        numerator: TIMEOUT_GROWTH_NUMERATOR,
        denominator: TIMEOUT_GROWTH_DENOMINATOR,
        max_exponent: TIMEOUT_MAX_EXPONENT,
    }
}

/// What an epoch manager stands for.
pub struct EpochManagerState {
    /// The identity of the node, the same in every epoch.
    pub author: AccountAddress,
    /// The current epoch.
    pub epoch: u64,
    /// The committee of the current epoch.
    pub validators: ValidatorSet,
    pub config: ConsensusConfig,
}

/// Holds the epoch the node is in and sets up the round processor of each
/// new epoch.
#[derive(Debug)]
pub struct EpochManager {
    author: AccountAddress,
    epoch_info: EpochInfo,
    config: ConsensusConfig,
}

impl View for EpochManager {
    type V = EpochManagerState;

    closed spec fn view(&self) -> EpochManagerState {
        EpochManagerState {
            author: self.author,
            epoch: self.epoch_info.epoch,
            validators: self.epoch_info.verifier@,
            config: self.config,
        }
    }
}

impl EpochManager {
    /// The manager of the node `author`, in the epoch of `epoch_info`.
    pub fn new(
        author: AccountAddress,
        epoch_info: EpochInfo,
        config: ConsensusConfig,
    ) -> (manager: EpochManager)
        ensures
            manager@ == (EpochManagerState {
                author,
                epoch: epoch_info.epoch,
                validators: epoch_info.verifier@,
                config,
            }),
    {
        EpochManager { author, epoch_info, config }
    }

    /// The current epoch.
    pub fn epoch(&self) -> (epoch: u64)
        ensures
            epoch == self@.epoch,
    {
        self.epoch_info.epoch
    }

    /// The committee of the current epoch.
    pub fn validators(&self) -> (validators: &ValidatorVerifier)
        ensures
            validators@ == self@.validators,
    {
        &self.epoch_info.verifier
    }

    /// The options the manager was made with.
    pub fn config(&self) -> (config: ConsensusConfig)
        ensures
            config == self@.config,
    {
        self.config
    }

    /// Whether `msg` belongs to the current epoch, and what is owed to its
    /// sender if it does not.
    pub fn check_for_non_current_epoch(
        &self,
        peer_id: &AccountAddress,
        msg: &FromNetworkMsg,
    ) -> (filter: EpochFilter)
        ensures
            filter == epoch_filter(self@.epoch, *peer_id, *msg),
            // A proposal of another epoch is dropped, and nothing is owed.
            (msg matches FromNetworkMsg::Proposal(proposal) && proposal.epoch != self@.epoch)
                ==> filter == EpochFilter::NotCurrent(None),
            // A vote or a sync info of another epoch is dropped, and its
            // sender is owed one act of help.
            (msg matches FromNetworkMsg::Vote(vote) && vote.epoch != self@.epoch)
                ==> (filter matches EpochFilter::NotCurrent(Some(action)) && action.helps(*peer_id)),
            (msg matches FromNetworkMsg::Sync(sync_info) && sync_info.epoch != self@.epoch)
                ==> (filter matches EpochFilter::NotCurrent(Some(action)) && action.helps(*peer_id)),
            // A request for epochs up to ours is served, one beyond is not.
            msg matches FromNetworkMsg::RequestEpoch(request)
                ==> (filter is Current <==> request.end_epoch <= self@.epoch),
    {
        match *msg {
            FromNetworkMsg::Proposal(proposal) => {
                if proposal.epoch != self.epoch_info.epoch {
                    return EpochFilter::NotCurrent(None);
                }
                EpochFilter::Current
            },
            FromNetworkMsg::RequestBlock => EpochFilter::Current,
            FromNetworkMsg::Vote(vote_msg) => {
                let msg_epoch = vote_msg.epoch;
                if msg_epoch != self.epoch_info.epoch {
                    return EpochFilter::NotCurrent(
                        Some(self.process_different_epoch(msg_epoch, *peer_id)),
                    );
                }
                EpochFilter::Current
            },
            FromNetworkMsg::Sync(sync_info) => {
                let sync_epoch = sync_info.epoch;
                if sync_epoch == self.epoch() {
                    EpochFilter::Current
                } else {
                    EpochFilter::NotCurrent(Some(self.process_different_epoch(sync_epoch, *peer_id)))
                }
            },
            FromNetworkMsg::EpochChange(change) => {
                let msg_epoch = match change.epoch {
                    Some(epoch) => epoch,
                    None => {
                        return EpochFilter::NotCurrent(None);
                    },
                };
                if msg_epoch == self.epoch() {
                    EpochFilter::Current
                } else {
                    EpochFilter::NotCurrent(Some(self.process_different_epoch(msg_epoch, *peer_id)))
                }
            },
            FromNetworkMsg::RequestEpoch(request) => {
                if request.end_epoch <= self.epoch() {
                    EpochFilter::Current
                } else {
                    EpochFilter::NotCurrent(Some(Action::Log(Notice::RequestBeyondLocalEpoch)))
                }
            },
        }
    }

    /// Decides on `msg` from `peer_id`, given the verdict of its
    /// verification against the committee of the current epoch.
    pub fn check_epoch(
        &self,
        peer_id: &AccountAddress,
        msg: FromNetworkMsg,
        verdict: Verdict,
    ) -> (decision: EpochDecision)
        ensures
            decision == epoch_decision(self@.epoch, *peer_id, msg, verdict),
            // A proposal is passed on only if it is of the current epoch,
            // its signatures verify, it is well formed and its author is
            // the sending peer.
            decision.check matches Ok(EpochCheck::Current(EpochMsg::Proposal(proposal))) ==> ({
                &&& msg == FromNetworkMsg::Proposal(proposal)
                &&& proposal.epoch == self@.epoch
                &&& verdict.proposal_signed()
                &&& verdict.proposal_well_formed()
                &&& proposal.author == Some(*peer_id)
            }),
            // A proposal of another epoch is dropped, and nothing is owed.
            (msg matches FromNetworkMsg::Proposal(proposal) && proposal.epoch != self@.epoch)
                ==> decision == (EpochDecision { check: Ok(EpochCheck::NotCurrent), action: None }),
            // A vote is passed on only if it is of the current epoch and
            // verifies.
            decision.check matches Ok(EpochCheck::Current(EpochMsg::Vote(vote))) ==> ({
                &&& msg == FromNetworkMsg::Vote(vote)
                &&& vote.epoch == self@.epoch
                &&& verdict.vote_verified()
            }),
            // A vote that is turned down leaves one audit record.
            (msg is Vote && decision.check is Err) ==> decision.action == Some(
                Action::SecurityAudit(SecurityEvent::InvalidConsensusVote),
            ),
            // A vote or a sync info of another epoch is dropped, and its
            // sender is owed one act of help.
            (msg matches FromNetworkMsg::Vote(vote) && vote.epoch != self@.epoch) ==> ({
                &&& decision.check == Ok::<EpochCheck, Rejection>(EpochCheck::NotCurrent)
                &&& decision.action matches Some(action) && action.helps(*peer_id)
            }),
            (msg matches FromNetworkMsg::Sync(sync_info) && sync_info.epoch != self@.epoch) ==> ({
                &&& decision.check == Ok::<EpochCheck, Rejection>(EpochCheck::NotCurrent)
                &&& decision.action matches Some(action) && action.helps(*peer_id)
            }),
            // A request for epochs up to ours is served, one beyond is
            // noted and dropped.
            msg matches FromNetworkMsg::RequestEpoch(request) ==> ({
                &&& decision.check == Ok::<EpochCheck, Rejection>(EpochCheck::NotCurrent)
                &&& request.end_epoch <= self@.epoch ==> decision.action == Some(
                    Action::SendEpochChange { span: request, peer: *peer_id },
                )
                &&& request.end_epoch > self@.epoch ==> decision.action == Some(
                    Action::Log(Notice::RequestBeyondLocalEpoch),
                )
            }),
            // A new epoch starts only from a proof that verifies and leads
            // at least as far as the current epoch.
            decision.check matches Ok(EpochCheck::NewStart(target_epoch)) ==> ({
                &&& msg is EpochChange
                &&& verdict.proof_target() == Some(target_epoch)
                &&& self@.epoch <= target_epoch
            }),
    {
        match self.check_for_non_current_epoch(peer_id, &msg) {
            EpochFilter::NotCurrent(action) => {
                return EpochDecision { check: Ok(EpochCheck::NotCurrent), action };
            },
            EpochFilter::Current => {},
        }
        match msg {
            FromNetworkMsg::Proposal(proposal) => {
                let (signatures_valid, well_formed) = match verdict {
                    Verdict::Proposal { signatures_valid, well_formed } => (
                        signatures_valid,
                        well_formed,
                    ),
                    _ => (false, false),
                };
                if !signatures_valid {
                    return EpochDecision { check: Err(Rejection::InvalidSignatures), action: None };
                }
                if !well_formed {
                    return EpochDecision { check: Err(Rejection::NotWellFormed), action: None };
                }
                let from_peer = match proposal.author {
                    Some(author) => author == *peer_id,
                    None => false,
                };
                if !from_peer {
                    return EpochDecision { check: Err(Rejection::AuthorMismatch), action: None };
                }
                EpochDecision {
                    check: Ok(EpochCheck::Current(EpochMsg::Proposal(proposal))),
                    action: None,
                }
            },
            FromNetworkMsg::RequestBlock => EpochDecision {
                check: Ok(EpochCheck::Current(EpochMsg::RequestBlock)),
                action: None,
            },
            FromNetworkMsg::Vote(vote_msg) => {
                let valid = match verdict {
                    Verdict::Vote { valid } => valid,
                    _ => false,
                };
                if !valid {
                    return EpochDecision {
                        check: Err(Rejection::InvalidVote),
                        action: Some(Action::SecurityAudit(SecurityEvent::InvalidConsensusVote)),
                    };
                }
                EpochDecision {
                    check: Ok(EpochCheck::Current(EpochMsg::Vote(vote_msg))),
                    action: None,
                }
            },
            FromNetworkMsg::Sync(sync_info) => EpochDecision {
                check: Ok(EpochCheck::Current(EpochMsg::Sync(sync_info))),
                action: None,
            },
            FromNetworkMsg::EpochChange(_) => {
                let target_epoch = match verdict {
                    Verdict::EpochChange { target_epoch: Some(target_epoch) } => target_epoch,
                    _ => {
                        return EpochDecision {
                            check: Err(Rejection::InvalidEpochChangeProof),
                            action: None,
                        };
                    },
                };
                if self.epoch() <= target_epoch {
                    EpochDecision { check: Ok(EpochCheck::NewStart(target_epoch)), action: None }
                } else {
                    EpochDecision { check: Ok(EpochCheck::NotCurrent), action: None }
                }
            },
            FromNetworkMsg::RequestEpoch(request) => EpochDecision {
                check: Ok(EpochCheck::NotCurrent),
                action: Some(self.process_epoch_retrieval(request, *peer_id)),
            },
        }
    }

    /// How round timeouts grow in an epoch: from the configured base, by
    /// half with each round, for six rounds.
    pub fn create_pacemaker(&self) -> (interval: ExponentialTimeInterval)
        ensures
            interval@ == pacemaker_backoff(self@.config),
    {
        proof {
            lemma_growth_fits(self.config.pacemaker_initial_timeout_ms);
        }
        ExponentialTimeInterval::new(
            self.config.pacemaker_initial_timeout_ms,
            TIMEOUT_GROWTH_NUMERATOR,
            TIMEOUT_GROWTH_DENOMINATOR,
            TIMEOUT_MAX_EXPONENT,
        )
    }

    /// The proposer election of `epoch` among `validators`, as configured.
    /// A fixed proposer is the validator whose address sorts first, so
    /// there has to be one.
    pub fn create_proposer_election(
        &self,
        epoch: u64,
        validators: &ValidatorVerifier,
    ) -> (election: ProposerElection)
        requires
            self@.config.proposer_type is FixedProposer ==> validators@.addresses.len() > 0,
        ensures
            election@ == election_plan(self@.config, epoch, validators@.addresses),
            // The validators are taken in canonical order.
            strictly_ascending(validators@.addresses),
    {
        let proposers = validators.get_ordered_account_addresses();
        match self.config.proposer_type {
            ConsensusProposerType::MultipleOrderedProposers => ProposerElection::MultiProposer {
                epoch,
                proposers,
                num_proposers_per_round: PROPOSERS_PER_ROUND,
            },
            ConsensusProposerType::RotatingProposer => ProposerElection::RotatingProposer {
                proposers,
                contiguous_rounds: self.config.contiguous_rounds,
            },
            ConsensusProposerType::FixedProposer => {
                let proposer = choose_leader(&proposers);
                let mut only: Vec<AccountAddress> = Vec::new();
                only.push(proposer);
                assert(only@ =~= seq![proposer]);
                ProposerElection::RotatingProposer {
                    proposers: only,
                    contiguous_rounds: self.config.contiguous_rounds,
                }
            },
        }
    }

    /// Serves a peer's request for epoch change proofs: the proof for the
    /// span it asks for is to be sent to it.
    pub fn process_epoch_retrieval(
        &self,
        request: EpochRetrievalRequest,
        peer_id: AccountAddress,
    ) -> (action: Action)
        ensures
            action == (Action::SendEpochChange { span: request, peer: peer_id }),
    {
        Action::SendEpochChange { span: request, peer: peer_id }
    }

    /// What is owed to a peer that is in `different_epoch`.
    pub fn process_different_epoch(
        &self,
        different_epoch: u64,
        peer_id: AccountAddress,
    ) -> (action: Action)
        ensures
            action == different_epoch_action(self@.epoch, different_epoch, peer_id),
            different_epoch != self@.epoch ==> action.helps(peer_id),
    {
        if different_epoch < self.epoch() {
            self.process_epoch_retrieval(
                EpochRetrievalRequest { start_epoch: different_epoch, end_epoch: self.epoch() },
                peer_id,
            )
        } else if different_epoch > self.epoch() {
            Action::SendEpochRequest {
                request: EpochRetrievalRequest {
                    start_epoch: self.epoch(),
                    end_epoch: different_epoch,
                },
                peer: peer_id,
            }
        } else {
            Action::Log(Notice::SameEpoch)
        }
    }

    /// Starts the epoch that storage recovered, after the state computer
    /// was asked to sync to the target of an epoch change. Whether it
    /// `synced` or not, storage says which epoch the node is in: its epoch
    /// and committee are installed, and the round processor is set up from
    /// them.
    pub fn start_new_epoch(
        &mut self,
        synced: bool,
        initial_data: RecoveryData,
    ) -> (started: NewEpoch)
        requires
            old(self)@.config.proposer_type is FixedProposer
                ==> initial_data.validators@.addresses.len() > 0,
        ensures
            final(self)@ == (EpochManagerState {
                author: old(self)@.author,
                epoch: initial_data.epoch,
                validators: initial_data.validators@,
                config: old(self)@.config,
            }),
            // The epoch does not go back unless storage does, and it goes
            // forward where storage is ahead.
            initial_data.epoch >= old(self)@.epoch ==> final(self)@.epoch >= old(self)@.epoch,
            initial_data.epoch > old(self)@.epoch ==> final(self)@.epoch > old(self)@.epoch,
            synced ==> started.notice is None,
            !synced ==> started.notice == Some(Notice::StateSyncFailed),
            is_setup_of(started.processor, final(self)@, initial_data.validators@),
    {
        let notice = if synced {
            None
        } else {
            Some(Notice::StateSyncFailed)
        };
        let verifier = initial_data.validators.clone();
        self.epoch_info = EpochInfo { epoch: initial_data.epoch, verifier };
        let processor = self.start_epoch(initial_data);
        NewEpoch { notice, processor }
    }

    /// Sets up the round processor of the current epoch from what storage
    /// recovered.
    pub fn start_epoch(&self, initial_data: RecoveryData) -> (setup: EventProcessorSetup)
        requires
            self@.config.proposer_type is FixedProposer
                ==> initial_data.validators@.addresses.len() > 0,
        ensures
            is_setup_of(setup, self@, initial_data.validators@),
    {
        let validators = initial_data.validators;
        let epoch = self.epoch();
        let counters = EpochCounters {
            epoch,
            validators: validators.len(),
            quorum_voting_power: validators.quorum_voting_power(),
        };
        let pacemaker = self.create_pacemaker();
        let proposer_election = self.create_proposer_election(epoch, &validators);
        EventProcessorSetup {
            counters,
            epoch,
            validators,
            max_pruned_blocks_in_mem: self.config.max_pruned_blocks_in_mem,
            author: self.author,
            max_block_size: self.config.max_block_size,
            pacemaker,
            proposer_election,
        }
    }
}

/// Whether `setup` is the setup of the round processor that the manager in
/// `state` makes for the committee `validators`.
pub open spec fn is_setup_of(
    setup: EventProcessorSetup,
    state: EpochManagerState,
    validators: ValidatorSet,
) -> bool {
    &&& setup.counters == (EpochCounters {
        epoch: state.epoch,
        validators: validators.addresses.len() as usize,
        quorum_voting_power: validators.quorum_voting_power,
    })
    &&& setup.epoch == state.epoch
    &&& setup.validators@ == validators
    &&& setup.max_pruned_blocks_in_mem == state.config.max_pruned_blocks_in_mem
    &&& setup.author == state.author
    &&& setup.max_block_size == state.config.max_block_size
    &&& setup.pacemaker@ == pacemaker_backoff(state.config)
    &&& setup.proposer_election@ == election_plan(state.config, state.epoch, validators.addresses)
}

/// Growth by half for six rounds fits.
proof fn lemma_growth_fits(base_ms: u64)
    ensures
        (Backoff {
            base_ms,
            numerator: TIMEOUT_GROWTH_NUMERATOR,
            denominator: TIMEOUT_GROWTH_DENOMINATOR,
            max_exponent: TIMEOUT_MAX_EXPONENT,
        }).fits(),
{
    reveal_with_fuel(vstd::arithmetic::power::pow, 7);
}

/// A fixed proposer depends on who the validators are, not on the order in
/// which they are listed: it is the one whose address sorts first.
pub proof fn lemma_fixed_proposer_of_set(
    config: ConsensusConfig,
    epoch: u64,
    a: Seq<AccountAddress>,
    b: Seq<AccountAddress>,
)
    requires
        config.proposer_type is FixedProposer,
        a.len() > 0,
        a.to_set() == b.to_set(),
    ensures
        election_plan(config, epoch, a) == election_plan(config, epoch, b),
        election_plan(config, epoch, a) matches ElectionPlan::Rotating { proposers, .. }
            && proposers.len() == 1 && is_least(a, proposers[0]),
{
    assert(a.to_set().contains(a[0]));
    assert(b.to_set().contains(a[0]));
    lemma_leader_is_least(a);
    lemma_leader_is_least(b);
    lemma_leader_of_set(a, b, leader_of(a), leader_of(b));
}

/// The round timeouts of an epoch, written out: the base times 1, 3/2, 9/4,
/// 27/8, 81/16, 243/32 and 729/64 for the first seven rounds after progress,
/// each rounded up to whole milliseconds and cut to what 64 bits hold; every
/// later round has the timeout of the seventh.
pub proof fn lemma_pacemaker_timeouts(config: ConsensusConfig, round_index: nat)
    ensures
        pacemaker_backoff(config).round_duration_ms(round_index) == ({
            let base = config.pacemaker_initial_timeout_ms as int;
            let exact = if round_index == 0 {
                base
            } else if round_index == 1 {
                (3 * base + 1) / 2
            } else if round_index == 2 {
                (9 * base + 3) / 4
            } else if round_index == 3 {
                (27 * base + 7) / 8
            } else if round_index == 4 {
                (81 * base + 15) / 16
            } else if round_index == 5 {
                (243 * base + 31) / 32
            } else {
                (729 * base + 63) / 64
            };
            if exact > u64::MAX {
                u64::MAX as int
            } else {
                exact
            }
        }),
{
    reveal_with_fuel(vstd::arithmetic::power::pow, 7);
    let backoff = pacemaker_backoff(config);
    let base = config.pacemaker_initial_timeout_ms as int;
    let k = backoff.exponent(round_index);
    let above = vstd::arithmetic::power::pow(3, k);
    let below = vstd::arithmetic::power::pow(2, k);
    if k == 0 {
        lemma_rounded_up(base, above, below, 1, 1);
    } else if k == 1 {
        lemma_rounded_up(base, above, below, 3, 2);
    } else if k == 2 {
        lemma_rounded_up(base, above, below, 9, 4);
    } else if k == 3 {
        lemma_rounded_up(base, above, below, 27, 8);
    } else if k == 4 {
        lemma_rounded_up(base, above, below, 81, 16);
    } else if k == 5 {
        lemma_rounded_up(base, above, below, 243, 32);
    } else {
        lemma_rounded_up(base, above, below, 729, 64);
    }
}

/// Rounding up with known powers.
proof fn lemma_rounded_up(base: int, above: int, below: int, a: int, b: int)
    requires
        above == a,
        below == b,
    ensures
        div_ceil(base * above, below) == (a * base + b - 1) / b,
{
    assert(base * above == a * base) by (nonlinear_arith)
        requires
            above == a,
    ;
}

/// Once the epoch has moved on, the proof that moved it starts no further
/// epoch: sent again, with the same verdict, it is not current.
pub proof fn lemma_replayed_proof_is_not_current(
    local_epoch: u64,
    next_epoch: u64,
    peer_id: AccountAddress,
    msg: FromNetworkMsg,
    verdict: Verdict,
)
    requires
        epoch_decision(local_epoch, peer_id, msg, verdict).check is Ok,
        epoch_decision(local_epoch, peer_id, msg, verdict).check->Ok_0 is NewStart,
        next_epoch != local_epoch,
    ensures
        epoch_decision(next_epoch, peer_id, msg, verdict).check == Ok::<EpochCheck, Rejection>(
            EpochCheck::NotCurrent,
        ),
{
}

/// A proof that leads to an epoch before the current one starts no epoch,
/// whatever epoch it claims to start from.
pub proof fn lemma_stale_proof_starts_nothing(
    local_epoch: u64,
    peer_id: AccountAddress,
    msg: FromNetworkMsg,
    target_epoch: u64,
)
    requires
        msg is EpochChange,
        target_epoch < local_epoch,
    ensures
        !(epoch_decision(
            local_epoch,
            peer_id,
            msg,
            Verdict::EpochChange { target_epoch: Some(target_epoch) },
        ).check matches Ok(EpochCheck::NewStart(_))),
{
}

} // verus!
