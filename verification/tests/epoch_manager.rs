use consensus::account_address::AccountAddress;
use consensus::config::{ConsensusConfig, ConsensusProposerType};
use consensus::epoch_manager::{
    Rejection, EpochCheck, EpochDecision, EpochFilter, EpochInfo, EpochManager, EpochMsg,
    RecoveryData,
};
use consensus::epoch_retrieval::EpochRetrievalRequest;
use consensus::liveness::ProposerElection;
use consensus::network::{
    Action, FromNetworkMsg, Notice, ProposalMsg, SecurityEvent, SyncInfo, ValidatorChangeProof,
    Verdict, VoteMsg,
};
use consensus::validator_verifier::ValidatorVerifier;

fn address(n: u128) -> AccountAddress {
    AccountAddress::new(0, n)
}

fn config(proposer_type: ConsensusProposerType) -> ConsensusConfig {
    ConsensusConfig {
        max_block_size: 100,
        proposer_type,
        contiguous_rounds: 2,
        max_pruned_blocks_in_mem: 10_000,
        pacemaker_initial_timeout_ms: 1_000,
    }
}

fn committee(members: &[u128], quorum: u64) -> ValidatorVerifier {
    let addresses: Vec<AccountAddress> = members.iter().map(|n| address(*n)).collect();
    ValidatorVerifier::new(&addresses, quorum)
}

fn manager_at(epoch: u64) -> EpochManager {
    EpochManager::new(
        address(1),
        EpochInfo { epoch, verifier: committee(&[1, 2, 3, 4], 3) },
        config(ConsensusProposerType::RotatingProposer),
    )
}

fn not_current(action: Option<Action>) -> EpochDecision {
    EpochDecision { check: Ok(EpochCheck::NotCurrent), action }
}

fn current(msg: EpochMsg) -> EpochDecision {
    EpochDecision { check: Ok(EpochCheck::Current(msg)), action: None }
}

fn rejected(error: Rejection, action: Option<Action>) -> EpochDecision {
    EpochDecision { check: Err(error), action }
}

const GOOD_PROPOSAL: Verdict = Verdict::Proposal { signatures_valid: true, well_formed: true };

#[test]
fn new_manager_reports_its_epoch_and_committee() {
    let manager = manager_at(5);
    assert_eq!(manager.epoch(), 5);
    assert_eq!(manager.validators(), &committee(&[4, 3, 2, 1], 3));
}

#[test]
fn stale_vote_is_ignored_and_sender_helped() {
    let manager = manager_at(5);
    let peer = address(9);
    let decision =
        manager.check_epoch(&peer, FromNetworkMsg::Vote(VoteMsg { epoch: 4 }), Verdict::Vote { valid: true });
    assert_eq!(
        decision,
        not_current(Some(Action::SendEpochChange {
            span: EpochRetrievalRequest { start_epoch: 4, end_epoch: 5 },
            peer,
        }))
    );
}

#[test]
fn stale_vote_is_not_audited_even_if_invalid() {
    let manager = manager_at(5);
    let peer = address(9);
    let decision =
        manager.check_epoch(&peer, FromNetworkMsg::Vote(VoteMsg { epoch: 4 }), Verdict::Vote { valid: false });
    assert_eq!(
        decision.action,
        Some(Action::SendEpochChange {
            span: EpochRetrievalRequest { start_epoch: 4, end_epoch: 5 },
            peer,
        })
    );
    assert_eq!(decision.check, Ok(EpochCheck::NotCurrent));
}

#[test]
fn future_sync_info_triggers_catch_up() {
    let manager = manager_at(5);
    let peer = address(9);
    let decision =
        manager.check_epoch(&peer, FromNetworkMsg::Sync(SyncInfo { epoch: 7 }), Verdict::Unchecked);
    assert_eq!(
        decision,
        not_current(Some(Action::SendEpochRequest {
            request: EpochRetrievalRequest { start_epoch: 5, end_epoch: 7 },
            peer,
        }))
    );
}

#[test]
fn future_vote_triggers_catch_up() {
    let manager = manager_at(5);
    let peer = address(2);
    let decision =
        manager.check_epoch(&peer, FromNetworkMsg::Vote(VoteMsg { epoch: 6 }), Verdict::Unchecked);
    assert_eq!(
        decision,
        not_current(Some(Action::SendEpochRequest {
            request: EpochRetrievalRequest { start_epoch: 5, end_epoch: 6 },
            peer,
        }))
    );
}

#[test]
fn stale_sync_info_gets_the_proof_it_lacks() {
    let manager = manager_at(5);
    let peer = address(2);
    let decision =
        manager.check_epoch(&peer, FromNetworkMsg::Sync(SyncInfo { epoch: 0 }), Verdict::Unchecked);
    assert_eq!(
        decision,
        not_current(Some(Action::SendEpochChange {
            span: EpochRetrievalRequest { start_epoch: 0, end_epoch: 5 },
            peer,
        }))
    );
}

#[test]
fn valid_epoch_change_starts_new_epoch() {
    let mut manager = manager_at(5);
    let peer = address(2);
    let change = FromNetworkMsg::EpochChange(ValidatorChangeProof { epoch: Some(5) });
    let verdict = Verdict::EpochChange { target_epoch: Some(6) };
    let decision = manager.check_epoch(&peer, change, verdict);
    assert_eq!(decision, EpochDecision { check: Ok(EpochCheck::NewStart(6)), action: None });

    let v6 = committee(&[7, 5, 6], 2);
    let started = manager.start_new_epoch(true, RecoveryData { epoch: 6, validators: v6.clone() });
    assert_eq!(started.notice, None);
    assert_eq!(manager.epoch(), 6);
    assert_eq!(manager.validators(), &v6);
    assert_eq!(started.processor.epoch, 6);
    assert_eq!(started.processor.validators, v6);
    assert_eq!(started.processor.counters.epoch, 6);
    assert_eq!(started.processor.counters.validators, 3);
    assert_eq!(started.processor.counters.quorum_voting_power, 2);
    assert_eq!(started.processor.author, address(1));
    assert_eq!(started.processor.max_block_size, 100);
    assert_eq!(started.processor.max_pruned_blocks_in_mem, 10_000);
    assert_eq!(
        started.processor.proposer_election,
        ProposerElection::RotatingProposer {
            proposers: vec![address(5), address(6), address(7)],
            contiguous_rounds: 2,
        }
    );
}

#[test]
fn sync_failure_is_noted_and_epoch_still_starts() {
    let mut manager = manager_at(5);
    let peer = address(2);
    let change = FromNetworkMsg::EpochChange(ValidatorChangeProof { epoch: Some(5) });
    let decision =
        manager.check_epoch(&peer, change, Verdict::EpochChange { target_epoch: Some(6) });
    assert_eq!(decision.check, Ok(EpochCheck::NewStart(6)));

    let v6 = committee(&[5, 6, 7], 2);
    let started = manager.start_new_epoch(false, RecoveryData { epoch: 6, validators: v6.clone() });
    assert_eq!(started.notice, Some(Notice::StateSyncFailed));
    assert_eq!(manager.epoch(), 6);
    assert_eq!(started.processor.epoch, 6);
    assert_eq!(started.processor.validators, v6);
}

#[test]
fn sync_outcome_changes_nothing_but_the_notice() {
    let mut a = manager_at(5);
    let mut b = manager_at(5);
    let data = RecoveryData { epoch: 8, validators: committee(&[5, 6, 7], 2) };
    let synced = a.start_new_epoch(true, data.clone());
    let failed = b.start_new_epoch(false, data);
    assert_eq!(synced.processor, failed.processor);
    assert_eq!(a.epoch(), b.epoch());
    assert_eq!(a.validators(), b.validators());
}

#[test]
fn proposal_author_mismatch_is_an_error() {
    let manager = manager_at(5);
    let p = address(2);
    let q = address(3);
    let proposal = FromNetworkMsg::Proposal(ProposalMsg { epoch: 5, author: Some(q) });
    assert_eq!(
        manager.check_epoch(&p, proposal, GOOD_PROPOSAL),
        rejected(Rejection::AuthorMismatch, None)
    );
}

#[test]
fn proposal_without_author_is_an_error() {
    let manager = manager_at(5);
    let proposal = FromNetworkMsg::Proposal(ProposalMsg { epoch: 5, author: None });
    assert_eq!(
        manager.check_epoch(&address(2), proposal, GOOD_PROPOSAL),
        rejected(Rejection::AuthorMismatch, None)
    );
}

#[test]
fn proposal_from_its_author_is_current() {
    let manager = manager_at(5);
    let p = address(2);
    let proposal = ProposalMsg { epoch: 5, author: Some(p) };
    assert_eq!(
        manager.check_epoch(&p, FromNetworkMsg::Proposal(proposal), GOOD_PROPOSAL),
        current(EpochMsg::Proposal(proposal))
    );
}

#[test]
fn proposal_with_bad_signatures_is_an_error() {
    let manager = manager_at(5);
    let p = address(2);
    let proposal = FromNetworkMsg::Proposal(ProposalMsg { epoch: 5, author: Some(p) });
    let verdict = Verdict::Proposal { signatures_valid: false, well_formed: true };
    assert_eq!(
        manager.check_epoch(&p, proposal, verdict),
        rejected(Rejection::InvalidSignatures, None)
    );
    // Signatures are judged before anything else.
    let verdict = Verdict::Proposal { signatures_valid: false, well_formed: false };
    assert_eq!(
        manager.check_epoch(&address(3), proposal, verdict),
        rejected(Rejection::InvalidSignatures, None)
    );
}

#[test]
fn malformed_proposal_is_an_error() {
    let manager = manager_at(5);
    let p = address(2);
    let proposal = FromNetworkMsg::Proposal(ProposalMsg { epoch: 5, author: Some(p) });
    let verdict = Verdict::Proposal { signatures_valid: true, well_formed: false };
    assert_eq!(
        manager.check_epoch(&p, proposal, verdict),
        rejected(Rejection::NotWellFormed, None)
    );
    // Well-formedness is judged before authorship.
    assert_eq!(
        manager.check_epoch(&address(3), proposal, verdict),
        rejected(Rejection::NotWellFormed, None)
    );
}

#[test]
fn proposal_with_a_verdict_of_another_kind_is_an_error() {
    let manager = manager_at(5);
    let p = address(2);
    let proposal = FromNetworkMsg::Proposal(ProposalMsg { epoch: 5, author: Some(p) });
    for verdict in [
        Verdict::Unchecked,
        Verdict::Vote { valid: true },
        Verdict::EpochChange { target_epoch: Some(9) },
    ] {
        assert_eq!(
            manager.check_epoch(&p, proposal, verdict),
            rejected(Rejection::InvalidSignatures, None)
        );
    }
}

#[test]
fn proposal_of_another_epoch_is_dropped_without_help() {
    let manager = manager_at(5);
    let p = address(2);
    for epoch in [0, 4, 6, u64::MAX] {
        let proposal = FromNetworkMsg::Proposal(ProposalMsg { epoch, author: Some(p) });
        assert_eq!(manager.check_epoch(&p, proposal, GOOD_PROPOSAL), not_current(None));
        assert_eq!(
            manager.check_for_non_current_epoch(&p, &proposal),
            EpochFilter::NotCurrent(None)
        );
    }
}

#[test]
fn valid_vote_is_current() {
    let manager = manager_at(5);
    let vote = VoteMsg { epoch: 5 };
    assert_eq!(
        manager.check_epoch(&address(2), FromNetworkMsg::Vote(vote), Verdict::Vote { valid: true }),
        current(EpochMsg::Vote(vote))
    );
}

#[test]
fn invalid_vote_is_an_error_with_one_audit_record() {
    let manager = manager_at(5);
    let vote = FromNetworkMsg::Vote(VoteMsg { epoch: 5 });
    let audit = Some(Action::SecurityAudit(SecurityEvent::InvalidConsensusVote));
    assert_eq!(
        manager.check_epoch(&address(2), vote, Verdict::Vote { valid: false }),
        rejected(Rejection::InvalidVote, audit)
    );
    assert_eq!(
        manager.check_epoch(&address(2), vote, Verdict::Unchecked),
        rejected(Rejection::InvalidVote, audit)
    );
    assert_eq!(
        manager.check_epoch(&address(2), vote, GOOD_PROPOSAL),
        rejected(Rejection::InvalidVote, audit)
    );
}

#[test]
fn sync_info_of_the_epoch_is_current_unverified() {
    let manager = manager_at(5);
    let sync = SyncInfo { epoch: 5 };
    assert_eq!(
        manager.check_epoch(&address(2), FromNetworkMsg::Sync(sync), Verdict::Unchecked),
        current(EpochMsg::Sync(sync))
    );
}

#[test]
fn block_request_is_always_current() {
    for epoch in [0, 5, u64::MAX] {
        let manager = manager_at(epoch);
        assert_eq!(
            manager.check_epoch(&address(2), FromNetworkMsg::RequestBlock, Verdict::Unchecked),
            current(EpochMsg::RequestBlock)
        );
        assert_eq!(
            manager.check_for_non_current_epoch(&address(2), &FromNetworkMsg::RequestBlock),
            EpochFilter::Current
        );
    }
}

#[test]
fn epoch_change_without_readable_epoch_is_dropped() {
    let manager = manager_at(5);
    let change = FromNetworkMsg::EpochChange(ValidatorChangeProof { epoch: None });
    assert_eq!(
        manager.check_epoch(&address(2), change, Verdict::EpochChange { target_epoch: Some(6) }),
        not_current(None)
    );
}

#[test]
fn epoch_change_of_another_epoch_helps_the_sender() {
    let manager = manager_at(5);
    let peer = address(2);
    let verdict = Verdict::EpochChange { target_epoch: Some(9) };
    let behind = FromNetworkMsg::EpochChange(ValidatorChangeProof { epoch: Some(3) });
    assert_eq!(
        manager.check_epoch(&peer, behind, verdict),
        not_current(Some(Action::SendEpochChange {
            span: EpochRetrievalRequest { start_epoch: 3, end_epoch: 5 },
            peer,
        }))
    );
    let ahead = FromNetworkMsg::EpochChange(ValidatorChangeProof { epoch: Some(8) });
    assert_eq!(
        manager.check_epoch(&peer, ahead, verdict),
        not_current(Some(Action::SendEpochRequest {
            request: EpochRetrievalRequest { start_epoch: 5, end_epoch: 8 },
            peer,
        }))
    );
}

#[test]
fn epoch_change_that_does_not_verify_is_an_error() {
    let manager = manager_at(5);
    let change = FromNetworkMsg::EpochChange(ValidatorChangeProof { epoch: Some(5) });
    assert_eq!(
        manager.check_epoch(&address(2), change, Verdict::EpochChange { target_epoch: None }),
        rejected(Rejection::InvalidEpochChangeProof, None)
    );
    assert_eq!(
        manager.check_epoch(&address(2), change, Verdict::Unchecked),
        rejected(Rejection::InvalidEpochChangeProof, None)
    );
}

#[test]
fn epoch_change_to_the_current_epoch_starts_anew() {
    let manager = manager_at(5);
    let change = FromNetworkMsg::EpochChange(ValidatorChangeProof { epoch: Some(5) });
    assert_eq!(
        manager.check_epoch(&address(2), change, Verdict::EpochChange { target_epoch: Some(5) }).check,
        Ok(EpochCheck::NewStart(5))
    );
}

#[test]
fn epoch_change_to_an_earlier_epoch_is_not_current() {
    let manager = manager_at(5);
    let change = FromNetworkMsg::EpochChange(ValidatorChangeProof { epoch: Some(5) });
    assert_eq!(
        manager.check_epoch(&address(2), change, Verdict::EpochChange { target_epoch: Some(4) }),
        not_current(None)
    );
}

#[test]
fn replayed_epoch_change_starts_no_second_epoch() {
    let mut manager = manager_at(5);
    let peer = address(2);
    let change = FromNetworkMsg::EpochChange(ValidatorChangeProof { epoch: Some(5) });
    let verdict = Verdict::EpochChange { target_epoch: Some(5) };
    assert_eq!(manager.check_epoch(&peer, change, verdict).check, Ok(EpochCheck::NewStart(5)));
    manager.start_new_epoch(true, RecoveryData { epoch: 6, validators: committee(&[5, 6], 2) });
    let again = manager.check_epoch(&peer, change, verdict);
    assert_eq!(again.check, Ok(EpochCheck::NotCurrent));
    assert_eq!(
        again.action,
        Some(Action::SendEpochChange {
            span: EpochRetrievalRequest { start_epoch: 5, end_epoch: 6 },
            peer,
        })
    );
}

#[test]
fn epoch_request_up_to_local_epoch_is_served() {
    let manager = manager_at(5);
    let peer = address(2);
    for (start_epoch, end_epoch) in [(2, 5), (0, 3), (5, 5), (7, 4)] {
        let request = EpochRetrievalRequest { start_epoch, end_epoch };
        assert_eq!(
            manager.check_epoch(&peer, FromNetworkMsg::RequestEpoch(request), Verdict::Unchecked),
            not_current(Some(Action::SendEpochChange { span: request, peer }))
        );
        assert_eq!(
            manager.check_for_non_current_epoch(&peer, &FromNetworkMsg::RequestEpoch(request)),
            EpochFilter::Current
        );
    }
}

#[test]
fn epoch_request_beyond_local_epoch_is_noted_and_dropped() {
    let manager = manager_at(5);
    let peer = address(2);
    for end_epoch in [6, 100, u64::MAX] {
        let request = EpochRetrievalRequest { start_epoch: 2, end_epoch };
        assert_eq!(
            manager.check_epoch(&peer, FromNetworkMsg::RequestEpoch(request), Verdict::Unchecked),
            not_current(Some(Action::Log(Notice::RequestBeyondLocalEpoch)))
        );
    }
}

#[test]
fn filter_passes_messages_of_the_epoch() {
    let manager = manager_at(5);
    let peer = address(2);
    let msgs = [
        FromNetworkMsg::Proposal(ProposalMsg { epoch: 5, author: None }),
        FromNetworkMsg::Vote(VoteMsg { epoch: 5 }),
        FromNetworkMsg::Sync(SyncInfo { epoch: 5 }),
        FromNetworkMsg::EpochChange(ValidatorChangeProof { epoch: Some(5) }),
    ];
    for msg in msgs {
        assert_eq!(manager.check_for_non_current_epoch(&peer, &msg), EpochFilter::Current);
    }
}

#[test]
fn filter_helps_senders_of_other_epochs() {
    let manager = manager_at(5);
    let peer = address(2);
    let help = Some(Action::SendEpochRequest {
        request: EpochRetrievalRequest { start_epoch: 5, end_epoch: 6 },
        peer,
    });
    let msgs = [
        FromNetworkMsg::Vote(VoteMsg { epoch: 6 }),
        FromNetworkMsg::Sync(SyncInfo { epoch: 6 }),
        FromNetworkMsg::EpochChange(ValidatorChangeProof { epoch: Some(6) }),
    ];
    for msg in msgs {
        assert_eq!(manager.check_for_non_current_epoch(&peer, &msg), EpochFilter::NotCurrent(help));
    }
}

#[test]
fn different_epoch_help_goes_both_ways() {
    let manager = manager_at(5);
    let peer = address(2);
    assert_eq!(
        manager.process_different_epoch(4, peer),
        Action::SendEpochChange { span: EpochRetrievalRequest { start_epoch: 4, end_epoch: 5 }, peer }
    );
    assert_eq!(
        manager.process_different_epoch(7, peer),
        Action::SendEpochRequest {
            request: EpochRetrievalRequest { start_epoch: 5, end_epoch: 7 },
            peer,
        }
    );
    assert_eq!(manager.process_different_epoch(5, peer), Action::Log(Notice::SameEpoch));
}

#[test]
fn epoch_retrieval_sends_the_span_asked_for() {
    let manager = manager_at(5);
    let peer = address(2);
    let request = EpochRetrievalRequest { start_epoch: 1, end_epoch: 3 };
    assert_eq!(
        manager.process_epoch_retrieval(request, peer),
        Action::SendEpochChange { span: request, peer }
    );
}

#[test]
fn started_epoch_is_what_storage_recovered() {
    let mut manager = manager_at(5);
    manager.start_new_epoch(true, RecoveryData { epoch: 9, validators: committee(&[1], 1) });
    assert_eq!(manager.epoch(), 9);
    manager.start_new_epoch(true, RecoveryData { epoch: 9, validators: committee(&[1], 1) });
    assert_eq!(manager.epoch(), 9);
    manager.start_new_epoch(true, RecoveryData { epoch: 12, validators: committee(&[1], 1) });
    assert_eq!(manager.epoch(), 12);
}

#[test]
fn start_epoch_keeps_the_epoch_of_the_manager() {
    let manager = manager_at(5);
    let v = committee(&[3, 1, 2], 2);
    let setup = manager.start_epoch(RecoveryData { epoch: 5, validators: v.clone() });
    assert_eq!(setup.epoch, 5);
    assert_eq!(setup.validators, v);
    assert_eq!(setup.pacemaker, manager.create_pacemaker());
    assert_eq!(setup.proposer_election, manager.create_proposer_election(5, &v));
    assert_eq!(manager.epoch(), 5);
}

#[test]
fn pacemaker_grows_by_half_for_six_rounds() {
    let manager = manager_at(5);
    let pacemaker = manager.create_pacemaker();
    assert_eq!(pacemaker.base_ms(), 1_000);
    assert_eq!(pacemaker.max_exponent(), 6);
    let expected = [1_000u64, 1_500, 2_250, 3_375, 5_063, 7_594, 11_391, 11_391, 11_391];
    for (i, ms) in expected.iter().enumerate() {
        assert_eq!(pacemaker.get_round_duration_ms(i), *ms);
    }
    assert_eq!(pacemaker.get_round_duration_ms(usize::MAX), 11_391);
}

#[test]
fn rotating_election_takes_validators_in_canonical_order() {
    let manager = manager_at(5);
    let election = manager.create_proposer_election(5, &committee(&[30, 10, 20, 10], 2));
    assert_eq!(
        election,
        ProposerElection::RotatingProposer {
            proposers: vec![address(10), address(20), address(30)],
            contiguous_rounds: 2,
        }
    );
}

#[test]
fn multi_election_has_two_proposers_per_round() {
    let manager = EpochManager::new(
        address(1),
        EpochInfo { epoch: 5, verifier: committee(&[1], 1) },
        config(ConsensusProposerType::MultipleOrderedProposers),
    );
    let election = manager.create_proposer_election(8, &committee(&[30, 10, 20], 2));
    assert_eq!(
        election,
        ProposerElection::MultiProposer {
            epoch: 8,
            proposers: vec![address(10), address(20), address(30)],
            num_proposers_per_round: 2,
        }
    );
}

#[test]
fn fixed_proposer_is_the_smallest_address_whatever_the_order() {
    let manager = EpochManager::new(
        address(1),
        EpochInfo { epoch: 5, verifier: committee(&[1], 1) },
        config(ConsensusProposerType::FixedProposer),
    );
    let a = AccountAddress::new(1, 0);
    let b = AccountAddress::new(0, 7);
    let c = AccountAddress::new(0, u128::MAX);
    let expected = ProposerElection::RotatingProposer { proposers: vec![b], contiguous_rounds: 2 };
    let orders = [[a, b, c], [a, c, b], [b, a, c], [b, c, a], [c, a, b], [c, b, a]];
    for order in orders {
        let validators = ValidatorVerifier::new(&order.to_vec(), 2);
        assert_eq!(manager.create_proposer_election(5, &validators), expected);
    }
}

#[test]
fn epoch_follows_storage_wherever_it_is() {
    let mut manager = manager_at(5);
    manager.start_new_epoch(false, RecoveryData { epoch: 3, validators: committee(&[1], 1) });
    assert_eq!(manager.epoch(), 3);
}
