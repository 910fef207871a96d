use treasury_governance::AccountId;
use treasury_governance::Error;
use treasury_governance::Event;
use treasury_governance::ExecutionDelay;
use treasury_governance::GovernanceParameters;
use treasury_governance::ProposalStatus;
use treasury_governance::ProposalType;
use treasury_governance::QuorumThreshold;
use treasury_governance::TreasuryGovernance;
use treasury_governance::VotingOptions;
use treasury_governance::VotingPeriod;

fn acct(n: u128) -> AccountId {
    AccountId::new(0, n)
}

fn params(
    voting_period: VotingPeriod,
    quorum_threshold: QuorumThreshold,
    execution_delay: ExecutionDelay,
) -> GovernanceParameters {
    GovernanceParameters { voting_period, quorum_threshold, execution_delay }
}

fn options(labels: &[&str]) -> VotingOptions {
    VotingOptions { options: labels.iter().map(|l| l.to_string()).collect() }
}

fn three_day_proposal(contract: &mut TreasuryGovernance, created_at: u32) -> u32 {
    contract
        .create_proposal(
            String::from("Window boundary"),
            String::from("Three-day window"),
            ProposalType::Other,
            params(VotingPeriod::ThreeDays, QuorumThreshold::Ten, ExecutionDelay::OneDay),
            options(&["Yes", "No"]),
            acct(1),
            created_at,
        )
        .unwrap()
}

#[test]
fn voting_at_the_end_block_succeeds_one_past_fails() {
    let mut contract = TreasuryGovernance::new(acct(1));
    let id = three_day_proposal(&mut contract, 0);
    // votingEnd = 0 + 43_200; the end block itself is still votable.
    assert!(contract.vote(id, 0, acct(1), 43_200).is_ok());
    assert_eq!(contract.vote(id, 0, acct(2), 43_201), Err(Error::VotingPeriodEnded));
}

#[test]
fn quorum_formula_rounds_down() {
    let mut contract = TreasuryGovernance::new(acct(1));
    // 9 registered voters at 25% require floor(9 * 25 / 100) = 2 votes.
    for n in 1..=9 {
        contract.register_voter(acct(n));
    }
    let id = contract
        .create_proposal(
            String::from("Quarter quorum"),
            String::from("Rounding check"),
            ProposalType::Governance,
            params(VotingPeriod::ThreeDays, QuorumThreshold::TwentyFive, ExecutionDelay::Immediately),
            options(&["Yes", "No"]),
            acct(1),
            0,
        )
        .unwrap();
    assert!(!contract.has_reached_quorum(id));
    contract.vote(id, 0, acct(1), 0).unwrap();
    assert!(!contract.has_reached_quorum(id));
    contract.vote(id, 1, acct(2), 0).unwrap();
    assert!(contract.has_reached_quorum(id));
}

#[test]
fn tie_is_rejected_but_display_winner_still_reported() {
    let mut contract = TreasuryGovernance::new(acct(1));
    contract.register_voter(acct(1));
    contract.register_voter(acct(2));
    let id = three_day_proposal(&mut contract, 0);
    contract.vote(id, 0, acct(1), 0).unwrap();
    contract.vote(id, 1, acct(2), 0).unwrap();
    // The display helper ignores the tie and reports the first-seen maximum.
    let (label, count) = contract.get_winning_option(id).unwrap();
    assert_eq!(label, String::from("Yes"));
    assert_eq!(count, 1);
    // The official outcome rejects a nonzero tie.
    contract.update_proposal_status(id, 43_201).unwrap();
    assert_eq!(contract.get_proposal(id).unwrap().status, ProposalStatus::Rejected);
}

#[test]
fn missed_quorum_is_rejected() {
    let mut contract = TreasuryGovernance::new(acct(1));
    for n in 1..=10 {
        contract.register_voter(acct(n));
    }
    let id = three_day_proposal(&mut contract, 0);
    // 10 voters at 10% require 1 vote; none is cast.
    contract.update_proposal_status(id, 43_201).unwrap();
    assert_eq!(contract.get_proposal(id).unwrap().status, ProposalStatus::Rejected);
    // A rejected proposal no longer accepts votes, whatever the height.
    assert_eq!(contract.vote(id, 0, acct(1), 43_201), Err(Error::ProposalNotActive));
}

#[test]
fn update_status_is_a_no_op_while_window_open_or_not_active() {
    let mut contract = TreasuryGovernance::new(acct(1));
    let id = three_day_proposal(&mut contract, 0);
    // Window still open: success, nothing changes.
    contract.update_proposal_status(id, 43_200).unwrap();
    assert_eq!(contract.get_proposal(id).unwrap().status, ProposalStatus::Active);
    // Unknown proposal: the only failure.
    assert_eq!(contract.update_proposal_status(999, 0), Err(Error::ProposalNotFound));
    // Once terminal, a further tick changes nothing.
    contract.update_proposal_status(id, 43_201).unwrap();
    let settled = contract.get_proposal(id).unwrap().status;
    contract.update_proposal_status(id, 100_000).unwrap();
    assert_eq!(contract.get_proposal(id).unwrap().status, settled);
}

#[test]
fn execution_requires_passed_status_even_after_execution_time() {
    let mut contract = TreasuryGovernance::new(acct(1));
    for n in 1..=10 {
        contract.register_voter(acct(n));
    }
    let id = three_day_proposal(&mut contract, 0);
    // executionTime = 43_200 + 14_400 = 57_600, long reached here, but the
    // proposal was never moved out of Active.
    assert_eq!(contract.execute_proposal(id, 1_000_000), Err(Error::ProposalNotReadyForExecution));
    // Rejected is just as unexecutable.
    contract.update_proposal_status(id, 43_201).unwrap();
    assert_eq!(contract.get_proposal(id).unwrap().status, ProposalStatus::Rejected);
    assert_eq!(contract.execute_proposal(id, 1_000_000), Err(Error::ProposalNotReadyForExecution));
    assert_eq!(contract.execute_proposal(999, 0), Err(Error::ProposalNotFound));
}

#[test]
fn passed_proposal_waits_out_the_execution_delay() {
    let mut contract = TreasuryGovernance::new(acct(1));
    contract.register_voter(acct(1));
    let id = three_day_proposal(&mut contract, 0);
    contract.vote(id, 0, acct(1), 0).unwrap();
    contract.update_proposal_status(id, 43_201).unwrap();
    assert_eq!(contract.get_proposal(id).unwrap().status, ProposalStatus::Passed);
    // One block before the execution time: still gated.
    assert_eq!(contract.execute_proposal(id, 57_599), Err(Error::ProposalNotReadyForExecution));
    assert!(contract.execute_proposal(id, 57_600).is_ok());
    assert_eq!(contract.get_proposal(id).unwrap().status, ProposalStatus::Executed);
}

#[test]
fn full_lifecycle_to_execution() {
    let mut contract = TreasuryGovernance::new(acct(1));
    for n in 1..=10 {
        contract.register_voter(acct(n));
    }
    let id = contract
        .create_proposal(
            String::from("Fund the audit"),
            String::from("Pay for the yearly audit"),
            ProposalType::Treasury,
            params(VotingPeriod::ThreeDays, QuorumThreshold::Ten, ExecutionDelay::OneDay),
            options(&["Approve", "Reject", "Abstain"]),
            acct(1),
            0,
        )
        .unwrap();
    // One vote for "Approve" at the creation height meets the quorum of
    // floor(10 * 10 / 100) = 1 and is the sole maximum.
    contract.vote(id, 0, acct(3), 0).unwrap();
    contract.update_proposal_status(id, 43_201).unwrap();
    assert_eq!(contract.get_proposal(id).unwrap().status, ProposalStatus::Passed);
    contract.execute_proposal(id, 57_601).unwrap();
    let proposal = contract.get_proposal(id).unwrap();
    assert_eq!(proposal.status, ProposalStatus::Executed);
    let (total, active, executed) = contract.get_stats();
    assert_eq!((total, active, executed), (1, 0, 1));
}

#[test]
fn zero_required_votes_lets_a_sole_nonzero_maximum_pass() {
    let mut contract = TreasuryGovernance::new(acct(1));
    // No registered voters: the quorum requirement is floor(0 * 10 / 100) = 0.
    let id = three_day_proposal(&mut contract, 0);
    contract.vote(id, 1, acct(7), 0).unwrap();
    contract.update_proposal_status(id, 43_201).unwrap();
    assert_eq!(contract.get_proposal(id).unwrap().status, ProposalStatus::Passed);
}

#[test]
fn vote_snapshots_the_option_label() {
    let mut contract = TreasuryGovernance::new(acct(1));
    let id = three_day_proposal(&mut contract, 0);
    contract.vote(id, 1, acct(4), 17).unwrap();
    let vote = contract.get_user_vote(id, acct(4)).unwrap();
    assert_eq!(vote.voter, acct(4));
    assert_eq!(vote.choice.option_index, 1);
    assert_eq!(vote.choice.option_text, String::from("No"));
    assert_eq!(vote.timestamp, 17);
    assert_eq!(vote.weight, 1);
    assert!(contract.get_user_vote(id, acct(5)).is_none());
}

#[test]
fn notifications_are_recorded_in_order() {
    let mut contract = TreasuryGovernance::new(acct(1));
    contract.register_voter(acct(2));
    contract.register_voter(acct(2));
    let id = three_day_proposal(&mut contract, 0);
    contract.vote(id, 0, acct(2), 5).unwrap();
    let events = contract.events();
    // The repeated registration records nothing.
    assert_eq!(events.len(), 3);
    match &events[0] {
        Event::VoterRegistered(e) => assert_eq!(e.voter, acct(2)),
        other => panic!("unexpected event {:?}", other),
    }
    match &events[1] {
        Event::ProposalCreated(e) => {
            assert_eq!(e.proposal_id, id);
            assert_eq!(e.proposer, acct(1));
            assert_eq!(e.title, String::from("Window boundary"));
        },
        other => panic!("unexpected event {:?}", other),
    }
    match &events[2] {
        Event::VoteCast(e) => {
            assert_eq!(e.proposal_id, id);
            assert_eq!(e.voter, acct(2));
            assert_eq!(e.option_index, 0);
            assert_eq!(e.option_text, String::from("Yes"));
            assert_eq!(e.weight, 1);
        },
        other => panic!("unexpected event {:?}", other),
    }
}

#[test]
fn winning_option_is_absent_without_votes() {
    let mut contract = TreasuryGovernance::new(acct(1));
    let id = three_day_proposal(&mut contract, 0);
    assert!(contract.get_winning_option(id).is_none());
    assert!(contract.get_winning_option(999).is_none());
    assert!(contract.get_proposal(999).is_none());
    assert!(contract.get_voting_options(999).is_none());
    assert!(contract.get_detailed_results(999).is_none());
    assert!(contract.get_proposal_results(999).is_none());
    assert!(!contract.has_reached_quorum(999));
}

#[test]
fn failed_creation_does_not_advance_the_id_counter() {
    let mut contract = TreasuryGovernance::new(acct(1));
    let rejected = contract.create_proposal(
        String::from("Empty"),
        String::from("No options"),
        ProposalType::Other,
        params(VotingPeriod::SevenDays, QuorumThreshold::Five, ExecutionDelay::TwoDays),
        VotingOptions { options: vec![] },
        acct(1),
        0,
    );
    assert_eq!(rejected, Err(Error::InvalidProposal));
    assert!(contract.get_all_proposal_ids().is_empty());
    let id = three_day_proposal(&mut contract, 0);
    assert_eq!(id, 1);
}

#[test]
fn window_arithmetic_saturates_instead_of_overflowing() {
    let mut contract = TreasuryGovernance::new(acct(1));
    let id = contract
        .create_proposal(
            String::from("Late creation"),
            String::from("Created near the height maximum"),
            ProposalType::Other,
            params(VotingPeriod::ThirtyDays, QuorumThreshold::Five, ExecutionDelay::SevenDays),
            options(&["Yes", "No"]),
            acct(1),
            u32::MAX - 10,
        )
        .unwrap();
    let proposal = contract.get_proposal(id).unwrap();
    assert_eq!(proposal.voting_end, u32::MAX);
    assert_eq!(proposal.execution_time, u32::MAX);
}
