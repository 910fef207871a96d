use treasury_governance::AccountId;
use treasury_governance::Error;
use treasury_governance::ExecutionDelay;
use treasury_governance::GovernanceParameters;
use treasury_governance::ProposalStatus;
use treasury_governance::ProposalType;
use treasury_governance::QuorumThreshold;
use treasury_governance::TreasuryGovernance;
use treasury_governance::VotingOptions;
use treasury_governance::VotingPeriod;

/// A distinct caller identity for tests.
fn acct(n: u128) -> AccountId {
    AccountId::new(0, n)
}

/// Helper function to create default governance parameters
fn default_governance_params() -> GovernanceParameters {
    GovernanceParameters {
        voting_period: VotingPeriod::ThreeDays,
        quorum_threshold: QuorumThreshold::Ten,
        execution_delay: ExecutionDelay::OneDay,
    }
}

/// Helper function to create default voting options
fn default_voting_options() -> VotingOptions {
    VotingOptions {
        options: vec![
            String::from("Approve"),
            String::from("Reject"),
            String::from("Abstain"),
        ],
    }
}

#[test]
fn test_1_new_contract_initialization() {
    let contract = TreasuryGovernance::new(acct(1));
    assert_eq!(contract.get_total_voters(), 0);
    assert_eq!(contract.get_all_proposal_ids().len(), 0);
    let (total, active, executed) = contract.get_stats();
    assert_eq!(total, 0);
    assert_eq!(active, 0);
    assert_eq!(executed, 0);
}

#[test]
fn test_2_voter_registration() {
    let mut contract = TreasuryGovernance::new(acct(1));
    contract.register_voter(acct(1));
    assert_eq!(contract.get_total_voters(), 1);
    // Registering again should not increase count
    contract.register_voter(acct(1));
    assert_eq!(contract.get_total_voters(), 1);
}

#[test]
fn test_3_create_proposal_success() {
    let mut contract = TreasuryGovernance::new(acct(1));
    let result = contract.create_proposal(
        String::from("Treasury Fund Allocation"),
        String::from("Allocate 1000 tokens for development"),
        ProposalType::Treasury,
        default_governance_params(),
        default_voting_options(),
        acct(1),
        0,
    );
    assert!(result.is_ok());
    let proposal_id = result.unwrap();
    assert_eq!(proposal_id, 1);

    let proposal = contract.get_proposal(proposal_id).unwrap();
    assert_eq!(proposal.title, String::from("Treasury Fund Allocation"));
    assert_eq!(proposal.status, ProposalStatus::Active);
    assert_eq!(proposal.vote_counts.len(), 3);
}

#[test]
fn test_4_create_proposal_validation() {
    let mut contract = TreasuryGovernance::new(acct(1));

    // Test empty options
    let empty_options = VotingOptions { options: vec![] };
    let result = contract.create_proposal(
        String::from("Invalid Proposal"),
        String::from("Should fail"),
        ProposalType::Treasury,
        default_governance_params(),
        empty_options,
        acct(1),
        0,
    );
    assert_eq!(result, Err(Error::InvalidProposal));

    // Test too many options (>10)
    let too_many_options = VotingOptions {
        options: (1..=11).map(|i| format!("Option {}", i)).collect(),
    };
    let result = contract.create_proposal(
        String::from("Invalid Proposal"),
        String::from("Should fail"),
        ProposalType::Treasury,
        default_governance_params(),
        too_many_options,
        acct(1),
        0,
    );
    assert_eq!(result, Err(Error::InvalidProposal));
}

#[test]
fn test_5_vote_success_and_tracking() {
    let mut contract = TreasuryGovernance::new(acct(1));
    let proposal_id = contract
        .create_proposal(
            String::from("Test Proposal"),
            String::from("Test"),
            ProposalType::Treasury,
            default_governance_params(),
            default_voting_options(),
            acct(1),
            0,
        )
        .unwrap();

    // Vote on the proposal
    let result = contract.vote(proposal_id, 0, acct(1), 0);
    assert!(result.is_ok());

    // Verify vote was recorded
    let proposal = contract.get_proposal(proposal_id).unwrap();
    assert_eq!(proposal.vote_counts[0], 1);
    assert_eq!(proposal.total_voters, 1);
}

#[test]
fn test_6_vote_error_cases() {
    let mut contract = TreasuryGovernance::new(acct(1));
    let proposal_id = contract
        .create_proposal(
            String::from("Test Proposal"),
            String::from("Test"),
            ProposalType::Treasury,
            default_governance_params(),
            default_voting_options(),
            acct(1),
            0,
        )
        .unwrap();

    // Test double voting
    contract.vote(proposal_id, 0, acct(1), 0).unwrap();
    assert_eq!(contract.vote(proposal_id, 1, acct(1), 0), Err(Error::AlreadyVoted));

    // Test non-existent proposal
    assert_eq!(contract.vote(999, 0, acct(1), 0), Err(Error::ProposalNotFound));

    // Test invalid option index
    let proposal_id2 = contract
        .create_proposal(
            String::from("Test 2"),
            String::from("Test"),
            ProposalType::Treasury,
            default_governance_params(),
            default_voting_options(),
            acct(1),
            0,
        )
        .unwrap();
    assert_eq!(contract.vote(proposal_id2, 10, acct(1), 0), Err(Error::InvalidProposal));
}

#[test]
fn test_7_governance_parameter_enums() {
    // Test voting period conversions (6 second block time)
    assert_eq!(VotingPeriod::ThreeDays.to_blocks(), 43_200);
    assert_eq!(VotingPeriod::SevenDays.to_blocks(), 100_800);
    assert_eq!(VotingPeriod::FourteenDays.to_blocks(), 201_600);
    assert_eq!(VotingPeriod::ThirtyDays.to_blocks(), 432_000);

    // Test quorum threshold percentages
    assert_eq!(QuorumThreshold::Five.to_percentage(), 5);
    assert_eq!(QuorumThreshold::Ten.to_percentage(), 10);
    assert_eq!(QuorumThreshold::Twenty.to_percentage(), 20);
    assert_eq!(QuorumThreshold::TwentyFive.to_percentage(), 25);

    // Test execution delays
    assert_eq!(ExecutionDelay::Immediately.to_blocks(), 0);
    assert_eq!(ExecutionDelay::OneDay.to_blocks(), 14_400);
    assert_eq!(ExecutionDelay::TwoDays.to_blocks(), 28_800);
    assert_eq!(ExecutionDelay::SevenDays.to_blocks(), 100_800);
}

#[test]
fn test_8_quorum_calculation() {
    let mut contract = TreasuryGovernance::new(acct(1));
    // Simulate 10 registered voters
    for n in 1..=10 {
        contract.register_voter(acct(n));
    }
    assert_eq!(contract.get_total_voters(), 10);

    let proposal_id = contract
        .create_proposal(
            String::from("Test Proposal"),
            String::from("Test"),
            ProposalType::Treasury,
            default_governance_params(), // 10% quorum
            default_voting_options(),
            acct(1),
            0,
        )
        .unwrap();

    // With 10 total voters and 10% quorum, need 1 vote minimum
    assert_eq!(contract.has_reached_quorum(proposal_id), false);

    contract.vote(proposal_id, 0, acct(1), 0).unwrap();
    assert_eq!(contract.has_reached_quorum(proposal_id), true);
}

#[test]
fn test_9_query_functions() {
    let mut contract = TreasuryGovernance::new(acct(1));
    let proposal_id = contract
        .create_proposal(
            String::from("Test Proposal"),
            String::from("Test Description"),
            ProposalType::Treasury,
            default_governance_params(),
            default_voting_options(),
            acct(1),
            0,
        )
        .unwrap();

    contract.vote(proposal_id, 0, acct(1), 0).unwrap();

    // Test get_voting_options
    let options = contract.get_voting_options(proposal_id).unwrap();
    assert_eq!(options.len(), 3);
    assert_eq!(options[0], String::from("Approve"));

    // Test get_detailed_results
    let results = contract.get_detailed_results(proposal_id).unwrap();
    assert_eq!(results[0], (String::from("Approve"), 1));
    assert_eq!(results[1], (String::from("Reject"), 0));

    // Test get_winning_option
    let (winner, votes) = contract.get_winning_option(proposal_id).unwrap();
    assert_eq!(winner, String::from("Approve"));
    assert_eq!(votes, 1);

    // Test get_proposal_results
    let (vote_counts, _) = contract.get_proposal_results(proposal_id).unwrap();
    assert_eq!(vote_counts[0], 1);
}

#[test]
fn test_10_multiple_proposals_management() {
    let mut contract = TreasuryGovernance::new(acct(1));

    let id1 = contract
        .create_proposal(
            String::from("Proposal 1"),
            String::from("First"),
            ProposalType::Treasury,
            default_governance_params(),
            default_voting_options(),
            acct(1),
            0,
        )
        .unwrap();

    let id2 = contract
        .create_proposal(
            String::from("Proposal 2"),
            String::from("Second"),
            ProposalType::Governance,
            default_governance_params(),
            default_voting_options(),
            acct(1),
            0,
        )
        .unwrap();

    assert_eq!(id1, 1);
    assert_eq!(id2, 2);

    let all_ids = contract.get_all_proposal_ids();
    assert_eq!(all_ids.len(), 2);

    let (total, active, _) = contract.get_stats();
    assert_eq!(total, 2);
    assert_eq!(active, 2);
}

#[test]
fn test_11_custom_voting_options() {
    let mut contract = TreasuryGovernance::new(acct(1));

    let custom_options = VotingOptions {
        options: vec![
            String::from("Strongly Agree"),
            String::from("Agree"),
            String::from("Neutral"),
            String::from("Disagree"),
            String::from("Strongly Disagree"),
        ],
    };

    let proposal_id = contract
        .create_proposal(
            String::from("Custom Options Test"),
            String::from("Testing 5-point scale"),
            ProposalType::Governance,
            default_governance_params(),
            custom_options,
            acct(1),
            0,
        )
        .unwrap();

    let options = contract.get_voting_options(proposal_id).unwrap();
    assert_eq!(options.len(), 5);
    assert_eq!(options[0], String::from("Strongly Agree"));
    assert_eq!(options[4], String::from("Strongly Disagree"));
}

#[test]
fn test_12_proposal_types_and_execution() {
    let mut contract = TreasuryGovernance::new(acct(1));

    // Test different proposal types
    let treasury_id = contract
        .create_proposal(
            String::from("Treasury Proposal"),
            String::from("Fund allocation"),
            ProposalType::Treasury,
            default_governance_params(),
            default_voting_options(),
            acct(1),
            0,
        )
        .unwrap();

    let governance_id = contract
        .create_proposal(
            String::from("Governance Change"),
            String::from("Protocol update"),
            ProposalType::Governance,
            default_governance_params(),
            default_voting_options(),
            acct(1),
            0,
        )
        .unwrap();

    let technical_id = contract
        .create_proposal(
            String::from("Technical Upgrade"),
            String::from("System enhancement"),
            ProposalType::Technical,
            default_governance_params(),
            default_voting_options(),
            acct(1),
            0,
        )
        .unwrap();

    assert_eq!(
        contract.get_proposal(treasury_id).unwrap().proposal_type,
        ProposalType::Treasury
    );
    assert_eq!(
        contract.get_proposal(governance_id).unwrap().proposal_type,
        ProposalType::Governance
    );
    assert_eq!(
        contract.get_proposal(technical_id).unwrap().proposal_type,
        ProposalType::Technical
    );

    // Test execution validation
    let result = contract.execute_proposal(treasury_id, 0);
    assert_eq!(result, Err(Error::ProposalNotReadyForExecution));
}
