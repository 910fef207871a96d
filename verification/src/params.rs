//! Governance parameter catalog: the closed sets of voting-period lengths,
//! quorum thresholds and execution delays, and their conversions to block
//! counts and percentage values (6-second block interval, so one day is
//! 24 * 60 * 10 blocks).

use vstd::prelude::*;

verus! {

/// Length of a proposal's voting window.
#[derive(Debug, Clone, Copy, PartialEq, Eq, Structural)]
pub enum VotingPeriod {
    ThreeDays,
    SevenDays,
    FourteenDays,
    ThirtyDays,
}

impl VotingPeriod {
    /// Number of blocks in this voting period.
    pub open spec fn spec_to_blocks(&self) -> u32 {
        match self {
            VotingPeriod::ThreeDays => 43_200,
            VotingPeriod::SevenDays => 100_800,
            VotingPeriod::FourteenDays => 201_600,
            VotingPeriod::ThirtyDays => 432_000,
        }
    }

    /// Convert the voting period to a number of blocks.
    #[verifier::when_used_as_spec(spec_to_blocks)]
    pub fn to_blocks(&self) -> (r: u32)
        ensures
            r == self.spec_to_blocks(),
    {
        match self {
            VotingPeriod::ThreeDays => 3 * 24 * 60 * 10,
            VotingPeriod::SevenDays => 7 * 24 * 60 * 10,
            VotingPeriod::FourteenDays => 14 * 24 * 60 * 10,
            VotingPeriod::ThirtyDays => 30 * 24 * 60 * 10,
        }
    }
}

/// Minimum fraction of all registered voters that must vote on a proposal
/// for its outcome to be binding.
#[derive(Debug, Clone, Copy, PartialEq, Eq, Structural)]
pub enum QuorumThreshold {
    Five,
    Ten,
    Twenty,
    TwentyFive,
}

impl QuorumThreshold {
    /// The threshold as a percentage value.
    pub open spec fn spec_to_percentage(&self) -> u32 {
        match self {
            QuorumThreshold::Five => 5,
            QuorumThreshold::Ten => 10,
            QuorumThreshold::Twenty => 20,
            QuorumThreshold::TwentyFive => 25,
        }
    }

    /// Get the percentage value of this threshold.
    #[verifier::when_used_as_spec(spec_to_percentage)]
    pub fn to_percentage(&self) -> (r: u32)
        ensures
            r == self.spec_to_percentage(),
    {
        match self {
            QuorumThreshold::Five => 5,
            QuorumThreshold::Ten => 10,
            QuorumThreshold::Twenty => 20,
            QuorumThreshold::TwentyFive => 25,
        }
    }
}

/// Delay between the end of the voting window and the earliest block at which
/// a passed proposal may be executed.
#[derive(Debug, Clone, Copy, PartialEq, Eq, Structural)]
pub enum ExecutionDelay {
    Immediately,
    OneDay,
    TwoDays,
    SevenDays,
}

impl ExecutionDelay {
    /// Number of blocks in this execution delay.
    pub open spec fn spec_to_blocks(&self) -> u32 {
        match self {
            ExecutionDelay::Immediately => 0,
            ExecutionDelay::OneDay => 14_400,
            ExecutionDelay::TwoDays => 28_800,
            ExecutionDelay::SevenDays => 100_800,
        }
    }

    /// Convert the execution delay to a number of blocks.
    #[verifier::when_used_as_spec(spec_to_blocks)]
    pub fn to_blocks(&self) -> (r: u32)
        ensures
            r == self.spec_to_blocks(),
    {
        match self {
            ExecutionDelay::Immediately => 0,
            ExecutionDelay::OneDay => 24 * 60 * 10,
            ExecutionDelay::TwoDays => 2 * 24 * 60 * 10,
            ExecutionDelay::SevenDays => 7 * 24 * 60 * 10,
        }
    }
}

/// The governance parameters attached to a proposal at creation time,
/// immutable afterwards.
#[derive(Debug, Clone, Copy, PartialEq, Eq, Structural)]
pub struct GovernanceParameters {
    pub voting_period: VotingPeriod,
    pub quorum_threshold: QuorumThreshold,
    pub execution_delay: ExecutionDelay,
}

} // verus!
