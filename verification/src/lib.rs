//! A governance engine for proposal lifecycles: creation, time-bounded voting,
//! quorum and winner determination, and delayed execution.
//!
//! Time is a block-height counter supplied by the caller; the caller identity is
//! an opaque token constructed at the system boundary. Every operation is a
//! single atomic step over an explicit registry value, so independent registries
//! can be instantiated and driven side by side.

pub mod governance;
pub mod params;
pub mod tally;
pub mod types;

pub use governance::GovernanceView;
pub use governance::TreasuryGovernance;
pub use params::ExecutionDelay;
pub use params::GovernanceParameters;
pub use params::QuorumThreshold;
pub use params::VotingPeriod;
pub use types::AccountId;
pub use types::Error;
pub use types::Event;
pub use types::Proposal;
pub use types::ProposalCreated;
pub use types::ProposalExecuted;
pub use types::ProposalStatus;
pub use types::ProposalType;
pub use types::Vote;
pub use types::VoteCast;
pub use types::VoteChoice;
pub use types::VoterRegistered;
pub use types::VotingOptions;
