//! Core data model: caller identities, proposals, votes, errors, and the
//! notifications that mutating operations record.
//!
//! Each executable type carries a view onto a mathematical counterpart
//! (sequences of characters for strings, sequences for vectors), and the
//! contracts of the engine are stated over those views.

use vstd::prelude::*;

use crate::params::GovernanceParameters;

verus! {

/// Opaque caller identity: a fixed-size 256-bit token supplied by the host
/// environment. The engine only ever compares identities for equality;
/// ordering and hashing are provided for the convenience of callers.
#[derive(Debug, Clone, Copy, PartialEq, Eq, PartialOrd, Ord, Hash, Structural)]
pub struct AccountId {
    pub hi: u128,
    pub lo: u128,
}

impl AccountId {
    /// Build an identity from two 128-bit halves.
    pub fn new(hi: u128, lo: u128) -> (r: AccountId)
        ensures
            r == (AccountId { hi, lo }),
    {
        AccountId { hi, lo }
    }
}

/// Informational classification of a proposal; it does not alter any rule.
#[derive(Debug, Clone, Copy, PartialEq, Eq, Structural)]
pub enum ProposalType {
    Treasury,
    Governance,
    Technical,
    Other,
}

/// Lifecycle status of a proposal.
///
/// `Active` may move to `Passed` or `Rejected` once the voting window has
/// closed; `Passed` may move to `Executed`. `Rejected` and `Executed` are
/// terminal. `Expired` is a reachable value of the type but no operation
/// currently transitions into it; it is kept for forward compatibility.
#[derive(Debug, Clone, Copy, PartialEq, Eq, Structural)]
pub enum ProposalStatus {
    Active,
    Passed,
    Rejected,
    Executed,
    Expired,
}

/// The closed set of failure reasons. `NotAuthorized` is reserved and
/// currently returned by no operation.
#[derive(Debug, Clone, Copy, PartialEq, Eq, Structural)]
pub enum Error {
    ProposalNotFound,
    ProposalNotActive,
    VotingPeriodEnded,
    AlreadyVoted,
    NotAuthorized,
    ProposalNotReadyForExecution,
    InvalidProposal,
}

/// The views of a sequence of labels.
pub open spec fn labels_of(v: Seq<String>) -> Seq<Seq<char>> {
    v.map_values(|s: String| s@)
}

/// Ordered, human-readable voting options of a proposal, between 1 and 10 of
/// them; the index into this sequence is the canonical vote choice identifier.
#[derive(Debug, Clone, PartialEq, Eq)]
pub struct VotingOptions {
    pub options: Vec<String>,
}

impl View for VotingOptions {
    type V = Seq<Seq<char>>;

    open spec fn view(&self) -> Seq<Seq<char>> {
        labels_of(self.options@)
    }
}

/// A voter's choice: the option index together with a snapshot of the option
/// label taken at cast time.
#[derive(Debug, Clone, PartialEq, Eq)]
pub struct VoteChoice {
    pub option_index: u32,
    pub option_text: String,
}

pub ghost struct VoteChoiceView {
    pub option_index: u32,
    pub option_text: Seq<char>,
}

impl View for VoteChoice {
    type V = VoteChoiceView;

    open spec fn view(&self) -> VoteChoiceView {
        VoteChoiceView { option_index: self.option_index, option_text: self.option_text@ }
    }
}

/// A governance proposal with its frozen parameters, voting window, tally
/// counters and lifecycle status.
#[derive(Debug, Clone, PartialEq, Eq)]
pub struct Proposal {
    pub id: u32,
    pub title: String,
    pub description: String,
    pub proposal_type: ProposalType,
    pub governance_params: GovernanceParameters,
    pub voting_options: VotingOptions,
    pub proposer: AccountId,
    pub created_at: u32,
    pub voting_end: u32,
    pub execution_time: u32,
    pub status: ProposalStatus,
    pub vote_counts: Vec<u128>,
    pub total_voters: u32,
}

#[verifier::ext_equal]
pub ghost struct ProposalView {
    pub id: u32,
    pub title: Seq<char>,
    pub description: Seq<char>,
    pub proposal_type: ProposalType,
    pub governance_params: GovernanceParameters,
    pub voting_options: Seq<Seq<char>>,
    pub proposer: AccountId,
    pub created_at: u32,
    pub voting_end: u32,
    pub execution_time: u32,
    pub status: ProposalStatus,
    pub vote_counts: Seq<u128>,
    pub total_voters: u32,
}

impl View for Proposal {
    type V = ProposalView;

    open spec fn view(&self) -> ProposalView {
        ProposalView {
            id: self.id,
            title: self.title@,
            description: self.description@,
            proposal_type: self.proposal_type,
            governance_params: self.governance_params,
            voting_options: self.voting_options@,
            proposer: self.proposer,
            created_at: self.created_at,
            voting_end: self.voting_end,
            execution_time: self.execution_time,
            status: self.status,
            vote_counts: self.vote_counts@,
            total_voters: self.total_voters,
        }
    }
}

impl ProposalView {
    /// Structural soundness of a proposal record: one counter per option,
    /// between 1 and 10 options, and an ordered voting window.
    pub open spec fn wf(self) -> bool {
        &&& self.vote_counts.len() == self.voting_options.len()
        &&& 1 <= self.voting_options.len() <= 10
        &&& self.created_at <= self.voting_end <= self.execution_time
    }
}

/// A single cast vote; at most one ever exists per (proposal, voter) pair.
#[derive(Debug, Clone, PartialEq, Eq)]
pub struct Vote {
    pub voter: AccountId,
    pub choice: VoteChoice,
    pub timestamp: u32,
    pub weight: u128,
}

#[verifier::ext_equal]
pub ghost struct VoteView {
    pub voter: AccountId,
    pub choice: VoteChoiceView,
    pub timestamp: u32,
    pub weight: u128,
}

impl View for Vote {
    type V = VoteView;

    open spec fn view(&self) -> VoteView {
        VoteView {
            voter: self.voter,
            choice: self.choice@,
            timestamp: self.timestamp,
            weight: self.weight,
        }
    }
}

// ========== NOTIFICATIONS ==========

/// Notification recorded when a proposal is created.
#[derive(Debug, Clone, PartialEq, Eq)]
pub struct ProposalCreated {
    pub proposal_id: u32,
    pub proposer: AccountId,
    pub title: String,
}

pub ghost struct ProposalCreatedView {
    pub proposal_id: u32,
    pub proposer: AccountId,
    pub title: Seq<char>,
}

impl View for ProposalCreated {
    type V = ProposalCreatedView;

    open spec fn view(&self) -> ProposalCreatedView {
        ProposalCreatedView {
            proposal_id: self.proposal_id,
            proposer: self.proposer,
            title: self.title@,
        }
    }
}

/// Notification recorded when a vote is cast.
#[derive(Debug, Clone, PartialEq, Eq)]
pub struct VoteCast {
    pub proposal_id: u32,
    pub voter: AccountId,
    pub option_index: u32,
    pub option_text: String,
    pub weight: u128,
}

pub ghost struct VoteCastView {
    pub proposal_id: u32,
    pub voter: AccountId,
    pub option_index: u32,
    pub option_text: Seq<char>,
    pub weight: u128,
}

impl View for VoteCast {
    type V = VoteCastView;

    open spec fn view(&self) -> VoteCastView {
        VoteCastView {
            proposal_id: self.proposal_id,
            voter: self.voter,
            option_index: self.option_index,
            option_text: self.option_text@,
            weight: self.weight,
        }
    }
}

/// Notification recorded when a passed proposal is executed.
#[derive(Debug, Clone, Copy, PartialEq, Eq, Structural)]
pub struct ProposalExecuted {
    pub proposal_id: u32,
    pub status: ProposalStatus,
}

/// Notification recorded the first time an identity registers as a voter.
#[derive(Debug, Clone, Copy, PartialEq, Eq, Structural)]
pub struct VoterRegistered {
    pub voter: AccountId,
}

/// A notification emitted as the side effect of a mutating operation. The
/// engine records them in order; the host transport forwards them to external
/// subscribers.
#[derive(Debug, Clone, PartialEq, Eq)]
pub enum Event {
    ProposalCreated(ProposalCreated),
    VoteCast(VoteCast),
    ProposalExecuted(ProposalExecuted),
    VoterRegistered(VoterRegistered),
}

pub ghost enum EventView {
    ProposalCreated(ProposalCreatedView),
    VoteCast(VoteCastView),
    ProposalExecuted(ProposalExecuted),
    VoterRegistered(VoterRegistered),
}

impl View for Event {
    type V = EventView;

    open spec fn view(&self) -> EventView {
        match self {
            Event::ProposalCreated(e) => EventView::ProposalCreated(e@),
            Event::VoteCast(e) => EventView::VoteCast(e@),
            Event::ProposalExecuted(e) => EventView::ProposalExecuted(*e),
            Event::VoterRegistered(e) => EventView::VoterRegistered(*e),
        }
    }
}

/// The views of a recorded event sequence.
pub open spec fn events_view(s: Seq<Event>) -> Seq<EventView> {
    s.map_values(|e: Event| e@)
}

/// Recording one more event appends its view to the viewed sequence.
pub proof fn lemma_events_view_push(s: Seq<Event>, e: Event)
    ensures
        events_view(s.push(e)) == events_view(s).push(e@),
{
    assert(events_view(s.push(e)) =~= events_view(s).push(e@));
}

// ========== VERIFIED DEEP COPIES ==========

/// Copy a vector of labels, preserving its view.
pub fn clone_labels(v: &Vec<String>) -> (r: Vec<String>)
    ensures
        labels_of(r@) == labels_of(v@),
        r@.len() == v@.len(),
{
    let r = v.clone();
    proof {
        assert forall|i: int| 0 <= i < v@.len() implies r@[i] == v@[i] by {
            assert(cloned::<String>(v@[i], r@[i]));
        }
        assert(labels_of(r@) =~= labels_of(v@));
    }
    r
}

/// Copy a vector of vote counters, preserving its view.
pub fn clone_counts(v: &Vec<u128>) -> (r: Vec<u128>)
    ensures
        r@ == v@,
{
    let mut r: Vec<u128> = Vec::new();
    let mut i: usize = 0;
    while i < v.len()
        invariant
            i <= v@.len(),
            r@ == v@.take(i as int),
        decreases v@.len() - i,
    {
        r.push(v[i]);
        i = i + 1;
        proof {
            assert(r@ =~= v@.take(i as int));
        }
    }
    proof {
        assert(v@.take(v@.len() as int) =~= v@);
    }
    r
}

/// Copy a vector of proposal ids, preserving its view.
pub fn clone_ids(v: &Vec<u32>) -> (r: Vec<u32>)
    ensures
        r@ == v@,
{
    let mut r: Vec<u32> = Vec::new();
    let mut i: usize = 0;
    while i < v.len()
        invariant
            i <= v@.len(),
            r@ == v@.take(i as int),
        decreases v@.len() - i,
    {
        r.push(v[i]);
        i = i + 1;
        proof {
            assert(r@ =~= v@.take(i as int));
        }
    }
    proof {
        assert(v@.take(v@.len() as int) =~= v@);
    }
    r
}

/// Deep copy of a proposal record, preserving its view.
pub fn clone_proposal(p: &Proposal) -> (r: Proposal)
    ensures
        r@ == p@,
{
    let r = Proposal {
        id: p.id,
        title: p.title.clone(),
        description: p.description.clone(),
        proposal_type: p.proposal_type,
        governance_params: p.governance_params,
        voting_options: VotingOptions { options: clone_labels(&p.voting_options.options) },
        proposer: p.proposer,
        created_at: p.created_at,
        voting_end: p.voting_end,
        execution_time: p.execution_time,
        status: p.status,
        vote_counts: clone_counts(&p.vote_counts),
        total_voters: p.total_voters,
    };
    proof {
        assert(r@ =~= p@);
    }
    r
}

/// Deep copy of a vote record, preserving its view.
pub fn clone_vote(v: &Vote) -> (r: Vote)
    ensures
        r@ == v@,
{
    Vote {
        voter: v.voter,
        choice: VoteChoice {
            option_index: v.choice.option_index,
            option_text: v.choice.option_text.clone(),
        },
        timestamp: v.timestamp,
        weight: v.weight,
    }
}

} // verus!
