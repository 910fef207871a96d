//! The proposal registry and lifecycle engine.
//!
//! `TreasuryGovernance` owns every persisted record: proposals keyed by id,
//! votes keyed by (proposal id, voter identity), the insertion-ordered list of
//! known proposal ids, the registered-voter directory, and the sequence of
//! recorded notifications. Each operation reads the registry, validates
//! against the state machine, and either mutates it atomically or leaves it
//! untouched and reports one of the closed error reasons.
//!
//! Time never advances by itself: callers pass the host's block-height
//! counter into each time-dependent operation, and transitions that depend on
//! elapsed time are realized lazily by `update_proposal_status`.
//!
//! Every mutating operation is specified as a step function over
//! `GovernanceView`, the mathematical model of the registry, so that
//! properties relating several calls can be stated and proved as lemmas over
//! those step functions.

use vstd::prelude::*;

use crate::params::GovernanceParameters;
use crate::tally::decide_outcome;
use crate::tally::compute_required_votes;
use crate::tally::first_max_index;
use crate::tally::max_count;
use crate::tally::required_votes;
use crate::tally::sum_vote_counts;
use crate::tally::sum_votes;
use crate::tally::tally_outcome;
use crate::types::AccountId;
use crate::types::Error;
use crate::types::Event;
use crate::types::EventView;
use crate::types::ProposalCreated;
use crate::types::ProposalCreatedView;
use crate::types::ProposalExecuted;
use crate::types::ProposalStatus;
use crate::types::ProposalType;
use crate::types::Proposal;
use crate::types::ProposalView;
use crate::types::VoteCast;
use crate::types::VoteCastView;
use crate::types::VoteChoice;
use crate::types::VoteChoiceView;
use crate::types::Vote;
use crate::types::VoteView;
use crate::types::VoterRegistered;
use crate::types::VotingOptions;
use crate::types::clone_counts;
use crate::types::clone_ids;
use crate::types::clone_labels;
use crate::types::clone_proposal;
use crate::types::clone_vote;
use crate::types::events_view;
use crate::types::lemma_events_view_push;

verus! {

/// The mathematical model of the registry: proposals and votes as maps,
/// the voter directory as a set, and the recorded notifications in order.
#[verifier::ext_equal]
pub ghost struct GovernanceView {
    pub next_proposal_id: u32,
    pub proposals: Map<u32, ProposalView>,
    pub proposal_ids: Seq<u32>,
    pub votes: Map<(u32, AccountId), VoteView>,
    pub registered_voters: Set<AccountId>,
    pub total_voters: u32,
    pub owner: AccountId,
    pub events: Seq<EventView>,
}

/// The key under which a stored vote record is filed.
pub open spec fn vote_key(r: (u32, Vote)) -> (u32, AccountId) {
    (r.0, r.1.voter)
}

/// The map described by an association list of vote records; later entries
/// shadow earlier ones, though well-formed registries never hold two records
/// with one key.
pub open spec fn votes_map(s: Seq<(u32, Vote)>) -> Map<(u32, AccountId), VoteView>
    decreases s.len(),
{
    if s.len() == 0 {
        Map::empty()
    } else {
        votes_map(s.drop_last()).insert(vote_key(s.last()), s.last().1@)
    }
}

/// A key is in the vote map exactly when some record carries it.
pub proof fn lemma_votes_map_domain(s: Seq<(u32, Vote)>, k: (u32, AccountId))
    ensures
        votes_map(s).contains_key(k) <==> exists|i: int| 0 <= i < s.len() && vote_key(s[i]) == k,
    decreases s.len(),
{
    if s.len() > 0 {
        lemma_votes_map_domain(s.drop_last(), k);
        if vote_key(s.last()) == k {
            assert(vote_key(s[s.len() - 1]) == k);
        } else {
            if exists|i: int| 0 <= i < s.len() && vote_key(s[i]) == k {
                let i = choose|i: int| 0 <= i < s.len() && vote_key(s[i]) == k;
                assert(s.drop_last()[i] == s[i]);
            }
            if exists|i: int| 0 <= i < s.drop_last().len() && vote_key(s.drop_last()[i]) == k {
                let i = choose|i: int|
                    0 <= i < s.drop_last().len() && vote_key(s.drop_last()[i]) == k;
                assert(vote_key(s[i]) == k);
            }
        }
    }
}

/// With pairwise-distinct keys, the map sends each record's key to that
/// record's view.
pub proof fn lemma_votes_map_value(s: Seq<(u32, Vote)>, i: int)
    requires
        0 <= i < s.len(),
        forall|a: int, b: int| 0 <= a < b < s.len() ==> vote_key(s[a]) != vote_key(s[b]),
    ensures
        votes_map(s).contains_key(vote_key(s[i])),
        votes_map(s)[vote_key(s[i])] == s[i].1@,
    decreases s.len(),
{
    if i == s.len() - 1 {
    } else {
        assert(forall|a: int, b: int|
            0 <= a < b < s.drop_last().len() ==> vote_key(s.drop_last()[a]) != vote_key(
                s.drop_last()[b],
            ));
        assert(s.drop_last()[i] == s[i]);
        lemma_votes_map_value(s.drop_last(), i);
        assert(vote_key(s[i]) != vote_key(s[s.len() - 1]));
    }
}

/// The proposal registry, voter directory and lifecycle engine.
pub struct TreasuryGovernance {
    next_proposal_id: u32,
    proposals: Vec<Proposal>,
    votes: Vec<(u32, Vote)>,
    proposal_ids: Vec<u32>,
    total_voters: u32,
    owner: AccountId,
    registered_voters: Vec<AccountId>,
    events: Vec<Event>,
}

impl View for TreasuryGovernance {
    type V = GovernanceView;

    closed spec fn view(&self) -> GovernanceView {
        GovernanceView {
            next_proposal_id: self.next_proposal_id,
            proposals: Map::new(
                |id: u32| 1 <= id && id < self.next_proposal_id,
                |id: u32| self.proposals@[id as int - 1]@,
            ),
            proposal_ids: self.proposal_ids@,
            votes: votes_map(self.votes@),
            registered_voters: self.registered_voters@.to_set(),
            total_voters: self.total_voters,
            owner: self.owner,
            events: events_view(self.events@),
        }
    }
}

/// The model of a freshly constructed registry.
pub open spec fn initial_state(owner: AccountId) -> GovernanceView {
    GovernanceView {
        next_proposal_id: 1,
        proposals: Map::empty(),
        proposal_ids: Seq::empty(),
        votes: Map::empty(),
        registered_voters: Set::empty(),
        total_voters: 0,
        owner,
        events: Seq::empty(),
    }
}

/// One registration step: a no-op for an identity already in the directory;
/// otherwise the identity is added, the (saturating) global voter count is
/// advanced, and a registration notification is recorded.
pub open spec fn register_step(s: GovernanceView, caller: AccountId) -> GovernanceView {
    if s.registered_voters.contains(caller) {
        s
    } else {
        GovernanceView {
            registered_voters: s.registered_voters.insert(caller),
            total_voters: s.total_voters.saturating_add(1),
            events: s.events.push(EventView::VoterRegistered(VoterRegistered { voter: caller })),
            ..s
        }
    }
}

/// Validation applied at proposal creation: between 1 and 10 voting options.
pub open spec fn create_error(options: Seq<Seq<char>>) -> Option<Error> {
    if options.len() == 0 || options.len() > 10 {
        Some(Error::InvalidProposal)
    } else {
        None
    }
}

/// The record a successful creation stores: frozen parameters and options, a
/// voting window computed with saturating block arithmetic, `Active` status,
/// and one zeroed counter per option.
pub open spec fn new_proposal_view(
    id: u32,
    title: Seq<char>,
    description: Seq<char>,
    proposal_type: ProposalType,
    governance_params: GovernanceParameters,
    voting_options: Seq<Seq<char>>,
    proposer: AccountId,
    now: u32,
) -> ProposalView {
    let voting_end = now.saturating_add(governance_params.voting_period.spec_to_blocks());
    ProposalView {
        id,
        title,
        description,
        proposal_type,
        governance_params,
        voting_options,
        proposer,
        created_at: now,
        voting_end,
        execution_time: voting_end.saturating_add(
            governance_params.execution_delay.spec_to_blocks(),
        ),
        status: ProposalStatus::Active,
        vote_counts: Seq::new(voting_options.len(), |i: int| 0u128),
        total_voters: 0,
    }
}

/// One successful creation step: the new record is filed under the next id,
/// that id is appended to the known-id list, the id counter advances
/// (saturating), and a creation notification is recorded.
pub open spec fn create_step(
    s: GovernanceView,
    title: Seq<char>,
    description: Seq<char>,
    proposal_type: ProposalType,
    governance_params: GovernanceParameters,
    voting_options: Seq<Seq<char>>,
    proposer: AccountId,
    now: u32,
) -> GovernanceView {
    let id = s.next_proposal_id;
    let p = new_proposal_view(
        id,
        title,
        description,
        proposal_type,
        governance_params,
        voting_options,
        proposer,
        now,
    );
    GovernanceView {
        next_proposal_id: id.saturating_add(1),
        proposals: s.proposals.insert(id, p),
        proposal_ids: s.proposal_ids.push(id),
        events: s.events.push(
            EventView::ProposalCreated(ProposalCreatedView { proposal_id: id, proposer, title }),
        ),
        ..s
    }
}

/// The cascade of checks applied to a vote, in order: the proposal must
/// exist, be `Active`, its voting window must not have closed (the end block
/// itself is still votable), the voter must not have voted on it before, and
/// the option index must be in range. `None` means the vote is accepted.
pub open spec fn vote_error(
    s: GovernanceView,
    proposal_id: u32,
    option_index: u32,
    caller: AccountId,
    now: u32,
) -> Option<Error> {
    if !s.proposals.contains_key(proposal_id) {
        Some(Error::ProposalNotFound)
    } else if s.proposals[proposal_id].status != ProposalStatus::Active {
        Some(Error::ProposalNotActive)
    } else if now > s.proposals[proposal_id].voting_end {
        Some(Error::VotingPeriodEnded)
    } else if s.votes.contains_key((proposal_id, caller)) {
        Some(Error::AlreadyVoted)
    } else if option_index as int >= s.proposals[proposal_id].voting_options.len() {
        Some(Error::InvalidProposal)
    } else {
        None
    }
}

/// One accepted vote: a weight-1 record with a snapshot of the chosen label
/// is filed under `(proposal_id, caller)`, the chosen counter and the
/// proposal's distinct-voter count advance (saturating), and a vote-cast
/// notification is recorded.
pub open spec fn vote_step(
    s: GovernanceView,
    proposal_id: u32,
    option_index: u32,
    caller: AccountId,
    now: u32,
) -> GovernanceView {
    let p = s.proposals[proposal_id];
    let text = p.voting_options[option_index as int];
    let updated = ProposalView {
        vote_counts: p.vote_counts.update(
            option_index as int,
            p.vote_counts[option_index as int].saturating_add(1),
        ),
        total_voters: p.total_voters.saturating_add(1),
        ..p
    };
    let record = VoteView {
        voter: caller,
        choice: VoteChoiceView { option_index, option_text: text },
        timestamp: now,
        weight: 1,
    };
    GovernanceView {
        proposals: s.proposals.insert(proposal_id, updated),
        votes: s.votes.insert((proposal_id, caller), record),
        events: s.events.push(
            EventView::VoteCast(
                VoteCastView {
                    proposal_id,
                    voter: caller,
                    option_index,
                    option_text: text,
                    weight: 1,
                },
            ),
        ),
        ..s
    }
}

/// Whether the votes cast on a proposal meet its quorum requirement: at
/// least the registered-voter count times the quorum percentage, divided by
/// 100 and rounded down. False for an unknown proposal. Usable before the
/// window closes for informational display.
pub open spec fn quorum_reached(s: GovernanceView, proposal_id: u32) -> bool {
    &&& s.proposals.contains_key(proposal_id)
    &&& sum_votes(s.proposals[proposal_id].vote_counts) >= required_votes(
        s.total_voters,
        s.proposals[proposal_id].governance_params.quorum_threshold,
    )
}

/// How many of the proposals with ids 1 through `n` currently hold the given
/// status.
pub open spec fn count_with_status(s: GovernanceView, n: int, status: ProposalStatus) -> int
    decreases n,
{
    if n <= 0 {
        0
    } else {
        count_with_status(s, n - 1, status) + (if s.proposals.contains_key(n as u32)
            && s.proposals[n as u32].status == status {
            1int
        } else {
            0int
        })
    }
}

/// The lazy tick that realizes time-based transitions. A proposal that is
/// not `Active`, or whose voting window is still open, is left untouched;
/// otherwise its status becomes the tally outcome: `Rejected` on a missed
/// quorum or a nonzero tie, `Passed` otherwise. No notification is recorded.
pub open spec fn update_status_step(s: GovernanceView, proposal_id: u32, now: u32) -> GovernanceView {
    let p = s.proposals[proposal_id];
    if p.status != ProposalStatus::Active || now <= p.voting_end {
        s
    } else {
        let required = required_votes(s.total_voters, p.governance_params.quorum_threshold);
        let outcome = tally_outcome(p.vote_counts, required);
        GovernanceView {
            proposals: s.proposals.insert(proposal_id, ProposalView { status: outcome, ..p }),
            ..s
        }
    }
}

/// The checks applied to an execution request: the proposal must exist, be
/// `Passed`, and the execution-delay block must have been reached.
pub open spec fn execute_error(s: GovernanceView, proposal_id: u32, now: u32) -> Option<Error> {
    if !s.proposals.contains_key(proposal_id) {
        Some(Error::ProposalNotFound)
    } else if s.proposals[proposal_id].status != ProposalStatus::Passed {
        Some(Error::ProposalNotReadyForExecution)
    } else if now < s.proposals[proposal_id].execution_time {
        Some(Error::ProposalNotReadyForExecution)
    } else {
        None
    }
}

/// One successful execution: the status becomes `Executed` and an execution
/// notification is recorded.
pub open spec fn execute_step(s: GovernanceView, proposal_id: u32) -> GovernanceView {
    let p = s.proposals[proposal_id];
    GovernanceView {
        proposals: s.proposals.insert(
            proposal_id,
            ProposalView { status: ProposalStatus::Executed, ..p },
        ),
        events: s.events.push(
            EventView::ProposalExecuted(
                ProposalExecuted { proposal_id, status: ProposalStatus::Executed },
            ),
        ),
        ..s
    }
}

impl TreasuryGovernance {
    /// Structural soundness of the registry: ids are assigned sequentially
    /// from 1, each stored proposal is well formed and filed under its id,
    /// vote keys and registered voters are pairwise distinct, and the global
    /// voter count matches the directory (saturating at the counter maximum).
    pub closed spec fn wf(&self) -> bool {
        &&& 1 <= self.next_proposal_id
        &&& self.proposals@.len() == self.next_proposal_id - 1
        &&& forall|i: int| 0 <= i < self.proposals@.len() ==> (#[trigger] self.proposals@[i])@.wf()
        &&& forall|i: int|
            0 <= i < self.proposals@.len() ==> (#[trigger] self.proposals@[i]).id as int == i + 1
        &&& self.proposal_ids@.len() == self.proposals@.len()
        &&& forall|i: int|
            0 <= i < self.proposal_ids@.len() ==> (#[trigger] self.proposal_ids@[i]) as int == i + 1
        &&& forall|a: int, b: int|
            0 <= a < b < self.votes@.len() ==> vote_key(self.votes@[a]) != vote_key(self.votes@[b])
        &&& forall|a: int, b: int|
            0 <= a < b < self.registered_voters@.len() ==> self.registered_voters@[a]
                != self.registered_voters@[b]
        &&& if self.registered_voters@.len() <= u32::MAX as int {
            self.total_voters as int == self.registered_voters@.len()
        } else {
            self.total_voters == u32::MAX
        }
    }

    /// Create an empty registry owned by the constructing identity.
    pub fn new(owner: AccountId) -> (r: TreasuryGovernance)
        ensures
            r.wf(),
            r@ == initial_state(owner),
    {
        let r = TreasuryGovernance {
            next_proposal_id: 1,
            proposals: Vec::new(),
            votes: Vec::new(),
            proposal_ids: Vec::new(),
            total_voters: 0,
            owner,
            registered_voters: Vec::new(),
            events: Vec::new(),
        };
        proof {
            assert(r@.proposals =~= Map::<u32, ProposalView>::empty());
            assert(r@.registered_voters =~= Set::<AccountId>::empty());
            assert(r@.events =~= Seq::<EventView>::empty());
            assert(r@ =~= initial_state(owner));
        }
        r
    }

    /// Whether the identity is already in the voter directory.
    fn is_registered(&self, caller: AccountId) -> (r: bool)
        ensures
            r == self.registered_voters@.contains(caller),
    {
        let mut i: usize = 0;
        while i < self.registered_voters.len()
            invariant
                i <= self.registered_voters@.len(),
                forall|j: int| 0 <= j < i ==> self.registered_voters@[j] != caller,
            decreases self.registered_voters@.len() - i,
        {
            if self.registered_voters[i] == caller {
                proof {
                    assert(self.registered_voters@[i as int] == caller);
                }
                return true;
            }
            i = i + 1;
        }
        false
    }

    /// Register the calling identity as a voter. Idempotent: an identity
    /// already in the directory is left untouched and counted once.
    pub fn register_voter(&mut self, caller: AccountId)
        requires
            old(self).wf(),
        ensures
            final(self).wf(),
            final(self)@ == register_step(old(self)@, caller),
    {
        if !self.is_registered(caller) {
            self.registered_voters.push(caller);
            self.total_voters = self.total_voters.saturating_add(1);
            self.events.push(Event::VoterRegistered(VoterRegistered { voter: caller }));
            proof {
                let rv0 = old(self).registered_voters@;
                assert(rv0.push(caller) =~= rv0 + seq![caller]);
                Seq::<AccountId>::lemma_to_set_insert_commutes(rv0, caller);
                lemma_events_view_push(
                    old(self).events@,
                    Event::VoterRegistered(VoterRegistered { voter: caller }),
                );
                assert(self@.proposals =~= old(self)@.proposals);
                assert(self@ =~= register_step(old(self)@, caller));
            }
        }
    }

    /// Create a new proposal from the given descriptive data, parameters and
    /// options. Succeeds exactly when there are between 1 and 10 options;
    /// otherwise the registry is left untouched and `InvalidProposal` is
    /// reported. On success the new record is `Active`, its vote counters are
    /// all zero, its id is appended to the known-id list, the id counter
    /// advances, and a creation notification is recorded.
    pub fn create_proposal(
        &mut self,
        title: String,
        description: String,
        proposal_type: ProposalType,
        governance_params: GovernanceParameters,
        voting_options: VotingOptions,
        proposer: AccountId,
        now: u32,
    ) -> (r: Result<u32, Error>)
        requires
            old(self).wf(),
            old(self)@.next_proposal_id < u32::MAX,
        ensures
            final(self).wf(),
            match r {
                Ok(id) => {
                    &&& create_error(voting_options@) is None
                    &&& id == old(self)@.next_proposal_id
                    &&& final(self)@ == create_step(
                        old(self)@,
                        title@,
                        description@,
                        proposal_type,
                        governance_params,
                        voting_options@,
                        proposer,
                        now,
                    )
                },
                Err(e) => {
                    &&& create_error(voting_options@) == Some(e)
                    &&& final(self)@ == old(self)@
                },
            },
    {
        let ghost title0 = title@;
        let ghost description0 = description@;
        let ghost options0 = voting_options@;
        let n = voting_options.options.len();
        if n == 0 || n > 10 {
            return Err(Error::InvalidProposal);
        }
        let proposal_id = self.next_proposal_id;
        let voting_blocks = governance_params.voting_period.to_blocks();
        let voting_end = now.saturating_add(voting_blocks);
        let execution_delay = governance_params.execution_delay.to_blocks();
        let execution_time = voting_end.saturating_add(execution_delay);
        let vote_counts: Vec<u128> = vec![0u128; n];
        proof {
            assert forall|i: int| 0 <= i < vote_counts@.len() implies vote_counts@[i] == 0u128 by {
                assert(cloned::<u128>(0u128, vote_counts@[i]));
            }
            assert(vote_counts@ =~= Seq::new(voting_options@.len(), |i: int| 0u128));
        }
        let proposal = Proposal {
            id: proposal_id,
            title: title.clone(),
            description,
            proposal_type,
            governance_params,
            voting_options,
            proposer,
            created_at: now,
            voting_end,
            execution_time,
            status: ProposalStatus::Active,
            vote_counts,
            total_voters: 0,
        };
        self.proposals.push(proposal);
        self.proposal_ids.push(proposal_id);
        self.next_proposal_id = self.next_proposal_id.saturating_add(1);
        self.events.push(
            Event::ProposalCreated(ProposalCreated { proposal_id, proposer, title }),
        );
        proof {
            let s0 = old(self)@;
            let e = self.events@.last();
            assert(self.events@ =~= old(self).events@.push(e));
            lemma_events_view_push(old(self).events@, e);
            let pv = new_proposal_view(
                proposal_id,
                title0,
                description0,
                proposal_type,
                governance_params,
                options0,
                proposer,
                now,
            );
            assert(self.proposals@.last()@ =~= pv);
            assert(self@.proposals =~= s0.proposals.insert(proposal_id, pv));
            assert(self@ =~= create_step(
                s0,
                title0,
                description0,
                proposal_type,
                governance_params,
                options0,
                proposer,
                now,
            ));
        }
        Ok(proposal_id)
    }

    /// The index of the vote record filed under `(proposal_id, voter)`, if
    /// one exists.
    fn find_vote_index(&self, proposal_id: u32, voter: AccountId) -> (r: Option<usize>)
        ensures
            match r {
                Some(i) => i < self.votes@.len() && vote_key(self.votes@[i as int]) == (
                    proposal_id,
                    voter,
                ),
                None => forall|i: int|
                    0 <= i < self.votes@.len() ==> vote_key(self.votes@[i]) != (
                        proposal_id,
                        voter,
                    ),
            },
    {
        let mut i: usize = 0;
        while i < self.votes.len()
            invariant
                i <= self.votes@.len(),
                forall|j: int| 0 <= j < i ==> vote_key(self.votes@[j]) != (proposal_id, voter),
            decreases self.votes@.len() - i,
        {
            if self.votes[i].0 == proposal_id && self.votes[i].1.voter == voter {
                return Some(i);
            }
            i = i + 1;
        }
        None
    }

    /// Cast the caller's vote for the given option of the given proposal at
    /// the given height. The checks, in order: the proposal must exist and be
    /// `Active`, the window must still be open (`now` at most the end block),
    /// the caller must not have voted on this proposal, and the option index
    /// must be in range. Exactly one vote per voter per proposal is ever
    /// recorded; there is no vote-changing or withdrawal.
    pub fn vote(&mut self, proposal_id: u32, option_index: u32, caller: AccountId, now: u32) -> (r:
        Result<(), Error>)
        requires
            old(self).wf(),
        ensures
            final(self).wf(),
            match r {
                Ok(()) => {
                    &&& vote_error(old(self)@, proposal_id, option_index, caller, now) is None
                    &&& final(self)@ == vote_step(
                        old(self)@,
                        proposal_id,
                        option_index,
                        caller,
                        now,
                    )
                },
                Err(e) => {
                    &&& vote_error(old(self)@, proposal_id, option_index, caller, now) == Some(e)
                    &&& final(self)@ == old(self)@
                },
            },
    {
        if proposal_id < 1 || proposal_id >= self.next_proposal_id {
            proof {
                assert(!self@.proposals.contains_key(proposal_id));
            }
            return Err(Error::ProposalNotFound);
        }
        let idx = (proposal_id - 1) as usize;
        proof {
            assert(self@.proposals.contains_key(proposal_id));
            assert(self@.proposals[proposal_id] == self.proposals@[idx as int]@);
        }
        if self.proposals[idx].status != ProposalStatus::Active {
            return Err(Error::ProposalNotActive);
        }
        if now > self.proposals[idx].voting_end {
            return Err(Error::VotingPeriodEnded);
        }
        let prior = self.find_vote_index(proposal_id, caller);
        proof {
            lemma_votes_map_domain(self.votes@, (proposal_id, caller));
        }
        if prior.is_some() {
            return Err(Error::AlreadyVoted);
        }
        if option_index as usize >= self.proposals[idx].voting_options.options.len() {
            return Err(Error::InvalidProposal);
        }
        let ghost s0 = self@;
        let ghost pv0 = s0.proposals[proposal_id];
        let oi = option_index as usize;
        let mut p = self.proposals.remove(idx);
        let option_text = p.voting_options.options[oi].clone();
        let c = p.vote_counts.remove(oi);
        p.vote_counts.insert(oi, c.saturating_add(1));
        p.total_voters = p.total_voters.saturating_add(1);
        proof {
            assert(p.vote_counts@ =~= pv0.vote_counts.update(
                oi as int,
                pv0.vote_counts[oi as int].saturating_add(1),
            ));
        }
        self.proposals.insert(idx, p);
        let vote_record = Vote {
            voter: caller,
            choice: VoteChoice { option_index, option_text: option_text.clone() },
            timestamp: now,
            weight: 1,
        };
        self.votes.push((proposal_id, vote_record));
        self.events.push(
            Event::VoteCast(
                VoteCast { proposal_id, voter: caller, option_index, option_text, weight: 1 },
            ),
        );
        proof {
            let pv1 = self.proposals@[idx as int]@;
            assert(self.proposals@ =~= old(self).proposals@.update(idx as int, self.proposals@[idx as int]));
            assert(pv1 =~= ProposalView {
                vote_counts: pv0.vote_counts.update(
                    oi as int,
                    pv0.vote_counts[oi as int].saturating_add(1),
                ),
                total_voters: pv0.total_voters.saturating_add(1),
                ..pv0
            });
            assert(self@.proposals =~= s0.proposals.insert(proposal_id, pv1));
            assert(self.votes@.drop_last() =~= old(self).votes@);
            assert(vote_key(self.votes@.last()) == (proposal_id, caller));
            assert(votes_map(self.votes@) == votes_map(old(self).votes@).insert(
                (proposal_id, caller),
                self.votes@.last().1@,
            ));
            let e = self.events@.last();
            assert(self.events@ =~= old(self).events@.push(e));
            lemma_events_view_push(old(self).events@, e);
            assert forall|a: int, b: int|
                0 <= a < b < self.votes@.len() implies vote_key(self.votes@[a]) != vote_key(
                self.votes@[b],
            ) by {
                if b < self.votes@.len() - 1 {
                    assert(self.votes@[a] == old(self).votes@[a]);
                    assert(self.votes@[b] == old(self).votes@[b]);
                } else {
                    assert(self.votes@[a] == old(self).votes@[a]);
                }
            }
            assert(self@ =~= vote_step(s0, proposal_id, option_index, caller, now));
        }
        Ok(())
    }

    /// Replace the status of the proposal stored at `idx`, leaving every
    /// other part of the registry untouched.
    fn set_status(&mut self, idx: usize, status: ProposalStatus)
        requires
            old(self).wf(),
            idx < old(self).proposals@.len(),
        ensures
            final(self).wf(),
            final(self)@ == (GovernanceView {
                proposals: old(self)@.proposals.insert(
                    (idx + 1) as u32,
                    ProposalView { status, ..old(self)@.proposals[(idx + 1) as u32] },
                ),
                ..old(self)@
            }),
    {
        let ghost s0 = self@;
        let ghost pid = (idx + 1) as u32;
        proof {
            assert(s0.proposals.contains_key(pid));
            assert(s0.proposals[pid] == self.proposals@[idx as int]@);
        }
        let mut p = self.proposals.remove(idx);
        p.status = status;
        self.proposals.insert(idx, p);
        proof {
            assert(self.proposals@ =~= old(self).proposals@.update(
                idx as int,
                self.proposals@[idx as int],
            ));
            assert(self.proposals@[idx as int]@ =~= ProposalView {
                status,
                ..s0.proposals[pid]
            });
            assert(self@.proposals =~= s0.proposals.insert(
                pid,
                ProposalView { status, ..s0.proposals[pid] },
            ));
            assert(self@ =~= (GovernanceView {
                proposals: s0.proposals.insert(pid, ProposalView { status, ..s0.proposals[pid] }),
                ..s0
            }));
        }
    }

    /// Realize any pending time-based transition for the given proposal at
    /// the given height. Fails only when the proposal does not exist. A
    /// proposal that is not `Active`, or whose window is still open, is left
    /// untouched; otherwise its status becomes `Rejected` when the cast
    /// votes miss the quorum requirement or more than one option ties for a
    /// nonzero maximum, and `Passed` otherwise. The engine never advances
    /// status by itself: some caller must invoke this after the window.
    pub fn update_proposal_status(&mut self, proposal_id: u32, now: u32) -> (r: Result<
        (),
        Error,
    >)
        requires
            old(self).wf(),
        ensures
            final(self).wf(),
            match r {
                Ok(()) => {
                    &&& old(self)@.proposals.contains_key(proposal_id)
                    &&& final(self)@ == update_status_step(old(self)@, proposal_id, now)
                },
                Err(e) => {
                    &&& e == Error::ProposalNotFound
                    &&& !old(self)@.proposals.contains_key(proposal_id)
                    &&& final(self)@ == old(self)@
                },
            },
    {
        if proposal_id < 1 || proposal_id >= self.next_proposal_id {
            proof {
                assert(!self@.proposals.contains_key(proposal_id));
            }
            return Err(Error::ProposalNotFound);
        }
        let idx = (proposal_id - 1) as usize;
        proof {
            assert(self@.proposals.contains_key(proposal_id));
            assert(self@.proposals[proposal_id] == self.proposals@[idx as int]@);
        }
        if self.proposals[idx].status != ProposalStatus::Active {
            return Ok(());
        }
        if now <= self.proposals[idx].voting_end {
            return Ok(());
        }
        proof {
            assert(self.proposals@[idx as int]@.wf());
        }
        let required = compute_required_votes(
            self.total_voters,
            &self.proposals[idx].governance_params.quorum_threshold,
        );
        let outcome = decide_outcome(&self.proposals[idx].vote_counts, required);
        self.set_status(idx, outcome);
        proof {
            assert(self@ =~= update_status_step(old(self)@, proposal_id, now));
        }
        Ok(())
    }

    /// Execute a passed proposal at the given height: the single
    /// externally-observable "go" signal. Fails with `ProposalNotFound` for
    /// an unknown id and with `ProposalNotReadyForExecution` whenever the
    /// status is not `Passed` or the execution-delay block has not been
    /// reached. On success the status becomes `Executed` and an execution
    /// notification is recorded; this engine performs no further side
    /// effect itself.
    pub fn execute_proposal(&mut self, proposal_id: u32, now: u32) -> (r: Result<(), Error>)
        requires
            old(self).wf(),
        ensures
            final(self).wf(),
            match r {
                Ok(()) => {
                    &&& execute_error(old(self)@, proposal_id, now) is None
                    &&& final(self)@ == execute_step(old(self)@, proposal_id)
                },
                Err(e) => {
                    &&& execute_error(old(self)@, proposal_id, now) == Some(e)
                    &&& final(self)@ == old(self)@
                },
            },
    {
        if proposal_id < 1 || proposal_id >= self.next_proposal_id {
            proof {
                assert(!self@.proposals.contains_key(proposal_id));
            }
            return Err(Error::ProposalNotFound);
        }
        let idx = (proposal_id - 1) as usize;
        proof {
            assert(self@.proposals.contains_key(proposal_id));
            assert(self@.proposals[proposal_id] == self.proposals@[idx as int]@);
        }
        if self.proposals[idx].status != ProposalStatus::Passed {
            return Err(Error::ProposalNotReadyForExecution);
        }
        if now < self.proposals[idx].execution_time {
            return Err(Error::ProposalNotReadyForExecution);
        }
        let ghost s0 = self@;
        self.set_status(idx, ProposalStatus::Executed);
        let ghost mid = self.events@;
        self.events.push(
            Event::ProposalExecuted(
                ProposalExecuted { proposal_id, status: ProposalStatus::Executed },
            ),
        );
        proof {
            let e = self.events@.last();
            assert(self.events@ =~= mid.push(e));
            lemma_events_view_push(mid, e);
            assert(self@ =~= execute_step(s0, proposal_id));
        }
        Ok(())
    }

    // ========== READ-ONLY QUERIES ==========

    /// A copy of the proposal record with the given id, if it exists.
    pub fn get_proposal(&self, proposal_id: u32) -> (r: Option<Proposal>)
        requires
            self.wf(),
        ensures
            match r {
                Some(p) => self@.proposals.contains_key(proposal_id) && p@ == self@.proposals[proposal_id],
                None => !self@.proposals.contains_key(proposal_id),
            },
    {
        if proposal_id < 1 || proposal_id >= self.next_proposal_id {
            return None;
        }
        let idx = (proposal_id - 1) as usize;
        proof {
            assert(self@.proposals[proposal_id] == self.proposals@[idx as int]@);
        }
        Some(clone_proposal(&self.proposals[idx]))
    }

    /// All known proposal ids, in insertion order.
    pub fn get_all_proposal_ids(&self) -> (r: Vec<u32>)
        ensures
            r@ == self@.proposal_ids,
    {
        clone_ids(&self.proposal_ids)
    }

    /// A copy of the vote the given identity cast on the given proposal, if
    /// any.
    pub fn get_user_vote(&self, proposal_id: u32, user: AccountId) -> (r: Option<Vote>)
        requires
            self.wf(),
        ensures
            match r {
                Some(v) => self@.votes.contains_key((proposal_id, user)) && v@ == self@.votes[(
                    proposal_id,
                    user,
                )],
                None => !self@.votes.contains_key((proposal_id, user)),
            },
    {
        match self.find_vote_index(proposal_id, user) {
            Some(i) => {
                proof {
                    lemma_votes_map_value(self.votes@, i as int);
                }
                Some(clone_vote(&self.votes[i].1))
            },
            None => {
                proof {
                    lemma_votes_map_domain(self.votes@, (proposal_id, user));
                }
                None
            },
        }
    }

    /// The number of identities that have ever registered as voters
    /// (saturating at the counter maximum).
    pub fn get_total_voters(&self) -> (r: u32)
        ensures
            r == self@.total_voters,
    {
        self.total_voters
    }

    /// Whether the votes cast on the proposal meet its quorum requirement;
    /// false for an unknown proposal.
    pub fn has_reached_quorum(&self, proposal_id: u32) -> (r: bool)
        requires
            self.wf(),
        ensures
            r == quorum_reached(self@, proposal_id),
    {
        if proposal_id < 1 || proposal_id >= self.next_proposal_id {
            return false;
        }
        let idx = (proposal_id - 1) as usize;
        proof {
            assert(self@.proposals.contains_key(proposal_id));
            assert(self@.proposals[proposal_id] == self.proposals@[idx as int]@);
        }
        let required = compute_required_votes(
            self.total_voters,
            &self.proposals[idx].governance_params.quorum_threshold,
        );
        let total = sum_vote_counts(&self.proposals[idx].vote_counts);
        total >= required
    }

    /// The raw vote-count vector of the proposal together with its quorum
    /// flag, if the proposal exists.
    pub fn get_proposal_results(&self, proposal_id: u32) -> (r: Option<(Vec<u128>, bool)>)
        requires
            self.wf(),
        ensures
            match r {
                Some(p) => {
                    &&& self@.proposals.contains_key(proposal_id)
                    &&& p.0@ == self@.proposals[proposal_id].vote_counts
                    &&& p.1 == quorum_reached(self@, proposal_id)
                },
                None => !self@.proposals.contains_key(proposal_id),
            },
    {
        if proposal_id < 1 || proposal_id >= self.next_proposal_id {
            return None;
        }
        let idx = (proposal_id - 1) as usize;
        proof {
            assert(self@.proposals[proposal_id] == self.proposals@[idx as int]@);
        }
        let reached = self.has_reached_quorum(proposal_id);
        Some((clone_counts(&self.proposals[idx].vote_counts), reached))
    }

    /// The option labels of the proposal, if it exists.
    pub fn get_voting_options(&self, proposal_id: u32) -> (r: Option<Vec<String>>)
        requires
            self.wf(),
        ensures
            match r {
                Some(v) => self@.proposals.contains_key(proposal_id) && crate::types::labels_of(
                    v@,
                ) == self@.proposals[proposal_id].voting_options,
                None => !self@.proposals.contains_key(proposal_id),
            },
    {
        if proposal_id < 1 || proposal_id >= self.next_proposal_id {
            return None;
        }
        let idx = (proposal_id - 1) as usize;
        proof {
            assert(self@.proposals[proposal_id] == self.proposals@[idx as int]@);
        }
        Some(clone_labels(&self.proposals[idx].voting_options.options))
    }

    /// The `(label, count)` pair of every option of the proposal, in option
    /// order, if the proposal exists.
    pub fn get_detailed_results(&self, proposal_id: u32) -> (r: Option<Vec<(String, u128)>>)
        requires
            self.wf(),
        ensures
            match r {
                Some(rs) => {
                    &&& self@.proposals.contains_key(proposal_id)
                    &&& rs@.len() == self@.proposals[proposal_id].voting_options.len()
                    &&& forall|i: int|
                        0 <= i < rs@.len() ==> (#[trigger] rs@[i]).0@
                            == self@.proposals[proposal_id].voting_options[i] && rs@[i].1
                            == self@.proposals[proposal_id].vote_counts[i]
                },
                None => !self@.proposals.contains_key(proposal_id),
            },
    {
        if proposal_id < 1 || proposal_id >= self.next_proposal_id {
            return None;
        }
        let idx = (proposal_id - 1) as usize;
        proof {
            assert(self@.proposals[proposal_id] == self.proposals@[idx as int]@);
            assert(self.proposals@[idx as int]@.wf());
        }
        let p = &self.proposals[idx];
        let mut results: Vec<(String, u128)> = Vec::new();
        let mut i: usize = 0;
        while i < p.voting_options.options.len()
            invariant
                self.wf(),
                1 <= proposal_id < self.next_proposal_id,
                idx == proposal_id - 1,
                p == &self.proposals@[idx as int],
                p.vote_counts@.len() == p.voting_options.options@.len(),
                i <= p.voting_options.options@.len(),
                results@.len() == i,
                forall|j: int|
                    0 <= j < i ==> (#[trigger] results@[j]).0@ == p.voting_options.options@[j]@
                        && results@[j].1 == p.vote_counts@[j],
            decreases p.voting_options.options@.len() - i,
        {
            results.push((p.voting_options.options[i].clone(), p.vote_counts[i]));
            i = i + 1;
        }
        Some(results)
    }

    /// The first option holding the (nonzero) maximum vote count, with that
    /// count. `None` when the proposal does not exist or no option has any
    /// vote. This display helper ignores ties: under a tie it reports the
    /// first-seen maximum even though the status update would reject the
    /// proposal.
    pub fn get_winning_option(&self, proposal_id: u32) -> (r: Option<(String, u128)>)
        requires
            self.wf(),
        ensures
            match r {
                Some(w) => {
                    &&& self@.proposals.contains_key(proposal_id)
                    &&& w.1 == max_count(self@.proposals[proposal_id].vote_counts)
                    &&& w.1 > 0
                    &&& w.0@ == self@.proposals[proposal_id].voting_options[first_max_index(
                        self@.proposals[proposal_id].vote_counts,
                    )]
                },
                None => !self@.proposals.contains_key(proposal_id) || max_count(
                    self@.proposals[proposal_id].vote_counts,
                ) == 0,
            },
    {
        if proposal_id < 1 || proposal_id >= self.next_proposal_id {
            return None;
        }
        let idx = (proposal_id - 1) as usize;
        proof {
            assert(self@.proposals[proposal_id] == self.proposals@[idx as int]@);
            assert(self.proposals@[idx as int]@.wf());
        }
        match crate::tally::winner_scan(&self.proposals[idx].vote_counts) {
            Some(w) => {
                let (wi, m) = w;
                let label = self.proposals[idx].voting_options.options[wi].clone();
                Some((label, m))
            },
            None => None,
        }
    }

    /// Registry-wide statistics: how many proposals exist, how many are
    /// `Active`, and how many are `Executed`.
    pub fn get_stats(&self) -> (r: (u32, u32, u32))
        requires
            self.wf(),
        ensures
            r.0 as int == self@.proposal_ids.len(),
            r.1 as int == count_with_status(
                self@,
                self@.proposal_ids.len() as int,
                ProposalStatus::Active,
            ),
            r.2 as int == count_with_status(
                self@,
                self@.proposal_ids.len() as int,
                ProposalStatus::Executed,
            ),
    {
        let total = self.proposal_ids.len() as u32;
        let mut active: u32 = 0;
        let mut executed: u32 = 0;
        let mut i: usize = 0;
        while i < self.proposal_ids.len()
            invariant
                self.wf(),
                i <= self.proposal_ids@.len(),
                active as int == count_with_status(self@, i as int, ProposalStatus::Active),
                executed as int == count_with_status(self@, i as int, ProposalStatus::Executed),
                active as int <= i,
                executed as int <= i,
            decreases self.proposal_ids@.len() - i,
        {
            let id = self.proposal_ids[i];
            proof {
                assert(id as int == i + 1);
                assert(self@.proposals.contains_key(id));
                assert(self@.proposals[id] == self.proposals@[i as int]@);
            }
            let p = &self.proposals[(id - 1) as usize];
            match p.status {
                ProposalStatus::Active => {
                    active = active.saturating_add(1);
                },
                ProposalStatus::Executed => {
                    executed = executed.saturating_add(1);
                },
                _ => {},
            }
            i = i + 1;
        }
        (total, active, executed)
    }

    /// The notifications recorded so far, oldest first. The host transport
    /// forwards new entries to external subscribers.
    pub fn events(&self) -> (r: &Vec<Event>)
        ensures
            events_view(r@) == self@.events,
    {
        &self.events
    }
}

// ========== LAWS OF THE STEP FUNCTIONS ==========

/// Registering a voter is idempotent: a second registration step with the
/// same identity changes nothing, so one identity is only ever counted once
/// in the global voter count.
pub proof fn lemma_register_voter_idempotent(s: GovernanceView, caller: AccountId)
    ensures
        register_step(register_step(s, caller), caller) == register_step(s, caller),
{
    assert(register_step(s, caller).registered_voters.contains(caller));
}

/// An accepted vote files a record under the voting pair, and no operation
/// ever removes one.
pub proof fn lemma_vote_records_vote(
    s: GovernanceView,
    proposal_id: u32,
    option_index: u32,
    caller: AccountId,
    now: u32,
)
    requires
        vote_error(s, proposal_id, option_index, caller, now) is None,
    ensures
        vote_step(s, proposal_id, option_index, caller, now).votes.contains_key(
            (proposal_id, caller),
        ),
{
}

/// At-most-once voting: once a vote record exists for a (proposal, voter)
/// pair, no further vote by that voter on that proposal can ever be
/// accepted, whatever option index is chosen; and whenever the proposal is
/// still open for voting, the reported failure is exactly `AlreadyVoted`.
pub proof fn lemma_vote_at_most_once(
    s: GovernanceView,
    proposal_id: u32,
    option_index: u32,
    caller: AccountId,
    now: u32,
)
    requires
        s.votes.contains_key((proposal_id, caller)),
    ensures
        vote_error(s, proposal_id, option_index, caller, now) is Some,
        (s.proposals.contains_key(proposal_id) && s.proposals[proposal_id].status
            == ProposalStatus::Active && now <= s.proposals[proposal_id].voting_end)
            ==> vote_error(s, proposal_id, option_index, caller, now) == Some(
            Error::AlreadyVoted,
        ),
{
}

/// Once a proposal's status has left `Active`, no step of the engine brings
/// it back: registration, another creation, a vote, a status tick and an
/// execution all leave it non-`Active`.
pub proof fn lemma_status_never_returns_to_active(s: GovernanceView, proposal_id: u32)
    requires
        s.proposals.contains_key(proposal_id),
        s.proposals[proposal_id].status != ProposalStatus::Active,
        proposal_id != s.next_proposal_id,
    ensures
        forall|c: AccountId|
            (#[trigger] register_step(s, c)).proposals[proposal_id].status
                != ProposalStatus::Active,
        forall|t: Seq<char>, d: Seq<char>, pt: ProposalType, gp: GovernanceParameters, o: Seq<Seq<char>>, pr: AccountId, n: u32|
            (#[trigger] create_step(s, t, d, pt, gp, o, pr, n)).proposals[proposal_id].status
                != ProposalStatus::Active,
        forall|p2: u32, oi: u32, c: AccountId, n: u32|
            (#[trigger] vote_step(s, p2, oi, c, n)).proposals[proposal_id].status
                != ProposalStatus::Active,
        forall|p2: u32, n: u32|
            (#[trigger] update_status_step(s, p2, n)).proposals[proposal_id].status
                != ProposalStatus::Active,
        forall|p2: u32|
            (#[trigger] execute_step(s, p2)).proposals[proposal_id].status
                != ProposalStatus::Active,
{
}

/// Execution gating: a proposal whose status is not `Passed` can never be
/// executed, even when the execution-time block has been reached.
pub proof fn lemma_execute_requires_passed(s: GovernanceView, proposal_id: u32, now: u32)
    requires
        s.proposals.contains_key(proposal_id),
        s.proposals[proposal_id].status != ProposalStatus::Passed,
    ensures
        execute_error(s, proposal_id, now) == Some(Error::ProposalNotReadyForExecution),
{
}

} // verus!
