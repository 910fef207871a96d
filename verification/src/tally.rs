//! Vote-tally arithmetic: saturating sums of vote counters, quorum
//! requirements, maximum and tie detection, and the outcome decision applied
//! when a proposal's voting window has closed.
//!
//! All counter arithmetic saturates at the numeric maximum, matching the
//! engine-wide policy of clamping instead of failing at extreme values.

use vstd::prelude::*;

use crate::params::QuorumThreshold;
use crate::types::ProposalStatus;

verus! {

/// Saturating sum of a sequence of vote counters.
pub open spec fn sum_votes(s: Seq<u128>) -> u128
    decreases s.len(),
{
    if s.len() == 0 {
        0
    } else {
        sum_votes(s.drop_last()).saturating_add(s.last())
    }
}

/// The largest vote counter in the sequence, or 0 for an empty sequence.
pub open spec fn max_count(s: Seq<u128>) -> u128
    decreases s.len(),
{
    if s.len() == 0 {
        0
    } else if s.last() > max_count(s.drop_last()) {
        s.last()
    } else {
        max_count(s.drop_last())
    }
}

/// How many counters equal `m`, counting only when `m` is nonzero.
pub open spec fn count_equal_nonzero(s: Seq<u128>, m: u128) -> int
    decreases s.len(),
{
    if s.len() == 0 {
        0
    } else {
        count_equal_nonzero(s.drop_last(), m) + (if s.last() == m && m > 0 {
            1int
        } else {
            0int
        })
    }
}

/// The index of the first counter that attains the maximum; 0 for sequences
/// of length at most one.
pub open spec fn first_max_index(s: Seq<u128>) -> int
    decreases s.len(),
{
    if s.len() <= 1 {
        0
    } else if s.last() > s[first_max_index(s.drop_last())] {
        s.len() - 1
    } else {
        first_max_index(s.drop_last())
    }
}

/// Number of cast votes a proposal needs for its outcome to be binding:
/// the registered-voter count times the quorum percentage, divided by 100
/// and rounded down.
pub open spec fn required_votes(total_voters: u32, threshold: QuorumThreshold) -> u128 {
    (((total_voters as int) * (threshold.spec_to_percentage() as int)) / 100) as u128
}

/// The status a proposal moves to once its voting window has closed:
/// `Rejected` when the cast votes fall short of the quorum requirement or
/// when more than one option ties for a nonzero maximum, `Passed` otherwise.
pub open spec fn tally_outcome(counts: Seq<u128>, required: u128) -> ProposalStatus {
    if sum_votes(counts) < required {
        ProposalStatus::Rejected
    } else if count_equal_nonzero(counts, max_count(counts)) > 1 {
        ProposalStatus::Rejected
    } else {
        ProposalStatus::Passed
    }
}

// ========== PROPERTIES OF THE TALLY FUNCTIONS ==========

/// Every counter is at most the maximum.
pub proof fn lemma_max_count_ge_all(s: Seq<u128>)
    ensures
        forall|i: int| 0 <= i < s.len() ==> s[i] <= max_count(s),
    decreases s.len(),
{
    if s.len() > 0 {
        lemma_max_count_ge_all(s.drop_last());
        assert forall|i: int| 0 <= i < s.len() implies s[i] <= max_count(s) by {
            if i < s.len() - 1 {
                assert(s.drop_last()[i] == s[i]);
                assert(s[i] <= max_count(s.drop_last()));
            }
        }
    }
}

/// A nonempty sequence attains its maximum somewhere.
pub proof fn lemma_max_count_attained(s: Seq<u128>)
    requires
        s.len() > 0,
    ensures
        exists|i: int| 0 <= i < s.len() && s[i] == max_count(s),
    decreases s.len(),
{
    if s.len() == 1 {
        if s.last() > 0 {
            assert(s[0] == max_count(s));
        } else {
            assert(s[0] == max_count(s));
        }
    } else if s.last() > max_count(s.drop_last()) {
        assert(s[s.len() - 1] == max_count(s));
    } else {
        lemma_max_count_attained(s.drop_last());
        let i = choose|i: int|
            0 <= i < s.drop_last().len() && s.drop_last()[i] == max_count(s.drop_last());
        assert(s[i] == max_count(s));
    }
}

/// The equal-count tally is never negative.
pub proof fn lemma_count_equal_nonneg(s: Seq<u128>, m: u128)
    ensures
        count_equal_nonzero(s, m) >= 0,
    decreases s.len(),
{
    if s.len() > 0 {
        lemma_count_equal_nonneg(s.drop_last(), m);
    }
}

/// A value that occurs nowhere has an equal-count of zero.
pub proof fn lemma_count_equal_absent(s: Seq<u128>, m: u128)
    requires
        forall|i: int| 0 <= i < s.len() ==> s[i] != m,
    ensures
        count_equal_nonzero(s, m) == 0,
    decreases s.len(),
{
    if s.len() > 0 {
        assert(forall|i: int| 0 <= i < s.drop_last().len() ==> s.drop_last()[i] == s[i]);
        lemma_count_equal_absent(s.drop_last(), m);
    }
}

/// One occurrence of a nonzero value gives an equal-count of at least one.
pub proof fn lemma_count_equal_ge_one(s: Seq<u128>, m: u128, i: int)
    requires
        0 <= i < s.len(),
        s[i] == m,
        m > 0,
    ensures
        count_equal_nonzero(s, m) >= 1,
    decreases s.len(),
{
    lemma_count_equal_nonneg(s.drop_last(), m);
    if i < s.len() - 1 {
        assert(s.drop_last()[i] == s[i]);
        lemma_count_equal_ge_one(s.drop_last(), m, i);
    }
}

/// Two distinct occurrences of a nonzero value give an equal-count of at
/// least two.
pub proof fn lemma_count_equal_ge_two(s: Seq<u128>, m: u128, i: int, j: int)
    requires
        0 <= i < j < s.len(),
        s[i] == m,
        s[j] == m,
        m > 0,
    ensures
        count_equal_nonzero(s, m) >= 2,
    decreases s.len(),
{
    if j == s.len() - 1 {
        assert(s.drop_last()[i] == s[i]);
        lemma_count_equal_ge_one(s.drop_last(), m, i);
    } else {
        assert(s.drop_last()[i] == s[i]);
        assert(s.drop_last()[j] == s[j]);
        lemma_count_equal_ge_two(s.drop_last(), m, i, j);
    }
}

/// Tie policy: when two distinct options both hold the maximum vote count
/// and that count is nonzero, the tally outcome is `Rejected`, never
/// `Passed`, whatever the quorum requirement.
pub proof fn lemma_tie_rejected(counts: Seq<u128>, required: u128, i: int, j: int)
    requires
        0 <= i < counts.len(),
        0 <= j < counts.len(),
        i != j,
        counts[i] == counts[j],
        counts[i] > 0,
        forall|k: int| 0 <= k < counts.len() ==> counts[k] <= counts[i],
    ensures
        tally_outcome(counts, required) == ProposalStatus::Rejected,
{
    lemma_max_count_ge_all(counts);
    lemma_max_count_attained(counts);
    let k = choose|k: int| 0 <= k < counts.len() && counts[k] == max_count(counts);
    assert(counts[k] <= counts[i]);
    assert(counts[i] <= max_count(counts));
    assert(max_count(counts) == counts[i]);
    if i < j {
        lemma_count_equal_ge_two(counts, counts[i], i, j);
    } else {
        lemma_count_equal_ge_two(counts, counts[i], j, i);
    }
}

/// The first index attaining the maximum is in range, attains it, and is
/// preceded only by strictly smaller counters.
pub proof fn lemma_first_max_index(s: Seq<u128>)
    requires
        s.len() > 0,
    ensures
        0 <= first_max_index(s) < s.len(),
        s[first_max_index(s)] == max_count(s),
        forall|i: int| 0 <= i < first_max_index(s) ==> #[trigger] s[i] < s[first_max_index(s)],
    decreases s.len(),
{
    if s.len() == 1 {
        assert(s.drop_last().len() == 0);
        assert(max_count(s.drop_last()) == 0);
        assert(s[0] == max_count(s));
    } else {
        lemma_first_max_index(s.drop_last());
        let j = first_max_index(s.drop_last());
        assert(s.drop_last()[j] == s[j]);
        assert(forall|i: int| 0 <= i < s.len() - 1 ==> s.drop_last()[i] == s[i]);
        if s.last() > s[j] {
            assert(first_max_index(s) == s.len() - 1);
            lemma_max_count_ge_all(s.drop_last());
        } else {
            assert(first_max_index(s) == j);
        }
    }
}

// ========== EXECUTABLE TALLY FUNCTIONS ==========

/// Saturating sum of the vote counters of a proposal.
pub fn sum_vote_counts(counts: &Vec<u128>) -> (r: u128)
    ensures
        r == sum_votes(counts@),
{
    let mut total: u128 = 0;
    let mut i: usize = 0;
    while i < counts.len()
        invariant
            i <= counts@.len(),
            total == sum_votes(counts@.take(i as int)),
        decreases counts@.len() - i,
    {
        proof {
            assert(counts@.take(i + 1).drop_last() =~= counts@.take(i as int));
            assert(counts@.take(i + 1).last() == counts@[i as int]);
        }
        total = total.saturating_add(counts[i]);
        i = i + 1;
    }
    proof {
        assert(counts@.take(counts@.len() as int) =~= counts@);
    }
    total
}

/// The required-votes figure computed in executable code.
pub fn compute_required_votes(total_voters: u32, threshold: &QuorumThreshold) -> (r: u128)
    ensures
        r == required_votes(total_voters, *threshold),
{
    let pct = threshold.to_percentage();
    proof {
        assert((total_voters as int) * (pct as int) <= (u32::MAX as int) * 25 < u128::MAX as int)
            by (nonlinear_arith)
            requires
                total_voters <= u32::MAX,
                pct <= 25,
        ;
    }
    (total_voters as u128) * (pct as u128) / 100
}

/// Decide the post-window status of a proposal from its vote counters and
/// the quorum requirement.
pub fn decide_outcome(counts: &Vec<u128>, required: u128) -> (r: ProposalStatus)
    requires
        counts@.len() <= u32::MAX as int,
    ensures
        r == tally_outcome(counts@, required),
{
    let total = sum_vote_counts(counts);
    if total < required {
        return ProposalStatus::Rejected;
    }
    let mut max_votes: u128 = 0;
    let mut winning_count: u32 = 0;
    let mut i: usize = 0;
    while i < counts.len()
        invariant
            i <= counts@.len(),
            counts@.len() <= u32::MAX as int,
            max_votes == max_count(counts@.take(i as int)),
            winning_count as int == count_equal_nonzero(counts@.take(i as int), max_votes),
            winning_count as int <= i,
        decreases counts@.len() - i,
    {
        let c = counts[i];
        proof {
            assert(counts@.take(i + 1).drop_last() =~= counts@.take(i as int));
            assert(counts@.take(i + 1).last() == counts@[i as int]);
        }
        if c > max_votes {
            proof {
                lemma_max_count_ge_all(counts@.take(i as int));
                lemma_count_equal_absent(counts@.take(i as int), c);
            }
            max_votes = c;
            winning_count = 1;
        } else if c == max_votes && c > 0 {
            winning_count = winning_count.saturating_add(1);
        } else {
            proof {
                assert(count_equal_nonzero(counts@.take(i + 1), max_votes)
                    == count_equal_nonzero(counts@.take(i as int), max_votes));
            }
        }
        i = i + 1;
    }
    proof {
        assert(counts@.take(counts@.len() as int) =~= counts@);
    }
    if winning_count > 1 {
        ProposalStatus::Rejected
    } else {
        ProposalStatus::Passed
    }
}

/// Scan for the winning option: the first counter attaining the maximum,
/// reported only when the maximum is nonzero.
pub fn winner_scan(counts: &Vec<u128>) -> (r: Option<(usize, u128)>)
    ensures
        match r {
            Some((wi, m)) => {
                &&& m == max_count(counts@)
                &&& m > 0
                &&& wi < counts@.len()
                &&& wi as int == first_max_index(counts@)
            },
            None => max_count(counts@) == 0,
        },
{
    let mut max_votes: u128 = 0;
    let mut winning_index: usize = 0;
    let mut i: usize = 0;
    while i < counts.len()
        invariant
            i <= counts@.len(),
            max_votes == max_count(counts@.take(i as int)),
            winning_index as int == first_max_index(counts@.take(i as int)),
            i > 0 ==> winning_index < i,
            i > 0 ==> max_votes == counts@[winning_index as int],
        decreases counts@.len() - i,
    {
        let c = counts[i];
        proof {
            assert(counts@.take(i + 1).drop_last() =~= counts@.take(i as int));
            assert(counts@.take(i + 1).last() == counts@[i as int]);
            if i > 0 {
                lemma_first_max_index(counts@.take(i as int));
            }
        }
        if c > max_votes {
            max_votes = c;
            winning_index = i;
        }
        i = i + 1;
    }
    proof {
        assert(counts@.take(counts@.len() as int) =~= counts@);
    }
    if max_votes > 0 {
        Some((winning_index, max_votes))
    } else {
        None
    }
}

} // verus!
