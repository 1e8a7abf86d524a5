//! The chain specification: chain identifier, ordered hard-fork activation
//! table and fee constants, with the resolution of the active fork at a
//! given block height.

use vstd::prelude::*;

use crate::u256::U256;

verus! {

/// When a hard fork becomes active.
#[derive(Clone, Copy, Debug, PartialEq, Eq, Structural)]
pub enum ForkCondition {
    /// Active at every height at or above the given block number.
    ActiveFromBlock(u64),
    /// Scheduled but with no height determined yet; never satisfied, so the
    /// latest known-active fork keeps applying until this one is pinned.
    PendingUndetermined,
    /// Abandoned; never satisfied.
    NeverReached,
}

impl ForkCondition {
    /// Whether the condition is satisfied at a height.
    pub open spec fn spec_active(self, block_no: u64) -> bool {
        match self {
            ForkCondition::ActiveFromBlock(n) => block_no >= n,
            ForkCondition::PendingUndetermined => false,
            ForkCondition::NeverReached => false,
        }
    }

    /// Whether the condition is satisfied at a height.
    pub fn active(&self, block_no: u64) -> (r: bool)
        ensures
            r == self.spec_active(block_no),
    {
        match self {
            ForkCondition::ActiveFromBlock(n) => block_no >= *n,
            ForkCondition::PendingUndetermined => false,
            ForkCondition::NeverReached => false,
        }
    }
}

/// The fee-market constants threaded into the block builder.
#[derive(Clone, Copy, Debug, PartialEq, Eq, Structural)]
pub struct Eip1559Constants {
    pub base_fee_change_denominator: U256,
    pub base_fee_max_increase_denominator: U256,
    pub base_fee_max_decrease_denominator: U256,
    pub elasticity_multiplier: U256,
}

/// A chain specification: identifier, hard-fork table in ascending fork
/// order (a later entry supersedes an earlier one), and fee constants.
#[derive(Clone, Debug)]
pub struct ChainSpec {
    pub chain_id: u64,
    pub hard_forks: Vec<(u64, ForkCondition)>,
    pub eip_1559_constants: Eip1559Constants,
}

/// The index of the newest table entry satisfied at a height, or -1 when
/// none is.
pub open spec fn active_index_in(s: Seq<(u64, ForkCondition)>, block_no: u64) -> int
    decreases s.len(),
{
    if s.len() == 0 {
        -1
    } else if s.last().1.spec_active(block_no) {
        s.len() - 1
    } else {
        active_index_in(s.drop_last(), block_no)
    }
}

/// The fork identifier of the newest table entry satisfied at a height.
pub open spec fn active_fork_in(s: Seq<(u64, ForkCondition)>, block_no: u64) -> Option<u64>
    decreases s.len(),
{
    if s.len() == 0 {
        None
    } else if s.last().1.spec_active(block_no) {
        Some(s.last().0)
    } else {
        active_fork_in(s.drop_last(), block_no)
    }
}

/// The active index stays inside the table.
pub proof fn lemma_active_index_bounds(s: Seq<(u64, ForkCondition)>, block_no: u64)
    ensures
        -1 <= active_index_in(s, block_no) < s.len(),
    decreases s.len(),
{
    if s.len() > 0 && !s.last().1.spec_active(block_no) {
        lemma_active_index_bounds(s.drop_last(), block_no);
    }
}

/// The two resolutions agree: the fork identifier is the one at the active
/// index.
pub proof fn lemma_active_fork_at_index(s: Seq<(u64, ForkCondition)>, block_no: u64)
    ensures
        active_index_in(s, block_no) >= 0 ==> active_fork_in(s, block_no) == Some(
            s[active_index_in(s, block_no)].0,
        ),
        active_index_in(s, block_no) == -1 ==> active_fork_in(s, block_no) is None,
    decreases s.len(),
{
    if s.len() > 0 && !s.last().1.spec_active(block_no) {
        lemma_active_fork_at_index(s.drop_last(), block_no);
        lemma_active_index_bounds(s.drop_last(), block_no);
    }
}

/// For a fixed table, the active fork is monotonic non-decreasing in the
/// height: a later block never resolves to an older fork.
pub proof fn lemma_active_fork_monotonic(s: Seq<(u64, ForkCondition)>, b1: u64, b2: u64)
    requires
        b1 <= b2,
    ensures
        active_index_in(s, b1) <= active_index_in(s, b2),
    decreases s.len(),
{
    if s.len() > 0 {
        if s.last().1.spec_active(b1) {
            assert(s.last().1.spec_active(b2));
        } else {
            lemma_active_fork_monotonic(s.drop_last(), b1, b2);
            if s.last().1.spec_active(b2) {
                lemma_active_index_bounds(s.drop_last(), b1);
            }
        }
    }
}

impl ChainSpec {
    /// The active fork at a height.
    pub open spec fn spec_active_fork(self, block_no: u64) -> Option<u64> {
        active_fork_in(self.hard_forks@, block_no)
    }

    /// Resolve the active rule-set at a height: the newest fork whose
    /// activation condition is satisfied, or `None` when no fork is active
    /// yet. Repeated queries for the same height resolve identically.
    pub fn active_fork(&self, block_no: u64) -> (r: Option<u64>)
        ensures
            r == self.spec_active_fork(block_no),
    {
        let mut i = self.hard_forks.len();
        proof {
            assert(self.hard_forks@.take(i as int) =~= self.hard_forks@);
        }
        while i > 0
            invariant
                i <= self.hard_forks@.len(),
                active_fork_in(self.hard_forks@, block_no) == active_fork_in(
                    self.hard_forks@.take(i as int),
                    block_no,
                ),
            decreases i,
        {
            i = i - 1;
            let (fork_id, condition) = self.hard_forks[i];
            proof {
                assert(self.hard_forks@.take(i + 1).last() == self.hard_forks@[i as int]);
                assert(self.hard_forks@.take(i + 1).drop_last() =~= self.hard_forks@.take(i as int));
            }
            if condition.active(block_no) {
                return Some(fork_id);
            }
        }
        None
    }
}

} // verus!
