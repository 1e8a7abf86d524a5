//! Hard-fork resolution.

use block_replay::chain_spec::{ChainSpec, Eip1559Constants, ForkCondition};
use block_replay::u256::U256;

const FORK_F: u64 = 1;
const FORK_M: u64 = 2;
const FORK_S: u64 = 3;

fn constants() -> Eip1559Constants {
    Eip1559Constants {
        base_fee_change_denominator: U256::from_u64(8),
        base_fee_max_increase_denominator: U256::from_u64(8),
        base_fee_max_decrease_denominator: U256::from_u64(8),
        elasticity_multiplier: U256::from_u64(2),
    }
}

fn three_fork_spec() -> ChainSpec {
    ChainSpec {
        chain_id: 1,
        hard_forks: vec![
            (FORK_F, ForkCondition::ActiveFromBlock(0)),
            (FORK_M, ForkCondition::ActiveFromBlock(100)),
            (FORK_S, ForkCondition::ActiveFromBlock(200)),
        ],
        eip_1559_constants: constants(),
    }
}

#[test]
fn active_fork_follows_the_table() {
    let spec = three_fork_spec();
    assert_eq!(spec.active_fork(0), Some(FORK_F));
    assert_eq!(spec.active_fork(150), Some(FORK_M));
    assert_eq!(spec.active_fork(250), Some(FORK_S));
}

#[test]
fn activation_boundaries_are_inclusive() {
    let spec = three_fork_spec();
    assert_eq!(spec.active_fork(99), Some(FORK_F));
    assert_eq!(spec.active_fork(100), Some(FORK_M));
    assert_eq!(spec.active_fork(199), Some(FORK_M));
    assert_eq!(spec.active_fork(200), Some(FORK_S));
}

#[test]
fn pending_and_never_conditions_do_not_activate() {
    let spec = ChainSpec {
        chain_id: 1,
        hard_forks: vec![
            (FORK_F, ForkCondition::ActiveFromBlock(0)),
            (FORK_M, ForkCondition::PendingUndetermined),
            (FORK_S, ForkCondition::NeverReached),
        ],
        eip_1559_constants: constants(),
    };
    // the latest known-active fork keeps applying
    assert_eq!(spec.active_fork(1_000_000), Some(FORK_F));
}

#[test]
fn no_active_fork_before_the_first_activation() {
    let spec = ChainSpec {
        chain_id: 1,
        hard_forks: vec![(FORK_F, ForkCondition::ActiveFromBlock(10))],
        eip_1559_constants: constants(),
    };
    assert_eq!(spec.active_fork(9), None);
    assert_eq!(spec.active_fork(10), Some(FORK_F));
}

#[test]
fn resolution_is_stable_across_repeated_queries() {
    let spec = three_fork_spec();
    let first = spec.active_fork(150);
    for _ in 0..5 {
        assert_eq!(spec.active_fork(150), first);
    }
}
