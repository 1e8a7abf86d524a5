//! The block builder and the small utility functions.

use block_replay::block_builder::BlockBuilder;
use block_replay::chain_spec::{ChainSpec, Eip1559Constants, ForkCondition};
use block_replay::error::Error;
use block_replay::exec_db::{AccountState, ExecDb};
use block_replay::guest_mem_forget;
use block_replay::strategy::ExecutionStrategy;
use block_replay::transactions::{
    EthereumTxEssence, Transaction, TransactionKind, TxEssence, TxEssenceLegacy,
};
use block_replay::types::{string_to_bytes32, Address, B256};
use block_replay::u256::U256;

fn addr(n: u128) -> Address {
    Address { hi: 0, lo: n }
}

fn spec_from(height: u64) -> ChainSpec {
    ChainSpec {
        chain_id: 1,
        hard_forks: vec![(1, ForkCondition::ActiveFromBlock(height))],
        eip_1559_constants: Eip1559Constants {
            base_fee_change_denominator: U256::from_u64(8),
            base_fee_max_increase_denominator: U256::from_u64(8),
            base_fee_max_decrease_denominator: U256::from_u64(8),
            elasticity_multiplier: U256::from_u64(2),
        },
    }
}

fn transfer(from: Address, to: Address, value: u128) -> Transaction {
    Transaction {
        essence: TxEssence::Ethereum(EthereumTxEssence::Legacy(TxEssenceLegacy {
            chain_id: None,
            nonce: 0,
            gas_price: U256::zero(),
            gas_limit: U256::from_u64(21000),
            to: TransactionKind::Call(to),
            value: U256::from_u128(value),
            data: Vec::new(),
        })),
        caller: from,
        hash: B256::zero(),
    }
}

fn funded_db(a: Address, balance: u128) -> ExecDb {
    ExecDb::from_accounts(vec![(
        a,
        AccountState {
            balance: U256::from_u128(balance),
            nonce: 0,
            code_hash: B256::zero(),
            storage_root: B256::zero(),
            touched: false,
        },
    )])
}

#[test]
fn builder_replays_when_a_fork_is_active() {
    let x = addr(1);
    let y = addr(2);
    let builder = BlockBuilder::new(spec_from(0), 5, funded_db(x, 100));
    let built = builder
        .execute_transactions(ExecutionStrategy::Plain, &vec![transfer(x, y, 40)])
        .unwrap();
    assert_eq!(built.block_no, 5);
    assert_eq!(built.db.basic(x).unwrap().balance, U256::from_u128(60));
    assert_eq!(built.db.basic(y).unwrap().balance, U256::from_u128(40));
}

#[test]
fn builder_refuses_a_height_before_any_fork() {
    let x = addr(1);
    let builder = BlockBuilder::new(spec_from(100), 5, funded_db(x, 100));
    let r = builder.execute_transactions(ExecutionStrategy::Plain, &Vec::new());
    assert!(matches!(r, Err(Error::InvalidTransaction)));
}

#[test]
fn string_to_bytes32_copies_and_pads() {
    let r = string_to_bytes32(b"abc");
    assert_eq!(&r[0..3], b"abc");
    assert!(r[3..].iter().all(|b| *b == 0));

    let long: Vec<u8> = (0u8..40u8).collect();
    let r = string_to_bytes32(&long);
    assert_eq!(&r[..], &long[0..32]);

    let r = string_to_bytes32(b"");
    assert_eq!(r, [0u8; 32]);
}

#[test]
fn error_categories_describe_themselves() {
    assert_eq!(Error::ProviderFailure.describe(), "provider failure");
    assert_eq!(Error::DatabaseInconsistency.describe(), "database inconsistency");
    assert_eq!(Error::InvalidTransaction.describe(), "invalid transaction");
    assert_eq!(
        Error::ArithmeticInvariantViolation.describe(),
        "arithmetic invariant violation"
    );
}

#[test]
fn guest_mem_forget_consumes_a_value() {
    let v = vec![1u8, 2, 3];
    guest_mem_forget(v);
}
