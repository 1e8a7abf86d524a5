//! The transaction-environment builder.

use block_replay::transactions::{
    AccessListItem, EthereumTxEssence, TransactionKind, TxEssenceDeposited, TxEssenceEip1559,
    TxEssenceEip2930, TxEssenceLegacy,
};
use block_replay::tx_env::{fill_deposit_tx_env, fill_eth_tx_env, TransactTo, TxEnv};
use block_replay::types::{Address, B256};
use block_replay::u256::U256;

fn addr(n: u128) -> Address {
    Address { hi: 0, lo: n }
}

fn legacy_essence() -> EthereumTxEssence {
    EthereumTxEssence::Legacy(TxEssenceLegacy {
        chain_id: Some(5),
        nonce: 3,
        gas_price: U256::from_u64(12),
        gas_limit: U256::from_u64(21000),
        to: TransactionKind::Call(addr(9)),
        value: U256::from_u128(1000),
        data: vec![1, 2, 3],
    })
}

fn access_list() -> Vec<AccessListItem> {
    vec![AccessListItem {
        address: addr(40),
        storage_keys: vec![B256 { hi: 0, lo: 1 }, B256 { hi: 0, lo: 2 }],
    }]
}

#[test]
fn legacy_env_fields() {
    let mut env = TxEnv::new();
    fill_eth_tx_env(&mut env, &legacy_essence(), addr(7));
    assert_eq!(env.caller, addr(7));
    assert_eq!(env.gas_limit, 21000);
    assert_eq!(env.gas_price, U256::from_u64(12));
    assert_eq!(env.gas_priority_fee, None);
    assert_eq!(env.transact_to, TransactTo::Call(addr(9)));
    assert_eq!(env.value, U256::from_u128(1000));
    assert_eq!(env.data, vec![1, 2, 3]);
    assert_eq!(env.chain_id, Some(5));
    assert_eq!(env.nonce, Some(3));
    assert!(env.access_list.is_empty());
}

#[test]
fn access_list_env_fields() {
    let essence = EthereumTxEssence::Eip2930(TxEssenceEip2930 {
        chain_id: 5,
        nonce: 1,
        gas_price: U256::from_u64(15),
        gas_limit: U256::from_u64(50000),
        to: TransactionKind::Call(addr(9)),
        value: U256::zero(),
        data: vec![],
        access_list: access_list(),
    });
    let mut env = TxEnv::new();
    fill_eth_tx_env(&mut env, &essence, addr(7));
    assert_eq!(env.gas_price, U256::from_u64(15));
    assert_eq!(env.gas_priority_fee, None);
    // mandatory chain id, carried access list
    assert_eq!(env.chain_id, Some(5));
    assert_eq!(env.access_list, access_list());
}

#[test]
fn dynamic_fee_env_fields() {
    let essence = EthereumTxEssence::Eip1559(TxEssenceEip1559 {
        chain_id: 5,
        nonce: 2,
        max_priority_fee_per_gas: U256::from_u64(2),
        max_fee_per_gas: U256::from_u64(20),
        gas_limit: U256::from_u64(60000),
        to: TransactionKind::Create,
        value: U256::zero(),
        data: vec![0xfe],
        access_list: access_list(),
    });
    let mut env = TxEnv::new();
    fill_eth_tx_env(&mut env, &essence, addr(7));
    // priced by the max fee, priority fee carried
    assert_eq!(env.gas_price, U256::from_u64(20));
    assert_eq!(env.gas_priority_fee, Some(U256::from_u64(2)));
    assert_eq!(env.transact_to, TransactTo::Create);
    assert_eq!(env.chain_id, Some(5));
    assert_eq!(env.access_list, access_list());
}

#[test]
fn deposit_env_fields() {
    let deposit = TxEssenceDeposited {
        source_hash: B256 { hi: 1, lo: 2 },
        from: addr(30),
        to: TransactionKind::Call(addr(31)),
        mint: U256::zero(),
        value: U256::from_u128(500),
        gas_limit: U256::from_u64(21000),
        is_system_tx: false,
        data: vec![],
    };
    let mut env = TxEnv::new();
    fill_deposit_tx_env(&mut env, &deposit, addr(30), Some(4));
    // zero gas price, no chain id, the externally supplied deposit nonce
    assert_eq!(env.caller, addr(30));
    assert_eq!(env.gas_price, U256::zero());
    assert_eq!(env.gas_priority_fee, None);
    assert_eq!(env.chain_id, None);
    assert_eq!(env.nonce, Some(4));
    assert!(env.access_list.is_empty());
}

#[test]
fn building_twice_yields_identical_environments() {
    let essence = legacy_essence();
    let mut env1 = TxEnv::new();
    let mut env2 = TxEnv::new();
    fill_eth_tx_env(&mut env1, &essence, addr(7));
    fill_eth_tx_env(&mut env2, &essence, addr(7));
    assert_eq!(env1, env2);

    let deposit = TxEssenceDeposited {
        source_hash: B256::zero(),
        from: addr(30),
        to: TransactionKind::Call(addr(31)),
        mint: U256::zero(),
        value: U256::from_u128(500),
        gas_limit: U256::from_u64(21000),
        is_system_tx: false,
        data: vec![9, 9],
    };
    let mut env3 = TxEnv::new();
    let mut env4 = TxEnv::new();
    fill_deposit_tx_env(&mut env3, &deposit, addr(30), Some(0));
    fill_deposit_tx_env(&mut env4, &deposit, addr(30), Some(0));
    assert_eq!(env3, env4);
}
