//! Anchor decoding, the anchor-augmented strategy, and the probe decoder.

use block_replay::anchor::{decode_anchor, is_anchor_call};
use block_replay::error::Error;
use block_replay::exec_db::{AccountState, ExecDb};
use block_replay::read_call::{decode_uint_output, prepare_read_uint_call, CallOutcome};
use block_replay::strategy::{execute_transactions, ExecutionStrategy};
use block_replay::transactions::{
    EthereumTxEssence, Transaction, TransactionKind, TxEssence, TxEssenceLegacy,
};
use block_replay::types::{Address, B256};
use block_replay::u256::U256;

fn addr(n: u128) -> Address {
    Address { hi: 0, lo: n }
}

fn anchor_data() -> Vec<u8> {
    let mut data = vec![0u8; 132];
    data[0] = 0xda;
    data[1] = 0x69;
    data[2] = 0xd3;
    data[3] = 0xdb;
    // l1Hash: distinctive bytes at both ends of the word
    data[4] = 0x11;
    data[35] = 0x22;
    // l1SignalRoot
    data[36] = 0x33;
    data[67] = 0x44;
    // l1Height = 0x0102030405060708 (word bytes 92..100)
    for (k, b) in (92..100).zip(1u8..=8u8) {
        data[k] = b;
    }
    // parentGasUsed = 0x0a0b0c0d (word bytes 128..132)
    data[128] = 0x0a;
    data[129] = 0x0b;
    data[130] = 0x0c;
    data[131] = 0x0d;
    data
}

#[test]
fn selector_matches_the_function_signature_hash() {
    let digest = alloy_primitives::keccak256(b"anchor(bytes32,bytes32,uint64,uint32)");
    assert_eq!(&digest[0..4], &[0xda, 0x69, 0xd3, 0xdb]);
}

fn legacy_with_data(data: Vec<u8>) -> EthereumTxEssence {
    EthereumTxEssence::Legacy(TxEssenceLegacy {
        chain_id: None,
        nonce: 0,
        gas_price: U256::zero(),
        gas_limit: U256::from_u64(180000),
        to: TransactionKind::Call(addr(77)),
        value: U256::zero(),
        data,
    })
}

#[test]
fn decode_anchor_reads_every_field() {
    let call = decode_anchor(legacy_with_data(anchor_data())).unwrap();
    assert_eq!(call.l1_hash.hi >> 120, 0x11);
    assert_eq!(call.l1_hash.lo & 0xff, 0x22);
    assert_eq!(call.l1_signal_root.hi >> 120, 0x33);
    assert_eq!(call.l1_signal_root.lo & 0xff, 0x44);
    assert_eq!(call.l1_height, 0x0102030405060708);
    assert_eq!(call.parent_gas_used, 0x0a0b0c0d);
}

#[test]
fn decode_anchor_rejects_malformed_data() {
    // wrong length
    assert_eq!(
        decode_anchor(legacy_with_data(vec![0xda, 0x69, 0xd3, 0xdb])),
        Err(Error::InvalidTransaction)
    );
    // wrong selector
    let mut bad = anchor_data();
    bad[0] = 0x00;
    assert_eq!(decode_anchor(legacy_with_data(bad)), Err(Error::InvalidTransaction));
    // nonzero padding in the height word
    let mut bad = anchor_data();
    bad[70] = 1;
    assert_eq!(decode_anchor(legacy_with_data(bad)), Err(Error::InvalidTransaction));
    // nonzero padding in the gas word
    let mut bad = anchor_data();
    bad[101] = 1;
    assert_eq!(decode_anchor(legacy_with_data(bad)), Err(Error::InvalidTransaction));
}

#[test]
fn is_anchor_call_agrees_with_decode() {
    assert!(is_anchor_call(&anchor_data()));
    assert!(!is_anchor_call(&vec![0u8; 132]));
}

fn account_with_balance(balance: u128) -> AccountState {
    AccountState {
        balance: U256::from_u128(balance),
        nonce: 0,
        code_hash: B256::zero(),
        storage_root: B256::zero(),
        touched: false,
    }
}

#[test]
fn anchor_strategy_requires_an_anchor_first() {
    let caller = addr(1);
    let db = ExecDb::from_accounts(vec![(caller, account_with_balance(10))]);
    // a first transaction that is no anchor call
    let plain = Transaction {
        essence: TxEssence::Ethereum(legacy_with_data(vec![])),
        caller,
        hash: B256::zero(),
    };
    let r = execute_transactions(db, ExecutionStrategy::AnchorAugmented, &vec![plain]);
    assert!(matches!(r, Err(Error::InvalidTransaction)));

    // an empty list cannot carry the anchor either
    let db = ExecDb::from_accounts(vec![(caller, account_with_balance(10))]);
    let r = execute_transactions(db, ExecutionStrategy::AnchorAugmented, &Vec::new());
    assert!(matches!(r, Err(Error::InvalidTransaction)));
}

#[test]
fn anchor_strategy_accepts_an_anchor_first() {
    let caller = addr(1);
    let db = ExecDb::from_accounts(vec![(caller, account_with_balance(10))]);
    let anchor = Transaction {
        essence: TxEssence::Ethereum(legacy_with_data(anchor_data())),
        caller,
        hash: B256::zero(),
    };
    let db2 = execute_transactions(db, ExecutionStrategy::AnchorAugmented, &vec![anchor]).unwrap();
    assert_eq!(db2.basic(caller).unwrap().nonce, 1);
}

#[test]
fn probe_environment_is_fee_exempt() {
    let (env, settings) =
        prepare_read_uint_call(Some(1), U256::from_u64(1_000_000), addr(55), vec![0xaa, 0xbb]);
    assert!(settings.disable_base_fee);
    assert!(settings.disable_balance_check);
    assert_eq!(env.gas_price, U256::zero());
    assert_eq!(env.value, U256::zero());
    assert_eq!(env.nonce, Some(0));
    assert_eq!(env.data, vec![0xaa, 0xbb]);
    assert_eq!(env.caller, Address::zero());
}

#[test]
fn probe_output_decodes_exactly_one_word() {
    let mut word = vec![0u8; 32];
    word[31] = 0x2a;
    word[15] = 0x01;
    let v = decode_uint_output(&CallOutcome::Success(word)).unwrap();
    assert_eq!(v.lo, 0x2a);
    assert_eq!(v.hi, 0x01);

    assert_eq!(
        decode_uint_output(&CallOutcome::Success(vec![0u8; 31])),
        Err(Error::DatabaseInconsistency)
    );
    assert_eq!(
        decode_uint_output(&CallOutcome::Success(vec![0u8; 64])),
        Err(Error::DatabaseInconsistency)
    );
    assert_eq!(decode_uint_output(&CallOutcome::Reverted), Err(Error::DatabaseInconsistency));
    assert_eq!(decode_uint_output(&CallOutcome::Halted), Err(Error::DatabaseInconsistency));
}
