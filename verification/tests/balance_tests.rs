//! Balance primitives, the 256-bit arithmetic, and the replay scenarios.

use block_replay::error::Error;
use block_replay::exec_db::{
    decrease_account_balance, increase_account_balance, AccountState, ExecDb,
};
use block_replay::strategy::{execute_transactions, ExecutionStrategy};
use block_replay::transactions::{
    Transaction, TransactionKind, TxEssence, TxEssenceDeposited, TxEssenceLegacy,
    EthereumTxEssence,
};
use block_replay::types::{Address, B256};
use block_replay::u256::U256;

fn addr(n: u128) -> Address {
    Address { hi: 0, lo: n }
}

fn account_with_balance(balance: u128) -> AccountState {
    AccountState {
        balance: U256::from_u128(balance),
        nonce: 0,
        code_hash: B256::zero(),
        storage_root: B256::zero(),
        touched: false,
    }
}

#[test]
fn u256_checked_add_basics() {
    let a = U256::from_u128(u128::MAX);
    let b = U256::from_u128(1);
    let sum = a.checked_add(b).unwrap();
    assert_eq!(sum, U256 { lo: 0, hi: 1 });

    let max = U256 { lo: u128::MAX, hi: u128::MAX };
    assert!(max.checked_add(U256::from_u128(1)).is_none());
    assert_eq!(max.checked_add(U256::zero()).unwrap(), max);
}

#[test]
fn u256_checked_sub_basics() {
    let a = U256 { lo: 0, hi: 1 };
    let b = U256::from_u128(1);
    let diff = a.checked_sub(b).unwrap();
    assert_eq!(diff, U256 { lo: u128::MAX, hi: 0 });

    assert!(U256::from_u128(5).checked_sub(U256::from_u128(6)).is_none());
}

#[test]
fn u256_agrees_with_reference_implementation() {
    let samples: Vec<(u128, u128, u128, u128)> = vec![
        (0, 0, 1, 0),
        (u128::MAX, 0, 1, 0),
        (u128::MAX, u128::MAX, u128::MAX, u128::MAX),
        (12345678901234567890, 7, 98765432109876543210, 11),
        (0, u128::MAX, u128::MAX, 0),
    ];
    for (alo, ahi, blo, bhi) in samples {
        let a = U256 { lo: alo, hi: ahi };
        let b = U256 { lo: blo, hi: bhi };
        let ra = ruint::aliases::U256::from_limbs([
            alo as u64,
            (alo >> 64) as u64,
            ahi as u64,
            (ahi >> 64) as u64,
        ]);
        let rb = ruint::aliases::U256::from_limbs([
            blo as u64,
            (blo >> 64) as u64,
            bhi as u64,
            (bhi >> 64) as u64,
        ]);
        match (a.checked_add(b), ra.checked_add(rb)) {
            (Some(s), Some(rs)) => {
                let limbs = rs.as_limbs();
                let lo = (limbs[0] as u128) | ((limbs[1] as u128) << 64);
                let hi = (limbs[2] as u128) | ((limbs[3] as u128) << 64);
                assert_eq!(s, U256 { lo, hi });
            }
            (None, None) => {}
            _ => panic!("checked_add disagrees with the reference"),
        }
        match (a.checked_sub(b), ra.checked_sub(rb)) {
            (Some(s), Some(rs)) => {
                let limbs = rs.as_limbs();
                let lo = (limbs[0] as u128) | ((limbs[1] as u128) << 64);
                let hi = (limbs[2] as u128) | ((limbs[3] as u128) << 64);
                assert_eq!(s, U256 { lo, hi });
            }
            (None, None) => {}
            _ => panic!("checked_sub disagrees with the reference"),
        }
    }
}

#[test]
fn increase_marks_touched_even_without_change() {
    let mut db = ExecDb::from_accounts(vec![(addr(1), account_with_balance(100))]);
    assert_eq!(increase_account_balance(&mut db, addr(1), U256::zero()), Ok(()));
    let acct = db.basic(addr(1)).unwrap();
    assert_eq!(acct.balance, U256::from_u128(100));
    assert!(acct.touched);
}

#[test]
fn increase_overflow_is_fatal() {
    let mut db = ExecDb::from_accounts(vec![(
        addr(1),
        AccountState {
            balance: U256 { lo: u128::MAX, hi: u128::MAX },
            nonce: 0,
            code_hash: B256::zero(),
            storage_root: B256::zero(),
            touched: false,
        },
    )]);
    assert_eq!(
        increase_account_balance(&mut db, addr(1), U256::from_u128(1)),
        Err(Error::ArithmeticInvariantViolation)
    );
    // the state is unchanged
    let acct = db.basic(addr(1)).unwrap();
    assert_eq!(acct.balance, U256 { lo: u128::MAX, hi: u128::MAX });
    assert!(!acct.touched);
}

#[test]
fn decrease_underflow_is_fatal_never_negative() {
    let mut db = ExecDb::from_accounts(vec![(addr(1), account_with_balance(100))]);
    assert_eq!(
        decrease_account_balance(&mut db, addr(1), U256::from_u128(101)),
        Err(Error::ArithmeticInvariantViolation)
    );
    let acct = db.basic(addr(1)).unwrap();
    assert_eq!(acct.balance, U256::from_u128(100));
}

#[test]
fn decrease_within_balance_succeeds() {
    let mut db = ExecDb::from_accounts(vec![(addr(1), account_with_balance(100))]);
    assert_eq!(decrease_account_balance(&mut db, addr(1), U256::from_u128(40)), Ok(()));
    let acct = db.basic(addr(1)).unwrap();
    assert_eq!(acct.balance, U256::from_u128(60));
    assert!(acct.touched);
}

fn deposit_tx(to: Address, value: u128, caller: Address) -> Transaction {
    Transaction {
        essence: TxEssence::Deposit(TxEssenceDeposited {
            source_hash: B256::zero(),
            from: caller,
            to: TransactionKind::Call(to),
            mint: U256::zero(),
            value: U256::from_u128(value),
            gas_limit: U256::from_u64(21000),
            is_system_tx: false,
            data: Vec::new(),
        }),
        caller,
        hash: B256::zero(),
    }
}

fn legacy_transfer(from: Address, to: Address, value: u128, nonce: u64) -> Transaction {
    Transaction {
        essence: TxEssence::Ethereum(EthereumTxEssence::Legacy(TxEssenceLegacy {
            chain_id: None,
            nonce,
            gas_price: U256::zero(),
            gas_limit: U256::from_u64(21000),
            to: TransactionKind::Call(to),
            value: U256::from_u128(value),
            data: Vec::new(),
        })),
        caller: from,
        hash: B256::zero(),
    }
}

#[test]
fn deposit_credits_without_debiting_a_sender() {
    // account X starts at 100; a deposit credits X by 50
    let x = addr(10);
    let sender = addr(99);
    let db = ExecDb::from_accounts(vec![
        (x, account_with_balance(100)),
        (sender, account_with_balance(7)),
    ]);
    let txs = vec![deposit_tx(x, 50, sender)];
    let db2 = execute_transactions(db, ExecutionStrategy::DepositAugmented, &txs).unwrap();
    let acct = db2.basic(x).unwrap();
    assert_eq!(acct.balance, U256::from_u128(150));
    assert!(acct.touched);
    // no sender was debited
    let s = db2.basic(sender).unwrap();
    assert_eq!(s.balance, U256::from_u128(7));
}

#[test]
fn legacy_transfer_moves_value_between_accounts() {
    // starting from the deposit's result, a legacy transaction moves 30 X -> Y
    let x = addr(10);
    let y = addr(11);
    let sender = addr(99);
    let db = ExecDb::from_accounts(vec![
        (x, account_with_balance(100)),
        (sender, account_with_balance(7)),
    ]);
    let txs = vec![deposit_tx(x, 50, sender), legacy_transfer(x, y, 30, 0)];
    let db2 = execute_transactions(db, ExecutionStrategy::DepositAugmented, &txs).unwrap();
    assert_eq!(db2.basic(x).unwrap().balance, U256::from_u128(120));
    assert_eq!(db2.basic(y).unwrap().balance, U256::from_u128(30));
    assert_eq!(db2.basic(x).unwrap().nonce, 1);
}

#[test]
fn transfer_with_insufficient_balance_aborts() {
    let x = addr(10);
    let y = addr(11);
    let db = ExecDb::from_accounts(vec![(x, account_with_balance(10))]);
    let txs = vec![legacy_transfer(x, y, 30, 0)];
    let r = execute_transactions(db, ExecutionStrategy::Plain, &txs);
    assert!(matches!(r, Err(Error::InvalidTransaction)));
}

#[test]
fn transfer_with_wrong_nonce_aborts() {
    let x = addr(10);
    let y = addr(11);
    let db = ExecDb::from_accounts(vec![(x, account_with_balance(100))]);
    let txs = vec![legacy_transfer(x, y, 30, 5)];
    let r = execute_transactions(db, ExecutionStrategy::Plain, &txs);
    assert!(matches!(r, Err(Error::InvalidTransaction)));
}

#[test]
fn plain_strategy_rejects_deposits() {
    let x = addr(10);
    let db = ExecDb::from_accounts(vec![(x, account_with_balance(100))]);
    let txs = vec![deposit_tx(x, 50, addr(99))];
    let r = execute_transactions(db, ExecutionStrategy::Plain, &txs);
    assert!(matches!(r, Err(Error::InvalidTransaction)));
}

#[test]
fn replay_is_deterministic_across_runs() {
    let x = addr(10);
    let y = addr(11);
    let accounts = vec![(x, account_with_balance(100)), (y, account_with_balance(3))];
    let txs = vec![
        deposit_tx(x, 50, addr(99)),
        legacy_transfer(x, y, 30, 0),
        legacy_transfer(y, x, 1, 0),
    ];
    let mut balances = Vec::new();
    for _ in 0..3 {
        let db = ExecDb::from_accounts(accounts.clone());
        let db2 = execute_transactions(db, ExecutionStrategy::DepositAugmented, &txs).unwrap();
        balances.push((
            db2.basic(x).unwrap().balance,
            db2.basic(y).unwrap().balance,
            db2.basic(x).unwrap().nonce,
            db2.basic(y).unwrap().nonce,
        ));
    }
    assert_eq!(balances[0], balances[1]);
    assert_eq!(balances[1], balances[2]);
    assert_eq!(balances[0].0, U256::from_u128(121));
    assert_eq!(balances[0].1, U256::from_u128(32));
}
