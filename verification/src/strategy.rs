//! The transaction-execution strategy: a strictly sequential state machine
//! that applies a block's transactions to the execution database, variant by
//! chain (plain, deposit-augmented, anchor-augmented).

use vstd::prelude::*;

use crate::anchor::{is_anchor_call, spec_is_anchor_call};
use crate::error::Error;
use crate::exec_db::{
    balances_bounded, credit_ok, credited, debit_ok, debited, lemma_entries_balances_bounded,
    model_at, AccountModel, AccountState, ExecDb,
};
use crate::exec_db::{decrease_account_balance, increase_account_balance};
use crate::transactions::{Transaction, TxEssence};
use crate::tx_env::{deposit_env_of, eth_env_of, fill_eth_tx_env, fill_deposit_tx_env, TransactTo, TxEnv};
use crate::types::Address;
use crate::u256::pow2_256;

verus! {

/// The per-chain execution variant, selected once at orchestration time.
#[derive(Clone, Copy, Debug, PartialEq, Eq, Structural)]
pub enum ExecutionStrategy {
    /// Signed base-chain transactions only.
    Plain,
    /// Signed transactions plus protocol deposits that mint value.
    DepositAugmented,
    /// Signed transactions, the first of which must be the anchor call.
    AnchorAugmented,
}

/// The state after raising an account's nonce by one; everything else is
/// kept.
pub open spec fn bump_nonce(m: Map<Address, AccountModel>, a: Address) -> Map<
    Address,
    AccountModel,
> {
    let prior = model_at(m, a);
    m.insert(
        a,
        AccountModel {
            balance: prior.balance,
            nonce: (prior.nonce + 1) as u64,
            code_hash: prior.code_hash,
            storage_root: prior.storage_root,
            touched: prior.touched,
        },
    )
}

/// A symmetric value transfer from `caller`: the declared nonce must match,
/// the balance must cover the value, the sender is debited and its nonce
/// raised, the recipient credited. Contract creation is not supported by
/// these replay strategies, since the created address is derived outside
/// this state model.
pub open spec fn apply_call_transfer(
    m: Map<Address, AccountModel>,
    caller: Address,
    to: TransactTo,
    value: nat,
    declared_nonce: Option<u64>,
) -> Result<Map<Address, AccountModel>, Error> {
    let sender = model_at(m, caller);
    let nonce_ok = match declared_nonce {
        Some(n) => n == sender.nonce,
        None => true,
    };
    match to {
        TransactTo::Create => Err(Error::InvalidTransaction),
        TransactTo::Call(to_addr) => if !nonce_ok {
            Err(Error::InvalidTransaction)
        } else if sender.nonce == u64::MAX {
            Err(Error::InvalidTransaction)
        } else if sender.balance < value {
            Err(Error::InvalidTransaction)
        } else {
            let m2 = bump_nonce(debited(m, caller, value), caller);
            if !credit_ok(m2, to_addr, value) {
                Err(Error::ArithmeticInvariantViolation)
            } else {
                Ok(credited(m2, to_addr, value))
            }
        },
    }
}

/// A protocol mint: the recipient is credited with no sender precondition.
pub open spec fn apply_mint(m: Map<Address, AccountModel>, to: TransactTo, value: nat) -> Result<
    Map<Address, AccountModel>,
    Error,
> {
    match to {
        TransactTo::Create => Err(Error::InvalidTransaction),
        TransactTo::Call(to_addr) => if !credit_ok(m, to_addr, value) {
            Err(Error::ArithmeticInvariantViolation)
        } else {
            Ok(credited(m, to_addr, value))
        },
    }
}

/// One step of the strategy: the next state and deposit counter, or the
/// fatal error that aborts the block.
pub open spec fn apply_tx(
    m: Map<Address, AccountModel>,
    tx: Transaction,
    strategy: ExecutionStrategy,
    is_first: bool,
    counter: u64,
) -> Result<(Map<Address, AccountModel>, u64), Error> {
    match tx.essence {
        TxEssence::Ethereum(e) => {
            if strategy == ExecutionStrategy::AnchorAugmented && is_first && !spec_is_anchor_call(
                e.spec_data(),
            ) {
                Err(Error::InvalidTransaction)
            } else if e.spec_gas_limit() > u64::MAX {
                Err(Error::InvalidTransaction)
            } else {
                let env = eth_env_of(e, tx.caller);
                match apply_call_transfer(m, env.caller, env.transact_to, env.value.as_nat(), env.nonce) {
                    Ok(m2) => Ok((m2, counter)),
                    Err(err) => Err(err),
                }
            }
        },
        TxEssence::Deposit(d) => {
            if strategy != ExecutionStrategy::DepositAugmented {
                Err(Error::InvalidTransaction)
            } else if d.gas_limit.as_nat() > u64::MAX {
                Err(Error::InvalidTransaction)
            } else if counter == u64::MAX {
                Err(Error::InvalidTransaction)
            } else {
                let env = deposit_env_of(d, tx.caller, Some(counter));
                match apply_mint(m, env.transact_to, env.value.as_nat()) {
                    Ok(m2) => Ok((m2, (counter + 1) as u64)),
                    Err(err) => Err(err),
                }
            }
        },
    }
}

/// Sequential replay from transaction `i` on: transaction i's committed
/// state is the precondition of transaction i+1.
pub open spec fn replay_from(
    m: Map<Address, AccountModel>,
    txs: Seq<Transaction>,
    strategy: ExecutionStrategy,
    i: int,
    counter: u64,
) -> Result<Map<Address, AccountModel>, Error>
    decreases txs.len() - i,
{
    if i < 0 || i >= txs.len() {
        Ok(m)
    } else {
        match apply_tx(m, txs[i], strategy, i == 0, counter) {
            Ok(step) => replay_from(step.0, txs, strategy, i + 1, step.1),
            Err(e) => Err(e),
        }
    }
}

/// The full replay of a transaction list: an anchor-augmented block must
/// start with its anchor transaction, so an empty list is invalid there.
pub open spec fn replay(
    m: Map<Address, AccountModel>,
    txs: Seq<Transaction>,
    strategy: ExecutionStrategy,
) -> Result<Map<Address, AccountModel>, Error> {
    if strategy == ExecutionStrategy::AnchorAugmented && txs.len() == 0 {
        Err(Error::InvalidTransaction)
    } else {
        replay_from(m, txs, strategy, 0, 0)
    }
}

/// Execute one transaction against the database. On an error the database
/// is left exactly as it was.
fn process_tx(
    db: &mut ExecDb,
    strategy: ExecutionStrategy,
    tx: &Transaction,
    is_first: bool,
    counter: u64,
) -> (r: Result<u64, Error>)
    requires
        old(db).wf(),
    ensures
        final(db).wf(),
        match r {
            Ok(c2) => apply_tx(old(db).view(), *tx, strategy, is_first, counter) == Ok::<
                (Map<Address, AccountModel>, u64),
                Error,
            >((final(db).view(), c2)),
            Err(e) => apply_tx(old(db).view(), *tx, strategy, is_first, counter) == Err::<
                (Map<Address, AccountModel>, u64),
                Error,
            >(e) && final(db).view() == old(db).view(),
        },
{
    proof {
        lemma_entries_balances_bounded(db.accounts@);
    }
    match &tx.essence {
        TxEssence::Ethereum(e) => {
            if strategy == ExecutionStrategy::AnchorAugmented && is_first && !is_anchor_call(
                e.data(),
            ) {
                return Err(Error::InvalidTransaction);
            }
            if !e.gas_limit().fits_u64() {
                return Err(Error::InvalidTransaction);
            }
            let mut env = TxEnv::new();
            fill_eth_tx_env(&mut env, e, tx.caller);
            let caller = env.caller;
            let value = env.value;
            let to_addr = match env.transact_to {
                TransactTo::Create => {
                    return Err(Error::InvalidTransaction);
                },
                TransactTo::Call(a) => a,
            };
            let sender = match db.basic(caller) {
                Some(acct) => acct,
                None => AccountState::empty(),
            };
            let nonce_ok = match env.nonce {
                Some(n) => n == sender.nonce,
                None => true,
            };
            if !nonce_ok {
                return Err(Error::InvalidTransaction);
            }
            if sender.nonce == u64::MAX {
                return Err(Error::InvalidTransaction);
            }
            if sender.balance.lt(value) {
                return Err(Error::InvalidTransaction);
            }
            let ghost m0 = db.view();
            let ghost m2 = bump_nonce(debited(m0, caller, value.as_nat()), caller);
            if to_addr == caller {
                proof {
                    assert(model_at(m2, caller).balance + value.as_nat() == model_at(
                        m0,
                        caller,
                    ).balance);
                    assert(credit_ok(m2, to_addr, value.as_nat()));
                }
            } else {
                let recipient = match db.basic(to_addr) {
                    Some(acct) => acct,
                    None => AccountState::empty(),
                };
                if recipient.balance.checked_add(value).is_none() {
                    proof {
                        assert(!credit_ok(m2, to_addr, value.as_nat()));
                    }
                    return Err(Error::ArithmeticInvariantViolation);
                }
                proof {
                    assert(credit_ok(m2, to_addr, value.as_nat()));
                }
            }
            let debit_result = decrease_account_balance(db, caller, value);
            proof {
                assert(debit_result == Ok::<(), Error>(()));
                assert(db.view() == debited(m0, caller, value.as_nat()));
            }
            let bumped = match db.basic(caller) {
                Some(acct) => acct,
                None => {
                    proof {
                        assert(false);
                    }
                    AccountState::empty()
                },
            };
            db.commit(
                caller,
                AccountState {
                    balance: bumped.balance,
                    nonce: bumped.nonce + 1,
                    code_hash: bumped.code_hash,
                    storage_root: bumped.storage_root,
                    touched: bumped.touched,
                },
            );
            proof {
                assert(db.view() == m2);
            }
            let credit_result = increase_account_balance(db, to_addr, value);
            proof {
                assert(credit_result == Ok::<(), Error>(()));
                assert(db.view() == credited(m2, to_addr, value.as_nat()));
            }
            Ok(counter)
        },
        TxEssence::Deposit(d) => {
            if strategy != ExecutionStrategy::DepositAugmented {
                return Err(Error::InvalidTransaction);
            }
            if !d.gas_limit.fits_u64() {
                return Err(Error::InvalidTransaction);
            }
            if counter == u64::MAX {
                return Err(Error::InvalidTransaction);
            }
            let mut env = TxEnv::new();
            fill_deposit_tx_env(&mut env, d, tx.caller, Some(counter));
            let value = env.value;
            let to_addr = match env.transact_to {
                TransactTo::Create => {
                    return Err(Error::InvalidTransaction);
                },
                TransactTo::Call(a) => a,
            };
            let recipient = match db.basic(to_addr) {
                Some(acct) => acct,
                None => AccountState::empty(),
            };
            if recipient.balance.checked_add(value).is_none() {
                proof {
                    assert(!credit_ok(db.view(), to_addr, value.as_nat()));
                }
                return Err(Error::ArithmeticInvariantViolation);
            }
            let credit_result = increase_account_balance(db, to_addr, value);
            proof {
                assert(credit_result == Ok::<(), Error>(()));
            }
            Ok(counter + 1)
        },
    }
}

/// Apply a transaction list to the database, strictly in order. On success
/// the returned database holds exactly the replayed state; on an error the
/// database is consumed and no partial state is handed back.
#[verifier::loop_isolation(false)]
pub fn execute_transactions(
    db: ExecDb,
    strategy: ExecutionStrategy,
    txs: &Vec<Transaction>,
) -> (r: Result<ExecDb, Error>)
    requires
        db.wf(),
    ensures
        match r {
            Ok(db2) => db2.wf() && replay(db.view(), txs@, strategy) == Ok::<
                Map<Address, AccountModel>,
                Error,
            >(db2.view()),
            Err(e) => replay(db.view(), txs@, strategy) == Err::<
                Map<Address, AccountModel>,
                Error,
            >(e),
        },
{
    let ghost v0 = db.view();
    if strategy == ExecutionStrategy::AnchorAugmented && txs.len() == 0 {
        return Err(Error::InvalidTransaction);
    }
    let mut db = db;
    let mut counter: u64 = 0;
    let mut i: usize = 0;
    let n = txs.len();
    while i < n
        invariant
            n == txs@.len(),
            i <= n,
            db.wf(),
            replay_from(v0, txs@, strategy, 0, 0) == replay_from(
                db.view(),
                txs@,
                strategy,
                i as int,
                counter,
            ),
        decreases n - i,
    {
        let is_first = i == 0;
        let tx = &txs[i];
        let ghost m_pre = db.view();
        match process_tx(&mut db, strategy, tx, is_first, counter) {
            Ok(c2) => {
                counter = c2;
            },
            Err(e) => {
                proof {
                    assert(replay_from(m_pre, txs@, strategy, i as int, counter) == Err::<
                        Map<Address, AccountModel>,
                        Error,
                    >(e));
                }
                return Err(e);
            },
        }
        i = i + 1;
    }
    Ok(db)
}

/// Replaying a fixed transaction list against a fixed starting state is
/// deterministic: any two replays produce the same outcome, balances and
/// nonces included.
pub proof fn lemma_replay_deterministic(
    m: Map<Address, AccountModel>,
    txs: Seq<Transaction>,
    strategy: ExecutionStrategy,
    r1: Result<Map<Address, AccountModel>, Error>,
    r2: Result<Map<Address, AccountModel>, Error>,
)
    requires
        r1 == replay(m, txs, strategy),
        r2 == replay(m, txs, strategy),
    ensures
        r1 == r2,
{
}

/// A deposit needs no sender-balance precondition: whenever the credited
/// amount stays representable, the mint succeeds, whatever any sender's
/// account holds.
pub proof fn lemma_mint_needs_no_sender_balance(
    m: Map<Address, AccountModel>,
    to_addr: Address,
    value: nat,
)
    requires
        credit_ok(m, to_addr, value),
    ensures
        apply_mint(m, TransactTo::Call(to_addr), value) == Ok::<
            Map<Address, AccountModel>,
            Error,
        >(credited(m, to_addr, value)),
{
}

/// An ordinary value transfer does require sender balance: a sender whose
/// balance does not cover the value is rejected as invalid.
pub proof fn lemma_transfer_requires_sender_balance(
    m: Map<Address, AccountModel>,
    caller: Address,
    to_addr: Address,
    value: nat,
    declared_nonce: Option<u64>,
)
    requires
        model_at(m, caller).balance < value,
    ensures
        apply_call_transfer(m, caller, TransactTo::Call(to_addr), value, declared_nonce) is Err,
{
}

} // verus!
