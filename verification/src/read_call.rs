//! The read-only call helper: a synthetic, fee-exempt probe of a system
//! contract whose answer must be exactly one ABI-encoded unsigned integer.

use vstd::prelude::*;

use crate::codec::{be_value, lemma_be_value_bound, pow256, read_be};
use crate::error::Error;
use crate::transactions::{EthereumTxEssence, TransactionKind, TxEssenceLegacy};
use crate::tx_env::{eth_env_of, fill_eth_tx_env, TxEnv};
use crate::types::Address;
use crate::u256::U256;

verus! {

/// Execution switches for the probe: base-fee and balance checks are
/// disabled for this one call only.
#[derive(Clone, Copy, Debug, PartialEq, Eq, Structural)]
pub struct CallSettings {
    pub disable_base_fee: bool,
    pub disable_balance_check: bool,
}

/// How the probe's execution ended: a successful call with its output
/// bytes, a revert, or a halt. Produced by the execution engine at the
/// boundary and judged here.
#[derive(Clone, Debug, PartialEq, Eq)]
pub enum CallOutcome {
    Success(Vec<u8>),
    Reverted,
    Halted,
}

/// The synthetic legacy essence of the probe: zero-priced, zero-valued,
/// nonce zero, calling the probed contract with the given data.
pub open spec fn probe_essence(
    chain_id: Option<u64>,
    gas_limit: U256,
    address: Address,
    abi_call: Vec<u8>,
) -> EthereumTxEssence {
    EthereumTxEssence::Legacy(
        TxEssenceLegacy {
            chain_id,
            nonce: 0,
            gas_price: U256 { lo: 0, hi: 0 },
            gas_limit,
            to: TransactionKind::Call(address),
            value: U256 { lo: 0, hi: 0 },
            data: abi_call,
        },
    )
}

/// Build the environment and settings of the probe: the environment is the
/// one the synthetic essence builds for the zero caller, and both fee
/// exemptions are switched on.
pub fn prepare_read_uint_call(
    chain_id: Option<u64>,
    gas_limit: U256,
    address: Address,
    abi_call: Vec<u8>,
) -> (r: (TxEnv, CallSettings))
    requires
        gas_limit.as_nat() <= u64::MAX,
    ensures
        r.0.model() == eth_env_of(
            probe_essence(chain_id, gas_limit, address, abi_call),
            Address { hi: 0, lo: 0 },
        ),
        r.1.disable_base_fee,
        r.1.disable_balance_check,
{
    let essence = EthereumTxEssence::Legacy(
        TxEssenceLegacy {
            chain_id,
            nonce: 0,
            gas_price: U256::zero(),
            gas_limit,
            to: TransactionKind::Call(address),
            value: U256::zero(),
            data: abi_call,
        },
    );
    let mut env = TxEnv::new();
    fill_eth_tx_env(&mut env, &essence, Address::zero());
    let settings = CallSettings { disable_base_fee: true, disable_balance_check: true };
    (env, settings)
}

/// The unsigned integer a 32-byte ABI word carries.
pub open spec fn spec_uint_of_word(s: Seq<u8>) -> U256 {
    U256 { hi: be_value(s.subrange(0, 16)) as u128, lo: be_value(s.subrange(16, 32)) as u128 }
}

/// Judge the probe's outcome: exactly a successful call whose output is one
/// 32-byte ABI word yields its integer; every other outcome (a revert, a
/// halt, output of any other shape) is a fatal precondition failure.
pub fn decode_uint_output(outcome: &CallOutcome) -> (r: Result<U256, Error>)
    ensures
        match outcome {
            CallOutcome::Success(out) => if out@.len() == 32 {
                r == Ok::<U256, Error>(spec_uint_of_word(out@))
            } else {
                r == Err::<U256, Error>(Error::DatabaseInconsistency)
            },
            CallOutcome::Reverted => r == Err::<U256, Error>(Error::DatabaseInconsistency),
            CallOutcome::Halted => r == Err::<U256, Error>(Error::DatabaseInconsistency),
        },
{
    match outcome {
        CallOutcome::Success(out) => {
            if out.len() != 32 {
                return Err(Error::DatabaseInconsistency);
            }
            proof {
                lemma_be_value_bound(out@.subrange(0, 16));
                lemma_be_value_bound(out@.subrange(16, 32));
                assert(pow256(16) == 0x1_0000_0000_0000_0000_0000_0000_0000_0000nat) by {
                    reveal_with_fuel(pow256, 17);
                }
            }
            let hi = read_be(out, 0, 16);
            let lo = read_be(out, 16, 16);
            Ok(U256 { hi, lo })
        },
        CallOutcome::Reverted => Err(Error::DatabaseInconsistency),
        CallOutcome::Halted => Err(Error::DatabaseInconsistency),
    }
}

} // verus!
