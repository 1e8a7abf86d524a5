//! Transaction essences: the tagged variants a replayed block may contain.

use vstd::prelude::*;

use crate::types::{Address, B256};
use crate::u256::U256;

verus! {

/// The destination of a transaction: a call to an existing account or the
/// creation of a new one.
#[derive(Clone, Copy, Debug, PartialEq, Eq, Structural)]
pub enum TransactionKind {
    Call(Address),
    Create,
}

/// One entry of an access list: an address and the storage keys warmed for it.
#[derive(Clone, Debug, PartialEq, Eq)]
pub struct AccessListItem {
    pub address: Address,
    pub storage_keys: Vec<B256>,
}

/// A pre-fork transaction priced by a flat gas price.
#[derive(Clone, Debug, PartialEq, Eq)]
pub struct TxEssenceLegacy {
    pub chain_id: Option<u64>,
    pub nonce: u64,
    pub gas_price: U256,
    pub gas_limit: U256,
    pub to: TransactionKind,
    pub value: U256,
    pub data: Vec<u8>,
}

/// An access-list transaction: flat gas price, mandatory chain id,
/// carried access list.
#[derive(Clone, Debug, PartialEq, Eq)]
pub struct TxEssenceEip2930 {
    pub chain_id: u64,
    pub nonce: u64,
    pub gas_price: U256,
    pub gas_limit: U256,
    pub to: TransactionKind,
    pub value: U256,
    pub data: Vec<u8>,
    pub access_list: Vec<AccessListItem>,
}

/// A dynamic-fee transaction: max fee and max priority fee,
/// mandatory chain id, carried access list.
#[derive(Clone, Debug, PartialEq, Eq)]
pub struct TxEssenceEip1559 {
    pub chain_id: u64,
    pub nonce: u64,
    pub max_priority_fee_per_gas: U256,
    pub max_fee_per_gas: U256,
    pub gas_limit: U256,
    pub to: TransactionKind,
    pub value: U256,
    pub data: Vec<u8>,
    pub access_list: Vec<AccessListItem>,
}

/// The signed transaction kinds of the base chain.
#[derive(Clone, Debug, PartialEq, Eq)]
pub enum EthereumTxEssence {
    Legacy(TxEssenceLegacy),
    Eip2930(TxEssenceEip2930),
    Eip1559(TxEssenceEip1559),
}

/// A protocol-level deposit: mints value for a recipient without a signed
/// sender debit; the caller comes from a protocol field, not from signature
/// recovery.
#[derive(Clone, Debug, PartialEq, Eq)]
pub struct TxEssenceDeposited {
    pub source_hash: B256,
    pub from: Address,
    pub to: TransactionKind,
    pub mint: U256,
    pub value: U256,
    pub gas_limit: U256,
    pub is_system_tx: bool,
    pub data: Vec<u8>,
}

/// A transaction essence of any supported kind.
#[derive(Clone, Debug, PartialEq, Eq)]
pub enum TxEssence {
    Ethereum(EthereumTxEssence),
    Deposit(TxEssenceDeposited),
}

/// A transaction ready for replay: its essence, the caller established at
/// the boundary (signature recovery for signed kinds, the protocol field
/// for deposits), and its hash.
#[derive(Clone, Debug, PartialEq, Eq)]
pub struct Transaction {
    pub essence: TxEssence,
    pub caller: Address,
    pub hash: B256,
}

impl EthereumTxEssence {
    /// The declared gas limit, as a mathematical value.
    pub open spec fn spec_gas_limit(self) -> nat {
        match self {
            EthereumTxEssence::Legacy(tx) => tx.gas_limit.as_nat(),
            EthereumTxEssence::Eip2930(tx) => tx.gas_limit.as_nat(),
            EthereumTxEssence::Eip1559(tx) => tx.gas_limit.as_nat(),
        }
    }

    /// The call data of the essence.
    pub open spec fn spec_data(self) -> Seq<u8> {
        match self {
            EthereumTxEssence::Legacy(tx) => tx.data@,
            EthereumTxEssence::Eip2930(tx) => tx.data@,
            EthereumTxEssence::Eip1559(tx) => tx.data@,
        }
    }

    /// The declared gas limit.
    pub fn gas_limit(&self) -> (r: U256)
        ensures
            r.as_nat() == self.spec_gas_limit(),
    {
        match self {
            EthereumTxEssence::Legacy(tx) => tx.gas_limit,
            EthereumTxEssence::Eip2930(tx) => tx.gas_limit,
            EthereumTxEssence::Eip1559(tx) => tx.gas_limit,
        }
    }

    /// The call data of the essence.
    pub fn data(&self) -> (r: &Vec<u8>)
        ensures
            r@ == self.spec_data(),
    {
        match self {
            EthereumTxEssence::Legacy(tx) => &tx.data,
            EthereumTxEssence::Eip2930(tx) => &tx.data,
            EthereumTxEssence::Eip1559(tx) => &tx.data,
        }
    }

    /// The transferred value.
    pub open spec fn spec_value(self) -> U256 {
        match self {
            EthereumTxEssence::Legacy(tx) => tx.value,
            EthereumTxEssence::Eip2930(tx) => tx.value,
            EthereumTxEssence::Eip1559(tx) => tx.value,
        }
    }

    /// The destination.
    pub open spec fn spec_to(self) -> TransactionKind {
        match self {
            EthereumTxEssence::Legacy(tx) => tx.to,
            EthereumTxEssence::Eip2930(tx) => tx.to,
            EthereumTxEssence::Eip1559(tx) => tx.to,
        }
    }

    /// The sender nonce the transaction declares.
    pub open spec fn spec_nonce(self) -> u64 {
        match self {
            EthereumTxEssence::Legacy(tx) => tx.nonce,
            EthereumTxEssence::Eip2930(tx) => tx.nonce,
            EthereumTxEssence::Eip1559(tx) => tx.nonce,
        }
    }
}

} // verus!
