//! The execution environment built fresh for every transaction, and the
//! pure builder that fills it from an essence.

use vstd::prelude::*;

use crate::transactions::{
    AccessListItem, EthereumTxEssence, TransactionKind, TxEssenceDeposited,
};
use crate::types::{Address, B256};
use crate::u256::U256;

verus! {

/// The destination of an execution: call an account or create one.
#[derive(Clone, Copy, Debug, PartialEq, Eq, Structural)]
pub enum TransactTo {
    Call(Address),
    Create,
}

/// The canonical per-transaction execution environment.
#[derive(Clone, Debug, PartialEq, Eq)]
pub struct TxEnv {
    pub caller: Address,
    pub gas_limit: u64,
    pub gas_price: U256,
    pub gas_priority_fee: Option<U256>,
    pub transact_to: TransactTo,
    pub value: U256,
    pub data: Vec<u8>,
    pub chain_id: Option<u64>,
    pub nonce: Option<u64>,
    pub access_list: Vec<AccessListItem>,
}

/// The mathematical content of one access-list entry.
#[verifier::ext_equal]
pub struct AccessItemModel {
    pub address: Address,
    pub storage_keys: Seq<B256>,
}

/// The content of an access-list entry.
pub open spec fn item_model(it: AccessListItem) -> AccessItemModel {
    AccessItemModel { address: it.address, storage_keys: it.storage_keys@ }
}

/// The content of a whole access list.
pub open spec fn access_list_model(v: Vec<AccessListItem>) -> Seq<AccessItemModel> {
    v@.map_values(|it: AccessListItem| item_model(it))
}

/// The mathematical content of an execution environment: what the
/// environment builder is specified against.
#[verifier::ext_equal]
pub struct TxEnvModel {
    pub caller: Address,
    pub gas_limit: u64,
    pub gas_price: U256,
    pub gas_priority_fee: Option<U256>,
    pub transact_to: TransactTo,
    pub value: U256,
    pub data: Seq<u8>,
    pub chain_id: Option<u64>,
    pub nonce: Option<u64>,
    pub access_list: Seq<AccessItemModel>,
}

impl TxEnv {
    /// The content of this environment.
    pub open spec fn model(self) -> TxEnvModel {
        TxEnvModel {
            caller: self.caller,
            gas_limit: self.gas_limit,
            gas_price: self.gas_price,
            gas_priority_fee: self.gas_priority_fee,
            transact_to: self.transact_to,
            value: self.value,
            data: self.data@,
            chain_id: self.chain_id,
            nonce: self.nonce,
            access_list: access_list_model(self.access_list),
        }
    }

    /// A fresh all-default environment, the starting point before a fill.
    pub fn new() -> (r: TxEnv)
        ensures
            r.model() == (TxEnvModel {
                caller: Address { hi: 0, lo: 0 },
                gas_limit: 0,
                gas_price: U256 { lo: 0, hi: 0 },
                gas_priority_fee: None,
                transact_to: TransactTo::Create,
                value: U256 { lo: 0, hi: 0 },
                data: Seq::empty(),
                chain_id: None,
                nonce: None,
                access_list: Seq::empty(),
            }),
    {
        TxEnv {
            caller: Address::zero(),
            gas_limit: 0,
            gas_price: U256::zero(),
            gas_priority_fee: None,
            transact_to: TransactTo::Create,
            value: U256::zero(),
            data: Vec::new(),
            chain_id: None,
            nonce: None,
            access_list: Vec::new(),
        }
    }
}

/// The destination an essence's target maps to.
pub open spec fn transact_to_of(kind: TransactionKind) -> TransactTo {
    match kind {
        TransactionKind::Call(addr) => TransactTo::Call(addr),
        TransactionKind::Create => TransactTo::Create,
    }
}

/// Map an essence target to an execution destination.
pub fn build_transact_to(kind: &TransactionKind) -> (r: TransactTo)
    ensures
        r == transact_to_of(*kind),
{
    match kind {
        TransactionKind::Call(addr) => TransactTo::Call(*addr),
        TransactionKind::Create => TransactTo::Create,
    }
}

/// The environment a signed base-chain essence builds, per kind:
/// legacy takes the flat gas price, no priority fee, optional chain id and a
/// cleared access list; the access-list kind adds a mandatory chain id and
/// carries its list; the dynamic-fee kind prices by max fee, carries the max
/// priority fee, a mandatory chain id and its list.
pub open spec fn eth_env_of(essence: EthereumTxEssence, caller: Address) -> TxEnvModel {
    match essence {
        EthereumTxEssence::Legacy(tx) => TxEnvModel {
            caller,
            gas_limit: tx.gas_limit.as_nat() as u64,
            gas_price: tx.gas_price,
            gas_priority_fee: None,
            transact_to: transact_to_of(tx.to),
            value: tx.value,
            data: tx.data@,
            chain_id: tx.chain_id,
            nonce: Some(tx.nonce),
            access_list: Seq::empty(),
        },
        EthereumTxEssence::Eip2930(tx) => TxEnvModel {
            caller,
            gas_limit: tx.gas_limit.as_nat() as u64,
            gas_price: tx.gas_price,
            gas_priority_fee: None,
            transact_to: transact_to_of(tx.to),
            value: tx.value,
            data: tx.data@,
            chain_id: Some(tx.chain_id),
            nonce: Some(tx.nonce),
            access_list: access_list_model(tx.access_list),
        },
        EthereumTxEssence::Eip1559(tx) => TxEnvModel {
            caller,
            gas_limit: tx.gas_limit.as_nat() as u64,
            gas_price: tx.max_fee_per_gas,
            gas_priority_fee: Some(tx.max_priority_fee_per_gas),
            transact_to: transact_to_of(tx.to),
            value: tx.value,
            data: tx.data@,
            chain_id: Some(tx.chain_id),
            nonce: Some(tx.nonce),
            access_list: access_list_model(tx.access_list),
        },
    }
}

/// The environment a protocol deposit builds: zero gas price, no priority
/// fee, no chain id, the externally supplied deposit nonce, cleared list.
pub open spec fn deposit_env_of(
    tx: TxEssenceDeposited,
    caller: Address,
    deposit_nonce: Option<u64>,
) -> TxEnvModel {
    TxEnvModel {
        caller,
        gas_limit: tx.gas_limit.as_nat() as u64,
        gas_price: U256 { lo: 0, hi: 0 },
        gas_priority_fee: None,
        transact_to: transact_to_of(tx.to),
        value: tx.value,
        data: tx.data@,
        chain_id: None,
        nonce: deposit_nonce,
        access_list: Seq::empty(),
    }
}

/// Copy an access list, preserving its content.
fn copy_access_list(src: &Vec<AccessListItem>) -> (r: Vec<AccessListItem>)
    ensures
        access_list_model(r) == access_list_model(*src),
{
    let mut r: Vec<AccessListItem> = Vec::new();
    let n = src.len();
    let mut i: usize = 0;
    while i < n
        invariant
            n == src@.len(),
            i <= n,
            r@.len() == i,
            access_list_model(r) =~= access_list_model(*src).take(i as int),
        decreases n - i,
    {
        let ghost prev = r@;
        let it = &src[i];
        let keys: Vec<B256> = it.storage_keys.clone();
        proof {
            assert(keys@ =~= it.storage_keys@);
        }
        r.push(AccessListItem { address: it.address, storage_keys: keys });
        proof {
            assert(item_model(r@[i as int]) =~= item_model(src@[i as int]));
            assert forall|j: int| 0 <= j <= i implies access_list_model(r)[j] == access_list_model(
                *src,
            )[j] by {
                if j < i {
                    assert(r@[j] == prev[j]);
                    assert(access_list_model(*src).take(i as int)[j] == access_list_model(*src)[j]);
                }
            }
            assert(access_list_model(r) =~= access_list_model(*src).take(i + 1));
        }
        i = i + 1;
    }
    proof {
        assert(access_list_model(*src).take(n as int) =~= access_list_model(*src));
    }
    r
}

/// Fill the environment from a signed base-chain essence: pure and total on
/// every essence whose gas limit fits the machine word; the result is exactly
/// `eth_env_of(essence, caller)`.
pub fn fill_eth_tx_env(tx_env: &mut TxEnv, essence: &EthereumTxEssence, caller: Address)
    requires
        essence.spec_gas_limit() <= u64::MAX,
    ensures
        final(tx_env).model() == eth_env_of(*essence, caller),
{
    match essence {
        EthereumTxEssence::Legacy(tx) => {
            tx_env.caller = caller;
            tx_env.gas_limit = tx.gas_limit.to_u64();
            tx_env.gas_price = tx.gas_price;
            tx_env.gas_priority_fee = None;
            tx_env.transact_to = build_transact_to(&tx.to);
            tx_env.value = tx.value;
            tx_env.data = tx.data.clone();
            tx_env.chain_id = tx.chain_id;
            tx_env.nonce = Some(tx.nonce);
            tx_env.access_list = Vec::new();
            proof {
                assert(tx_env.model() =~= eth_env_of(*essence, caller));
            }
        },
        EthereumTxEssence::Eip2930(tx) => {
            tx_env.caller = caller;
            tx_env.gas_limit = tx.gas_limit.to_u64();
            tx_env.gas_price = tx.gas_price;
            tx_env.gas_priority_fee = None;
            tx_env.transact_to = build_transact_to(&tx.to);
            tx_env.value = tx.value;
            tx_env.data = tx.data.clone();
            tx_env.chain_id = Some(tx.chain_id);
            tx_env.nonce = Some(tx.nonce);
            tx_env.access_list = copy_access_list(&tx.access_list);
            proof {
                assert(tx_env.model() =~= eth_env_of(*essence, caller));
            }
        },
        EthereumTxEssence::Eip1559(tx) => {
            tx_env.caller = caller;
            tx_env.gas_limit = tx.gas_limit.to_u64();
            tx_env.gas_price = tx.max_fee_per_gas;
            tx_env.gas_priority_fee = Some(tx.max_priority_fee_per_gas);
            tx_env.transact_to = build_transact_to(&tx.to);
            tx_env.value = tx.value;
            tx_env.data = tx.data.clone();
            tx_env.chain_id = Some(tx.chain_id);
            tx_env.nonce = Some(tx.nonce);
            tx_env.access_list = copy_access_list(&tx.access_list);
            proof {
                assert(tx_env.model() =~= eth_env_of(*essence, caller));
            }
        },
    }
}

/// Fill the environment from a protocol deposit: the caller is the protocol
/// field handed in, the nonce the externally supplied deposit counter.
pub fn fill_deposit_tx_env(
    tx_env: &mut TxEnv,
    tx: &TxEssenceDeposited,
    caller: Address,
    deposit_nonce: Option<u64>,
)
    requires
        tx.gas_limit.as_nat() <= u64::MAX,
    ensures
        final(tx_env).model() == deposit_env_of(*tx, caller, deposit_nonce),
{
    tx_env.caller = caller;
    tx_env.gas_limit = tx.gas_limit.to_u64();
    tx_env.gas_price = U256::zero();
    tx_env.gas_priority_fee = None;
    tx_env.transact_to = build_transact_to(&tx.to);
    tx_env.value = tx.value;
    tx_env.data = tx.data.clone();
    tx_env.chain_id = None;
    tx_env.nonce = deposit_nonce;
    tx_env.access_list = Vec::new();
    proof {
        assert(tx_env.model() =~= deposit_env_of(*tx, caller, deposit_nonce));
    }
}

/// Building the environment is deterministic: two environments built from
/// the same essence and caller are identical.
pub proof fn lemma_eth_env_deterministic(
    e1: TxEnvModel,
    e2: TxEnvModel,
    essence: EthereumTxEssence,
    caller: Address,
)
    requires
        e1 == eth_env_of(essence, caller),
        e2 == eth_env_of(essence, caller),
    ensures
        e1 == e2,
{
}

/// Building the deposit environment is deterministic in the same way.
pub proof fn lemma_deposit_env_deterministic(
    e1: TxEnvModel,
    e2: TxEnvModel,
    tx: TxEssenceDeposited,
    caller: Address,
    deposit_nonce: Option<u64>,
)
    requires
        e1 == deposit_env_of(tx, caller, deposit_nonce),
        e2 == deposit_env_of(tx, caller, deposit_nonce),
    ensures
        e1 == e2,
{
}

} // verus!
