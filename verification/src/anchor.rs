//! The anchor call: the protocol transaction that must open an
//! anchor-augmented block, and its ABI decoding
//! `anchor(bytes32 l1Hash, bytes32 l1SignalRoot, uint64 l1Height, uint32 parentGasUsed)`.

use vstd::prelude::*;

use crate::codec::{be_value, check_zero_range, read_be, zero_range};
use crate::error::Error;
use crate::provider::PartialBlockData;
use crate::transactions::EthereumTxEssence;
use crate::types::{Address, B256};

verus! {

/// A consensus-layer withdrawal credited on the execution layer.
#[derive(Clone, Copy, Debug, PartialEq, Eq, Structural)]
pub struct Withdrawal {
    pub index: u64,
    pub validator_index: u64,
    pub address: Address,
    pub amount_gwei: u64,
}

/// The system facts assembled for one anchored block: what the guest needs
/// beside the block input itself.
#[derive(Clone, Debug, PartialEq, Eq)]
pub struct TaikoSystemInfo {
    pub l1_hash: B256,
    pub l1_height: u64,
    pub l2_tx_list: Vec<u8>,
    pub prover: Address,
    pub graffiti: B256,
    pub l1_signal_root: B256,
    pub l2_signal_root: B256,
    pub l2_withdrawals: Vec<Withdrawal>,
    pub l1_next_block: PartialBlockData,
    pub l2_fini_block: PartialBlockData,
}

/// The decoded arguments of an anchor call.
#[derive(Clone, Copy, Debug, PartialEq, Eq, Structural)]
pub struct AnchorCall {
    pub l1_hash: B256,
    pub l1_signal_root: B256,
    pub l1_height: u64,
    pub parent_gas_used: u32,
}

/// The four-byte function selector of the anchor call.
pub open spec fn anchor_selector() -> Seq<u8> {
    seq![0xdau8, 0x69u8, 0xd3u8, 0xdbu8]
}

/// Whether a byte string is a well-formed ABI encoding of an anchor call:
/// the selector, then four 32-byte words, the height and gas words carrying
/// properly zero-padded unsigned integers.
pub open spec fn spec_is_anchor_call(data: Seq<u8>) -> bool {
    &&& data.len() == 132
    &&& data.subrange(0, 4) == anchor_selector()
    &&& zero_range(data, 68, 92)
    &&& zero_range(data, 100, 128)
}

/// The arguments a well-formed anchor encoding carries.
pub open spec fn spec_anchor_of(data: Seq<u8>) -> AnchorCall {
    AnchorCall {
        l1_hash: B256 {
            hi: be_value(data.subrange(4, 20)) as u128,
            lo: be_value(data.subrange(20, 36)) as u128,
        },
        l1_signal_root: B256 {
            hi: be_value(data.subrange(36, 52)) as u128,
            lo: be_value(data.subrange(52, 68)) as u128,
        },
        l1_height: be_value(data.subrange(92, 100)) as u64,
        parent_gas_used: be_value(data.subrange(128, 132)) as u32,
    }
}

/// Check whether call data is a well-formed anchor encoding.
pub fn is_anchor_call(data: &Vec<u8>) -> (r: bool)
    ensures
        r == spec_is_anchor_call(data@),
{
    if data.len() != 132 {
        return false;
    }
    if !(data[0] == 0xda && data[1] == 0x69 && data[2] == 0xd3 && data[3] == 0xdb) {
        proof {
            assert(!spec_is_anchor_call(data@)) by {
                if data@.subrange(0, 4) == anchor_selector() {
                    assert(data@.subrange(0, 4)[0] == data@[0]);
                    assert(data@.subrange(0, 4)[1] == data@[1]);
                    assert(data@.subrange(0, 4)[2] == data@[2]);
                    assert(data@.subrange(0, 4)[3] == data@[3]);
                }
            }
        }
        return false;
    }
    proof {
        assert(data@.subrange(0, 4) =~= anchor_selector());
    }
    if !check_zero_range(data, 68, 92) {
        return false;
    }
    if !check_zero_range(data, 100, 128) {
        return false;
    }
    true
}

/// Decode the call data of an essence as an anchor call: succeeds exactly
/// on well-formed encodings, and then returns the encoded arguments.
pub fn decode_anchor(essence: EthereumTxEssence) -> (r: Result<AnchorCall, Error>)
    ensures
        spec_is_anchor_call(essence.spec_data()) ==> r == Ok::<AnchorCall, Error>(
            spec_anchor_of(essence.spec_data()),
        ),
        !spec_is_anchor_call(essence.spec_data()) ==> r == Err::<AnchorCall, Error>(
            Error::InvalidTransaction,
        ),
{
    let data = essence.data();
    if !is_anchor_call(data) {
        return Err(Error::InvalidTransaction);
    }
    proof {
        lemma_word_bounds(data@);
    }
    let l1_hash = B256 { hi: read_be(data, 4, 16), lo: read_be(data, 20, 16) };
    let l1_signal_root = B256 { hi: read_be(data, 36, 16), lo: read_be(data, 52, 16) };
    let l1_height = read_be(data, 92, 8) as u64;
    let parent_gas_used = read_be(data, 128, 4) as u32;
    Ok(AnchorCall { l1_hash, l1_signal_root, l1_height, parent_gas_used })
}

/// The integer words of an anchor encoding fit their declared widths.
proof fn lemma_word_bounds(data: Seq<u8>)
    requires
        data.len() == 132,
    ensures
        be_value(data.subrange(92, 100)) < 0x1_0000_0000_0000_0000nat,
        be_value(data.subrange(128, 132)) < 0x1_0000_0000nat,
{
    crate::codec::lemma_be_value_bound(data.subrange(92, 100));
    crate::codec::lemma_be_value_bound(data.subrange(128, 132));
    assert(crate::codec::pow256(8) == 0x1_0000_0000_0000_0000nat) by {
        reveal_with_fuel(crate::codec::pow256, 9);
    }
    assert(crate::codec::pow256(4) == 0x1_0000_0000nat) by {
        reveal_with_fuel(crate::codec::pow256, 5);
    }
}

} // verus!
