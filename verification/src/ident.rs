//! The identifier engine: a transaction descriptor (target, value, function
//! signature, payload, timestamp) is named by the Keccak-256 digest of its
//! canonical ABI encoding. The encoding and the digest come from outside
//! crates behind trusted wrappers; everything around them is verified.

use vstd::prelude::*;
use crate::addr::Address;
use crate::bytes::bytes_eq;
use crate::bytes::copy_bytes;
use crate::uint256::Uint256;

verus! {

/// The Keccak-256 digest of a byte string. The digest is a pure function of
/// the input; no short statement can pin its value down, so only its name and
/// its length are stated.
pub uninterp spec fn keccak256_of(input: Seq<u8>) -> Seq<u8>;

/// The canonical ABI encoding of a descriptor's five fields, in order:
/// a 20-byte address, a 256-bit integer, two length-prefixed byte strings
/// and a 256-bit integer. A pure function of the five values.
pub uninterp spec fn abi_encoding_of(
    target: Seq<u8>,
    value: int,
    func: Seq<u8>,
    data: Seq<u8>,
    timestamp: int,
) -> Seq<u8>;

/// The identifier of a descriptor: the digest of its canonical encoding.
pub open spec fn tx_id_of(
    target: Seq<u8>,
    value: int,
    func: Seq<u8>,
    data: Seq<u8>,
    timestamp: int,
) -> Seq<u8> {
    keccak256_of(abi_encoding_of(target, value, func, data, timestamp))
}

/// Relies on `sha3::Keccak256` through the `Digest` trait: the Keccak-256
/// digest depends on the input bytes alone and is exactly 32 bytes long.
#[verifier::external_body]
pub(crate) fn keccak256(input: &Vec<u8>) -> (r: Vec<u8>)
    ensures
        r@ == keccak256_of(input@),
        r@.len() == 32,
{
    let digest = <sha3::Keccak256 as sha3::Digest>::digest(input.as_slice());
    digest.to_vec()
}

/// Relies on `alloy_sol_types::SolType::abi_encode_sequence` for the tuple
/// `(address, uint256, bytes, bytes, uint256)`: the encoding depends on the
/// five field values alone.
#[verifier::external_body]
pub(crate) fn abi_encode_descriptor(
    target: &Address,
    value: &Uint256,
    func: &Vec<u8>,
    data: &Vec<u8>,
    timestamp: &Uint256,
) -> (r: Vec<u8>)
    requires
        target.wf(),
    ensures
        r@ == abi_encoding_of(target@, value@, func@, data@, timestamp@),
{
    let addr = alloy_primitives::Address::from_slice(target.as_bytes().as_slice());
    let value = alloy_primitives::U256::from_limbs([value.l0, value.l1, value.l2, value.l3]);
    let timestamp = alloy_primitives::U256::from_limbs(
        [timestamp.l0, timestamp.l1, timestamp.l2, timestamp.l3],
    );
    let tuple = (addr, value, func.as_slice(), data.as_slice(), timestamp);
    <(
        alloy_sol_types::sol_data::Address,
        alloy_sol_types::sol_data::Uint<256>,
        alloy_sol_types::sol_data::Bytes,
        alloy_sol_types::sol_data::Bytes,
        alloy_sol_types::sol_data::Uint<256>,
    ) as alloy_sol_types::SolType>::abi_encode_sequence(&tuple)
}

/// A transaction identifier: a 32-byte digest.
#[derive(Debug)]
pub struct TxId {
    bytes: Vec<u8>,
}

impl View for TxId {
    type V = Seq<u8>;

    closed spec fn view(&self) -> Seq<u8> {
        self.bytes@
    }
}

impl TxId {
    /// An identifier is well formed when it holds exactly 32 bytes.
    pub open spec fn wf(&self) -> bool {
        self@.len() == 32
    }

    /// The identifier's bytes.
    pub fn as_bytes(&self) -> (r: &Vec<u8>)
        ensures
            r@ == self@,
    {
        &self.bytes
    }

    /// Whether two identifiers hold the same bytes.
    pub fn eq_id(&self, other: &TxId) -> (r: bool)
        ensures
            r == (self@ == other@),
    {
        bytes_eq(&self.bytes, &other.bytes)
    }

    /// Returns a fresh identifier with the same bytes.
    pub fn dup(&self) -> (r: TxId)
        ensures
            r@ == self@,
    {
        TxId { bytes: copy_bytes(&self.bytes) }
    }
}

/// Derives the identifier of the given descriptor: the Keccak-256 digest of
/// its canonical ABI encoding. Deterministic and side-effect-free.
pub fn compute_tx_id(
    target: &Address,
    value: &Uint256,
    func: &Vec<u8>,
    data: &Vec<u8>,
    timestamp: &Uint256,
) -> (r: TxId)
    requires
        target.wf(),
    ensures
        r@ == tx_id_of(target@, value@, func@, data@, timestamp@),
        r.wf(),
{
    let encoded = abi_encode_descriptor(target, value, func, data, timestamp);
    let digest = keccak256(&encoded);
    TxId { bytes: digest }
}

} // verus!
