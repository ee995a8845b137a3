//! The block model: an immutable-once-sealed record whose identity is the
//! digest of its serialized fields.

use crate::digest::{digest_to_int, spec_digest_to_int};
use crate::u256::{spec_u256_to_le_bytes, U256};
use vstd::bytes::{spec_u32_to_le_bytes, spec_u64_to_le_bytes, u32_to_le_bytes, u64_to_le_bytes};
use vstd::prelude::*;

verus! {

/// One link of the chain.
///
/// `prev_hash` is the identity of the predecessor (zero for genesis),
/// `number` the height, `dict_hash` the fingerprint of the auxiliary
/// word-list dataset (constant across a run), and `nonce` the value the
/// search loop varies until the block's digest falls below the target.
#[derive(Clone, Copy, Debug, PartialEq, Eq, Structural)]
pub struct Block {
    pub prev_hash: U256,
    pub number: u64,
    pub dict_hash: U256,
    pub nonce: u32,
}

/// The deterministic serialization of a block's fields: each field in
/// little-endian byte order, concatenated in declaration order.
pub open spec fn spec_serialize_fields(
    prev_hash: nat,
    number: u64,
    dict_hash: nat,
    nonce: u32,
) -> Seq<u8> {
    spec_u256_to_le_bytes(prev_hash) + spec_u64_to_le_bytes(number) + spec_u256_to_le_bytes(
        dict_hash,
    ) + spec_u32_to_le_bytes(nonce)
}

/// The digest-integer of a block with the given fields: what the nonce
/// search compares against the target.
pub open spec fn spec_work(prev_hash: nat, number: u64, dict_hash: nat, nonce: u32) -> nat {
    spec_digest_to_int(spec_serialize_fields(prev_hash, number, dict_hash, nonce))
}

/// A block's content-derived identity.
pub open spec fn spec_block_hash(b: Block) -> nat {
    spec_work(b.prev_hash@, b.number, b.dict_hash@, b.nonce)
}

/// A genesis block: no predecessor, height zero.
pub open spec fn is_genesis(b: Block) -> bool {
    b.prev_hash@ == 0 && b.number == 0
}

impl Block {
    /// Builds the unique root block of a run: `prev_hash` zero, height
    /// zero, nonce zero.
    pub fn genesis(dict_hash: U256) -> (r: Block)
        ensures
            is_genesis(r),
            r.prev_hash@ == 0,
            r.number == 0,
            r.dict_hash == dict_hash,
            r.nonce == 0,
    {
        Block { prev_hash: U256::from_u64(0), number: 0, dict_hash, nonce: 0 }
    }

    /// Serializes the block's fields deterministically.
    pub fn serialize(&self) -> (r: Vec<u8>)
        ensures
            r@ == spec_serialize_fields(self.prev_hash@, self.number, self.dict_hash@, self.nonce),
    {
        let mut out = self.prev_hash.to_le_bytes();
        let mut bn = u64_to_le_bytes(self.number);
        let mut bd = self.dict_hash.to_le_bytes();
        let mut bnc = u32_to_le_bytes(self.nonce);
        out.append(&mut bn);
        out.append(&mut bd);
        out.append(&mut bnc);
        out
    }

    /// The block's identity: the digest of its serialized fields at the
    /// current nonce. Computed on demand, never stored.
    pub fn block_hash(&self) -> (r: U256)
        ensures
            r@ == spec_block_hash(*self),
    {
        let bytes = self.serialize();
        digest_to_int(bytes.as_slice())
    }
}

} // verus!
