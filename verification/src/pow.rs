//! The nonce search: find the smallest nonce whose block digest falls
//! strictly below the target.

use crate::block::{spec_work, Block};
use crate::u256::U256;
use vstd::prelude::*;

verus! {

/// Searches nonces 0, 1, 2, ... over the whole 32-bit range and returns
/// the first one whose digest is strictly below `target` — by
/// construction the smallest winning nonce.
///
/// A target of zero admits no digest, so the search then runs the range
/// out and reports exhaustion; `None` is the documented fail-loud policy
/// for an exhausted nonce space. Expect the call not to return in
/// reasonable time for very low targets: that is proof-of-work.
pub fn solve_pow(target: &U256, block: &Block) -> (r: Option<u32>)
    ensures
        match r {
            Some(n) => spec_work(block.prev_hash@, block.number, block.dict_hash@, n) < target@
                && forall|m: u32|
                m < n ==> spec_work(block.prev_hash@, block.number, block.dict_hash@, m)
                    >= target@,
            None => forall|n: u32|
                spec_work(block.prev_hash@, block.number, block.dict_hash@, n) >= target@,
        },
        target@ == 0 ==> r is None,
{
    let mut candidate = *block;
    let mut n: u64 = 0;
    while n < 0x1_0000_0000
        invariant
            n <= 0x1_0000_0000,
            candidate.prev_hash == block.prev_hash,
            candidate.number == block.number,
            candidate.dict_hash == block.dict_hash,
            forall|m: u32|
                m < n ==> spec_work(block.prev_hash@, block.number, block.dict_hash@, m)
                    >= target@,
        decreases 0x1_0000_0000 - n,
    {
        candidate.nonce = n as u32;
        let h = candidate.block_hash();
        if h.lt(target) {
            return Some(n as u32);
        }
        n = n + 1;
    }
    None
}

/// The bounded variant: searches only nonces below `limit`. With a zero
/// target no bounded search ever succeeds, however large the bound.
pub fn solve_pow_bounded(target: &U256, block: &Block, limit: u32) -> (r: Option<u32>)
    ensures
        match r {
            Some(n) => n < limit && spec_work(
                block.prev_hash@,
                block.number,
                block.dict_hash@,
                n,
            ) < target@ && forall|m: u32|
                m < n ==> spec_work(block.prev_hash@, block.number, block.dict_hash@, m)
                    >= target@,
            None => forall|n: u32|
                n < limit ==> spec_work(block.prev_hash@, block.number, block.dict_hash@, n)
                    >= target@,
        },
        target@ == 0 ==> r is None,
{
    let mut candidate = *block;
    let mut n: u32 = 0;
    while n < limit
        invariant
            n <= limit,
            candidate.prev_hash == block.prev_hash,
            candidate.number == block.number,
            candidate.dict_hash == block.dict_hash,
            forall|m: u32|
                m < n ==> spec_work(block.prev_hash@, block.number, block.dict_hash@, m)
                    >= target@,
        decreases limit - n,
    {
        candidate.nonce = n;
        let h = candidate.block_hash();
        if h.lt(target) {
            return Some(n);
        }
        n = n + 1;
    }
    None
}

} // verus!
