//! The local chain: a linear, append-only sequence of sealed blocks.

use crate::block::{is_genesis, spec_block_hash, Block};
use crate::u256::U256;
use vstd::prelude::*;

verus! {

/// Two adjacent links: the child sits one higher than its parent and
/// carries the parent's identity.
pub open spec fn linked(p: Block, b: Block) -> bool {
    &&& b.number == p.number + 1
    &&& b.prev_hash@ == spec_block_hash(p)
}

/// The chain as it lives in memory for one run. No branching: each block
/// has at most one child, and nothing is removed or rewritten.
pub struct Chain {
    pub blocks: Vec<Block>,
}

impl Chain {
    /// Exactly one genesis block at the root, and every later block
    /// linked to the one before it.
    pub open spec fn wf(self) -> bool {
        &&& self.blocks@.len() >= 1
        &&& is_genesis(self.blocks@[0])
        &&& forall|i: int|
            1 <= i < self.blocks@.len() ==> linked(self.blocks@[i - 1], #[trigger] self.blocks@[i])
    }

    /// Starts a chain with its genesis block: `prev_hash` zero, height
    /// zero.
    pub fn new(dict_hash: U256) -> (r: Chain)
        ensures
            r.wf(),
            r.blocks@.len() == 1,
            is_genesis(r.blocks@[0]),
            r.blocks@[0].dict_hash == dict_hash,
            r.blocks@[0].nonce == 0,
    {
        let mut blocks: Vec<Block> = Vec::new();
        blocks.push(Block::genesis(dict_hash));
        Chain { blocks }
    }

    /// The current head, the youngest sealed block.
    pub fn head(&self) -> (r: &Block)
        requires
            self.blocks@.len() >= 1,
        ensures
            *r == self.blocks@.last(),
    {
        &self.blocks[self.blocks.len() - 1]
    }

    /// How many blocks the chain holds.
    pub fn len(&self) -> (r: usize)
        ensures
            r == self.blocks@.len(),
    {
        self.blocks.len()
    }

    /// The block at height `i`.
    pub fn get(&self, i: usize) -> (r: &Block)
        requires
            i < self.blocks@.len(),
        ensures
            *r == self.blocks@[i as int],
    {
        &self.blocks[i]
    }

    /// Seals `b` onto the chain. The caller hands over a block already
    /// linked to the head; the chain stays well-formed and everything
    /// sealed before is untouched.
    pub fn append(&mut self, b: Block)
        requires
            old(self).wf(),
            old(self).blocks@.len() < usize::MAX,
            linked(old(self).blocks@.last(), b),
        ensures
            final(self).wf(),
            final(self).blocks@ == old(self).blocks@.push(b),
    {
        let ghost s = self.blocks@;
        self.blocks.push(b);
        proof {
            assert forall|i: int|
                1 <= i < self.blocks@.len() implies linked(
                self.blocks@[i - 1],
                #[trigger] self.blocks@[i],
            ) by {
                if i < s.len() {
                    assert(linked(s[i - 1], s[i]));
                } else {
                    assert(self.blocks@[i] == b);
                    assert(self.blocks@[i - 1] == s.last());
                }
            }
        }
    }

    /// Every block after genesis sits one above its predecessor and
    /// carries that predecessor's identity as `prev_hash`.
    pub proof fn lemma_chain_links(self, i: int)
        requires
            self.wf(),
            1 <= i < self.blocks@.len(),
        ensures
            self.blocks@[i].number == self.blocks@[i - 1].number + 1,
            self.blocks@[i].prev_hash@ == spec_block_hash(self.blocks@[i - 1]),
    {
    }
}

} // verus!
