use crate::blocks::Block;
use crate::geometry::BlockPos;
use std::collections::HashMap;
use vstd::arithmetic::div_mod::lemma_fundamental_div_mod_converse;
use vstd::prelude::*;

verus! {

broadcast use vstd::std_specs::hash::group_hash_axioms;

/// The packed key of a position: the three coordinates, shifted to be
/// non-negative, as the digits of a number in base 2^32.
pub open spec fn pos_key(p: BlockPos) -> int {
    (p.x + 0x8000_0000) * 0x1_0000_0000_0000_0000 + p.y * 0x1_0000_0000 + (p.z + 0x8000_0000)
}

proof fn lemma_pos_key_digits(p: BlockPos)
    ensures
        0 <= pos_key(p) < 0x1_0000_0000_0000_0000_0000_0000,
        pos_key(p) % 0x1_0000_0000 == p.z + 0x8000_0000,
        (pos_key(p) / 0x1_0000_0000) % 0x1_0000_0000 == p.y,
        (pos_key(p) / 0x1_0000_0000) / 0x1_0000_0000 == p.x + 0x8000_0000,
{
    let k = pos_key(p);
    let hi = (p.x + 0x8000_0000) * 0x1_0000_0000 + p.y;
    lemma_fundamental_div_mod_converse(k, 0x1_0000_0000, hi, p.z + 0x8000_0000);
    lemma_fundamental_div_mod_converse(hi, 0x1_0000_0000, p.x + 0x8000_0000, p.y as int);
}

/// Distinct positions have distinct keys.
pub proof fn lemma_pos_key_injective(p: BlockPos, q: BlockPos)
    ensures
        pos_key(p) == pos_key(q) ==> p == q,
{
    lemma_pos_key_digits(p);
    lemma_pos_key_digits(q);
}

/// The block at `p` in a world model: what is stored there, else air.
pub open spec fn block_at(m: Map<BlockPos, Block>, p: BlockPos) -> Block {
    if m.contains_key(p) {
        m[p]
    } else {
        Block::Air
    }
}

/// The world model after writing `b` at `p`; left as it is where `b` is
/// already there.
pub open spec fn store(m: Map<BlockPos, Block>, p: BlockPos, b: Block) -> Map<BlockPos, Block> {
    if block_at(m, p) == b {
        m
    } else {
        m.insert(p, b)
    }
}

/// A sparse store of blocks by position; every position not stored holds air.
pub struct Plot {
    blocks: HashMap<u128, Block>,
}

impl Plot {
    /// The stored blocks by position.
    pub closed spec fn view(&self) -> Map<BlockPos, Block> {
        Map::new(
            |p: BlockPos| self.blocks@.contains_key(pos_key(p) as u128),
            |p: BlockPos| self.blocks@[pos_key(p) as u128],
        )
    }

    /// Every stored key is the key of a position, and every stored block is
    /// well formed.
    pub closed spec fn wf(&self) -> bool {
        &&& forall|k: u128| #[trigger]
            self.blocks@.contains_key(k) ==> exists|p: BlockPos| pos_key(p) == k
        &&& forall|k: u128| #[trigger]
            self.blocks@.contains_key(k) ==> self.blocks@[k].wf()
    }

    /// Every block of a well-formed store is well formed.
    pub proof fn lemma_blocks_wf(&self, p: BlockPos)
        requires
            self.wf(),
        ensures
            block_at(self@, p).wf(),
    {
        lemma_pos_key_digits(p);
        if self.blocks@.contains_key(pos_key(p) as u128) {
            assert(self.blocks@[pos_key(p) as u128].wf());
        }
    }

    /// An empty store: air everywhere.
    pub fn new() -> (r: Plot)
        ensures
            r.wf(),
            r@ == Map::<BlockPos, Block>::empty(),
    {
        let r = Plot { blocks: HashMap::new() };
        assert(r@ =~= Map::<BlockPos, Block>::empty());
        r
    }

    fn key(pos: &BlockPos) -> (r: u128)
        ensures
            r as int == pos_key(*pos),
    {
        proof {
            lemma_pos_key_digits(*pos);
        }
        let x = (pos.x as i64 + 0x8000_0000) as u128;
        let z = (pos.z as i64 + 0x8000_0000) as u128;
        x * 0x1_0000_0000_0000_0000 + (pos.y as u128) * 0x1_0000_0000 + z
    }

    /// The block at `pos`; air where nothing is stored.
    pub fn get_block(&self, pos: &BlockPos) -> (r: Block)
        requires
            self.wf(),
        ensures
            r == block_at(self@, *pos),
            r.wf(),
    {
        proof {
            self.lemma_blocks_wf(*pos);
        }
        let k = Plot::key(pos);
        match self.blocks.get(&k) {
            Some(b) => *b,
            None => Block::Air,
        }
    }

    /// Writes `block` at `pos`, and tells whether that changed what is there.
    pub fn set_block(&mut self, pos: &BlockPos, block: Block) -> (changed: bool)
        requires
            old(self).wf(),
            block.wf(),
        ensures
            final(self).wf(),
            changed == (block_at(old(self)@, *pos) != block),
            final(self)@ == store(old(self)@, *pos, block),
    {
        let current = self.get_block(pos);
        if current == block {
            false
        } else {
            let k = Plot::key(pos);
            self.blocks.insert(k, block);
            proof {
                assert forall|q: BlockPos| #[trigger]
                    self@.contains_key(q) == old(self)@.insert(*pos, block).contains_key(q) by {
                    lemma_pos_key_injective(q, *pos);
                    lemma_pos_key_digits(q);
                }
                assert forall|q: BlockPos| #[trigger]
                    self@.contains_key(q) implies self@[q] == old(self)@.insert(*pos, block)[q] by {
                    lemma_pos_key_injective(q, *pos);
                    lemma_pos_key_digits(q);
                }
                assert(self@ =~= old(self)@.insert(*pos, block));
            }
            true
        }
    }
}

} // verus!
