use crate::blocks::{
    Block, ComparatorMode, RedstoneComparator, RedstoneRepeater, RedstoneWire, RedstoneWireSide,
};
use crate::geometry::BlockDirection;
use vstd::arithmetic::div_mod::{
    lemma_div_denominator, lemma_fundamental_div_mod, lemma_fundamental_div_mod_converse,
};
use vstd::prelude::*;

verus! {

pub open spec fn side_of(n: u32) -> RedstoneWireSide {
    RedstoneWireSide::spec_from_id(n).unwrap()
}

pub open spec fn direction_of(n: u32) -> BlockDirection {
    BlockDirection::spec_from_id(n).unwrap()
}

pub open spec fn mode_of(n: u32) -> ComparatorMode {
    ComparatorMode::spec_from_id(n).unwrap()
}

/// 1 for false, 0 for true: the packed form of the inverted flags.
pub open spec fn inv_bit(b: bool) -> u32 {
    if b {
        0
    } else {
        1
    }
}

/// Whether `id` falls in one of the ranges that decode to a modeled block.
pub open spec fn is_modeled_id(id: u32) -> bool {
    id == 0 || (2056 <= id <= 3351) || (3885 <= id <= 3894) || (4017 <= id <= 4080) || id == 5140
        || id == 5141 || (6142 <= id <= 6157)
}

/// The block a state id stands for. Within each range the fields are packed
/// mixed-radix, least significant first.
pub open spec fn decode(id: u32) -> Block {
    if id == 0 {
        Block::Air
    } else if 2056 <= id <= 3351 {
        let x = (id - 2056) as u32;
        Block::RedstoneWire(
            RedstoneWire {
                west: side_of(x % 3),
                south: side_of((x / 3) % 3),
                power: ((x / 9) % 16) as u8,
                north: side_of((x / 144) % 3),
                east: side_of(x / 432),
            },
        )
    } else if id == 3885 {
        Block::RedstoneTorch(true)
    } else if id == 3886 {
        Block::RedstoneTorch(false)
    } else if 3887 <= id <= 3894 {
        let x = (id - 3887) as u32;
        Block::RedstoneWallTorch(x % 2 == 0, direction_of(x / 2))
    } else if 4017 <= id <= 4080 {
        let x = (id - 4017) as u32;
        Block::RedstoneRepeater(
            RedstoneRepeater {
                delay: (x / 16 + 1) as u8,
                facing: direction_of((x / 4) % 4),
                locked: (x / 2) % 2 == 0,
                powered: x % 2 == 0,
            },
        )
    } else if id == 5140 {
        Block::RedstoneLamp(true)
    } else if id == 5141 {
        Block::RedstoneLamp(false)
    } else if 6142 <= id <= 6157 {
        let x = (id - 6142) as u32;
        Block::RedstoneComparator(
            RedstoneComparator {
                facing: direction_of(x / 4),
                mode: mode_of((x / 2) % 2),
                powered: x % 2 == 0,
            },
        )
    } else {
        Block::Solid(id)
    }
}

/// The state id of a block.
pub open spec fn encode(b: Block) -> int {
    match b {
        Block::Air => 0,
        Block::RedstoneWire(w) => w.east.spec_get_id() * 432 + w.north.spec_get_id() * 144
            + w.power * 9 + w.south.spec_get_id() * 3 + w.west.spec_get_id() + 2056,
        Block::RedstoneTorch(lit) => if lit {
            3885
        } else {
            3886
        },
        Block::RedstoneWallTorch(lit, facing) => facing.spec_get_id() * 2 + inv_bit(lit) + 3887,
        Block::RedstoneRepeater(r) => (r.delay - 1) * 16 + r.facing.spec_get_id() * 4 + inv_bit(
            r.locked,
        ) * 2 + inv_bit(r.powered) + 4017,
        Block::RedstoneLamp(lit) => if lit {
            5140
        } else {
            5141
        },
        Block::RedstoneComparator(c) => c.facing.spec_get_id() * 4 + c.mode.spec_get_id() * 2
            + inv_bit(c.powered) + 6142,
        Block::Solid(id) => id as int,
        Block::Transparent(id) => id as int,
    }
}

/// Blocks whose encoding decodes back to themselves: every well-formed block
/// but `Transparent`, and `Solid` only with an id outside the modeled ranges.
pub open spec fn is_canonical(b: Block) -> bool {
    b.wf() && match b {
        Block::Solid(id) => !is_modeled_id(id),
        Block::Transparent(_) => false,
        _ => true,
    }
}

proof fn lemma_wire_split(x: int)
    requires
        0 <= x < 1296,
    ensures
        x == (x / 432) * 432 + ((x / 144) % 3) * 144 + ((x / 9) % 16) * 9 + ((x / 3) % 3) * 3 + x
            % 3,
        x / 432 < 3,
{
    lemma_fundamental_div_mod(x, 3);
    lemma_fundamental_div_mod(x / 3, 3);
    lemma_div_denominator(x, 3, 3);
    lemma_fundamental_div_mod(x / 9, 16);
    lemma_div_denominator(x, 9, 16);
    lemma_fundamental_div_mod(x / 144, 3);
    lemma_div_denominator(x, 144, 3);
}

proof fn lemma_wire_join(e: int, n: int, p: int, s: int, w: int)
    requires
        0 <= e < 3,
        0 <= n < 3,
        0 <= p < 16,
        0 <= s < 3,
        0 <= w < 3,
    ensures
        ({
            let x = e * 432 + n * 144 + p * 9 + s * 3 + w;
            &&& x % 3 == w
            &&& (x / 3) % 3 == s
            &&& (x / 9) % 16 == p
            &&& (x / 144) % 3 == n
            &&& x / 432 == e
        }),
{
    let x = e * 432 + n * 144 + p * 9 + s * 3 + w;
    lemma_fundamental_div_mod_converse(x, 3, e * 144 + n * 48 + p * 3 + s, w);
    lemma_fundamental_div_mod_converse(x / 3, 3, e * 48 + n * 16 + p, s);
    lemma_div_denominator(x, 3, 3);
    lemma_fundamental_div_mod_converse(x / 9, 16, e * 3 + n, p);
    lemma_div_denominator(x, 9, 16);
    lemma_fundamental_div_mod_converse(x / 144, 3, e, n);
    lemma_div_denominator(x, 144, 3);
}

proof fn lemma_split_2_2_4(x: int)
    requires
        0 <= x,
    ensures
        x == (x / 16) * 16 + ((x / 4) % 4) * 4 + ((x / 2) % 2) * 2 + x % 2,
        x == (x / 2) * 2 + x % 2,
{
    lemma_fundamental_div_mod(x, 2);
    lemma_fundamental_div_mod(x / 2, 2);
    lemma_div_denominator(x, 2, 2);
    lemma_fundamental_div_mod(x / 4, 4);
    lemma_div_denominator(x, 4, 4);
}

proof fn lemma_join_2_2_4(d: int, f: int, l: int, p: int)
    requires
        0 <= d,
        0 <= f < 4,
        0 <= l < 2,
        0 <= p < 2,
    ensures
        ({
            let x = d * 16 + f * 4 + l * 2 + p;
            &&& x % 2 == p
            &&& (x / 2) % 2 == l
            &&& (x / 4) % 4 == f
            &&& x / 16 == d
        }),
{
    let x = d * 16 + f * 4 + l * 2 + p;
    lemma_fundamental_div_mod_converse(x, 2, d * 8 + f * 2 + l, p);
    lemma_fundamental_div_mod_converse(x / 2, 2, d * 4 + f, l);
    lemma_div_denominator(x, 2, 2);
    lemma_fundamental_div_mod_converse(x / 4, 4, d, f);
    lemma_div_denominator(x, 4, 4);
}

/// Every state id is the encoding of the block it decodes to, and that block
/// decodes again to itself.
pub proof fn lemma_encode_decode(id: u32)
    ensures
        decode(id).wf(),
        encode(decode(id)) == id as int,
        decode(id) == decode(encode(decode(id)) as u32),
        is_canonical(decode(id)),
{
    if 2056 <= id <= 3351 {
        lemma_wire_split(id - 2056);
    } else if 3887 <= id <= 3894 {
        lemma_split_2_2_4(id - 3887);
    } else if 4017 <= id <= 4080 {
        lemma_split_2_2_4(id - 4017);
    } else if 6142 <= id <= 6157 {
        lemma_split_2_2_4(id - 6142);
    }
}

/// Decoding the encoding of a canonical block gives the block back.
pub proof fn lemma_decode_encode(b: Block)
    requires
        is_canonical(b),
    ensures
        0 <= encode(b) <= u32::MAX,
        decode(encode(b) as u32) == b,
{
    match b {
        Block::RedstoneWire(w) => {
            lemma_wire_join(
                w.east.spec_get_id() as int,
                w.north.spec_get_id() as int,
                w.power as int,
                w.south.spec_get_id() as int,
                w.west.spec_get_id() as int,
            );
        },
        Block::RedstoneRepeater(r) => {
            lemma_join_2_2_4(
                r.delay - 1,
                r.facing.spec_get_id() as int,
                inv_bit(r.locked) as int,
                inv_bit(r.powered) as int,
            );
        },
        Block::RedstoneComparator(c) => {
            lemma_join_2_2_4(
                0,
                c.facing.spec_get_id() as int,
                c.mode.spec_get_id() as int,
                inv_bit(c.powered) as int,
            );
        },
        Block::RedstoneWallTorch(lit, f) => {
            let x = f.spec_get_id() * 2 + inv_bit(lit);
            lemma_fundamental_div_mod_converse(x as int, 2, f.spec_get_id() as int, inv_bit(lit) as int);
        },
        _ => {},
    }
}

impl Block {
    /// Decodes a state id. Total: an id outside the modeled ranges gives
    /// `Solid(id)`.
    pub fn from_block_state(id: u32) -> (r: Block)
        ensures
            r == decode(id),
            r.wf(),
    {
        proof {
            lemma_encode_decode(id);
        }
        if id == 0 {
            Block::Air
        } else if 2056 <= id && id <= 3351 {
            let x = id - 2056;
            let west = RedstoneWireSide::from_id(x % 3).unwrap();
            let south = RedstoneWireSide::from_id((x / 3) % 3).unwrap();
            let power = (x / 9) % 16;
            let north = RedstoneWireSide::from_id((x / 144) % 3).unwrap();
            let east = RedstoneWireSide::from_id(x / 432).unwrap();
            Block::RedstoneWire(RedstoneWire::new(north, south, east, west, power as u8))
        } else if id == 3885 {
            Block::RedstoneTorch(true)
        } else if id == 3886 {
            Block::RedstoneTorch(false)
        } else if 3887 <= id && id <= 3894 {
            let x = id - 3887;
            let lit = x % 2 == 0;
            let facing = BlockDirection::from_id(x / 2).unwrap();
            Block::RedstoneWallTorch(lit, facing)
        } else if 4017 <= id && id <= 4080 {
            let x = id - 4017;
            let powered = x % 2 == 0;
            let locked = (x / 2) % 2 == 0;
            let facing = BlockDirection::from_id((x / 4) % 4).unwrap();
            let delay = (x / 16) as u8 + 1;
            Block::RedstoneRepeater(RedstoneRepeater::new(delay, facing, locked, powered))
        } else if id == 5140 {
            Block::RedstoneLamp(true)
        } else if id == 5141 {
            Block::RedstoneLamp(false)
        } else if 6142 <= id && id <= 6157 {
            let x = id - 6142;
            let powered = x % 2 == 0;
            let mode = ComparatorMode::from_id((x / 2) % 2).unwrap();
            let facing = BlockDirection::from_id(x / 4).unwrap();
            Block::RedstoneComparator(RedstoneComparator::new(facing, mode, powered))
        } else {
            Block::Solid(id)
        }
    }

    /// Encodes a block as its state id; `Solid` and `Transparent` give their
    /// stored id unchanged.
    pub fn get_id(self) -> (r: u32)
        requires
            self.wf(),
        ensures
            r as int == encode(self),
    {
        match self {
            Block::Air => 0,
            Block::RedstoneWire(wire) => {
                wire.east.get_id() * 432 + wire.north.get_id() * 144 + wire.power as u32 * 9
                    + wire.south.get_id() * 3 + wire.west.get_id() + 2056
            },
            Block::RedstoneTorch(lit) => if lit {
                3885
            } else {
                3886
            },
            Block::RedstoneWallTorch(lit, facing) => facing.get_id() * 2 + inv_flag(lit) + 3887,
            Block::RedstoneRepeater(repeater) => {
                (repeater.delay as u32 - 1) * 16 + repeater.facing.get_id() * 4 + inv_flag(
                    repeater.locked,
                ) * 2 + inv_flag(repeater.powered) + 4017
            },
            Block::RedstoneLamp(lit) => if lit {
                5140
            } else {
                5141
            },
            Block::RedstoneComparator(comparator) => {
                comparator.facing.get_id() * 4 + comparator.mode.get_id() * 2 + inv_flag(
                    comparator.powered,
                ) + 6142
            },
            Block::Solid(id) => id,
            Block::Transparent(id) => id,
        }
    }
}

fn inv_flag(b: bool) -> (r: u32)
    ensures
        r == inv_bit(b),
{
    if b {
        0
    } else {
        1
    }
}

} // verus!
