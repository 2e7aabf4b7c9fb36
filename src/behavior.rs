use crate::blocks::{
    Block, ComparatorMode, RedstoneComparator, RedstoneRepeater, RedstoneWire, RedstoneWireSide,
};
use crate::codec::encode;
use crate::geometry::{face_at, is_lateral, BlockDirection, BlockError, BlockFace, BlockPos};
use crate::plot::{block_at, store, Plot};
use vstd::prelude::*;

verus! {

/// What a player interaction did: `Pass` lets the default behavior proceed.
#[derive(Copy, Clone, Debug, PartialEq, Eq, Structural)]
pub enum ActionResult {
    Success,
    Pass,
}

/// Where a block is being placed from: the face that was clicked and the
/// horizontal direction the placer faces.
#[derive(Copy, Clone, Debug, PartialEq, Eq, Structural)]
pub struct UseOnBlockContext {
    pub block_face: BlockFace,
    pub player_direction: BlockDirection,
}

/// The connection of a wire on a lateral face.
pub open spec fn wire_side(w: RedstoneWire, face: BlockFace) -> RedstoneWireSide {
    match face {
        BlockFace::North => w.north,
        BlockFace::South => w.south,
        BlockFace::East => w.east,
        _ => w.west,
    }
}

impl RedstoneWire {
    pub open spec fn spec_is_powering(self, face: BlockFace) -> bool {
        is_lateral(face) && wire_side(self, face) != RedstoneWireSide::Unconnected && self.power
            > 0
    }

    /// Whether the wire powers `face`: a lateral face it connects on, with a
    /// power level above zero.
    pub fn is_powering(self, face: BlockFace) -> (r: bool)
        ensures
            r == self.spec_is_powering(face),
    {
        let is_facing = match face {
            BlockFace::North => self.north != RedstoneWireSide::Unconnected,
            BlockFace::South => self.south != RedstoneWireSide::Unconnected,
            BlockFace::East => self.east != RedstoneWireSide::Unconnected,
            BlockFace::West => self.west != RedstoneWireSide::Unconnected,
            _ => false,
        };
        is_facing && self.power > 0
    }
}

/// Whether block `b` emits power out of `face`. Only lateral faces are ever
/// powered.
pub open spec fn powering(b: Block, face: BlockFace) -> bool {
    is_lateral(face) && match b {
        Block::RedstoneTorch(lit) => lit,
        Block::RedstoneWallTorch(lit, d) => lit && d.spec_block_face() != face,
        Block::RedstoneRepeater(r) => r.powered && r.facing.spec_block_face() == face,
        Block::RedstoneWire(w) => w.spec_is_powering(face),
        Block::RedstoneComparator(c) => c.powered && c.facing.spec_block_face() == face,
        _ => false,
    }
}

/// Whether a block of this kind can be powered through its neighbors.
pub open spec fn is_conductor(b: Block) -> bool {
    b is Solid || b is RedstoneLamp
}

/// Whether `b`, standing at `pos` in `m`, is powered: it is solid or a lamp,
/// and some neighbor powers the face toward it, or is itself powered, this
/// last followed through at most `depth` further blocks.
pub open spec fn powered(m: Map<BlockPos, Block>, b: Block, pos: BlockPos, depth: nat) -> bool
    decreases depth, 7nat,
{
    is_conductor(b) && (neighbor_powers(m, pos, 0, depth) || neighbor_powers(m, pos, 1, depth)
        || neighbor_powers(m, pos, 2, depth) || neighbor_powers(m, pos, 3, depth)
        || neighbor_powers(m, pos, 4, depth) || neighbor_powers(m, pos, 5, depth))
}

/// Whether the neighbor of `pos` across face number `i` powers it.
pub open spec fn neighbor_powers(m: Map<BlockPos, Block>, pos: BlockPos, i: int, depth: nat) -> bool
    decreases depth, 0nat,
{
    match pos.spec_offset(face_at(i)) {
        Some(n) => powering(block_at(m, n), face_at(i)) || (depth > 0 && powered(
            m,
            block_at(m, n),
            n,
            (depth - 1) as nat,
        )),
        None => false,
    }
}

/// The face with number `i` in the order north, south, east, west, top, bottom.
pub fn face_by_index(i: usize) -> (r: BlockFace)
    requires
        i < 6,
    ensures
        r == face_at(i as int),
{
    match i {
        0 => BlockFace::North,
        1 => BlockFace::South,
        2 => BlockFace::East,
        3 => BlockFace::West,
        4 => BlockFace::Top,
        _ => BlockFace::Bottom,
    }
}

/// The next repeater delay: 1, 2, 3, 4 and round again.
pub open spec fn next_delay(d: u8) -> u8 {
    if d >= 4 {
        1
    } else {
        (d + 1) as u8
    }
}

/// The block after a player uses it: a repeater's delay advances, a
/// comparator's mode flips, anything else stays as it is.
pub open spec fn used(b: Block) -> Block {
    match b {
        Block::RedstoneRepeater(r) => Block::RedstoneRepeater(
            RedstoneRepeater { delay: next_delay(r.delay), ..r },
        ),
        Block::RedstoneComparator(c) => Block::RedstoneComparator(
            RedstoneComparator { mode: c.mode.spec_flip(), ..c },
        ),
        _ => b,
    }
}

/// State ids of blocks that a placed block may replace (air, fluids, grass
/// and the like).
pub open spec fn replaceable_id(id: int) -> bool {
    id == 0 || (9129 <= id <= 9130) || (34 <= id <= 49) || (50 <= id <= 65) || (1341 <= id <= 1346)
        || (7357 <= id <= 7360)
}

/// The block named `name`, if it is one of the named blocks.
pub open spec fn named_block(name: Seq<char>) -> Option<Block> {
    if name == "air"@ {
        Some(Block::Air)
    } else if name == "glass"@ {
        Some(Block::Transparent(230))
    } else if name == "sandstone"@ {
        Some(Block::Solid(245))
    } else if name == "stone_bricks"@ {
        Some(Block::Solid(4481))
    } else {
        None
    }
}

/// The block placed from item `item_id` in `ctx`, or `None` for an item that
/// places no block.
pub open spec fn placement(item_id: u32, ctx: UseOnBlockContext) -> Option<Block> {
    if item_id == 64 {
        Some(Block::Transparent(230))
    } else if item_id == 68 {
        Some(Block::Solid(245))
    } else if 82 <= item_id <= 97 {
        Some(Block::Solid((item_id + 1301) as u32))
    } else if item_id == 173 {
        Some(
            match ctx.block_face {
                BlockFace::Top => Block::RedstoneTorch(true),
                BlockFace::Bottom => Block::RedstoneTorch(true),
                BlockFace::North => Block::RedstoneWallTorch(true, BlockDirection::North),
                BlockFace::South => Block::RedstoneWallTorch(true, BlockDirection::South),
                BlockFace::East => Block::RedstoneWallTorch(true, BlockDirection::East),
                BlockFace::West => Block::RedstoneWallTorch(true, BlockDirection::West),
            },
        )
    } else if 413 <= item_id <= 428 {
        Some(Block::Solid((item_id + 8489) as u32))
    } else if item_id == 513 {
        Some(
            Block::RedstoneRepeater(
                RedstoneRepeater {
                    delay: 1,
                    facing: ctx.player_direction.spec_opposite(),
                    locked: false,
                    powered: false,
                },
            ),
        )
    } else if item_id == 514 {
        Some(
            Block::RedstoneComparator(
                RedstoneComparator {
                    facing: ctx.player_direction.spec_opposite(),
                    mode: ComparatorMode::Compare,
                    powered: false,
                },
            ),
        )
    } else {
        None
    }
}

fn text_is(s: &str, t: &str) -> (r: bool)
    ensures
        r == (s@ == t@),
{
    let n = s.unicode_len();
    if n != t.unicode_len() {
        return false;
    }
    let mut i: usize = 0;
    while i < n
        invariant
            n == s@.len(),
            n == t@.len(),
            i <= n,
            s@.subrange(0, i as int) == t@.subrange(0, i as int),
        decreases n - i,
    {
        if s.get_char(i) != t.get_char(i) {
            return false;
        }
        assert(s@.subrange(0, i + 1) =~= s@.subrange(0, i as int).push(s@[i as int]));
        assert(t@.subrange(0, i + 1) =~= t@.subrange(0, i as int).push(t@[i as int]));
        i = i + 1;
    }
    assert(s@ =~= s@.subrange(0, n as int));
    assert(t@ =~= t@.subrange(0, n as int));
    true
}

impl Block {
    /// Whether a block may be placed where this one stands.
    pub fn can_place_block_in(&self) -> (r: bool)
        requires
            self.wf(),
        ensures
            r == replaceable_id(encode(*self)),
    {
        let id = self.get_id();
        id == 0 || (9129 <= id && id <= 9130) || (34 <= id && id <= 49) || (50 <= id && id <= 65)
            || (1341 <= id && id <= 1346) || (7357 <= id && id <= 7360)
    }

    /// The block with the given name, if any.
    pub fn from_name(name: &str) -> (r: Option<Block>)
        ensures
            r == named_block(name@),
    {
        if text_is(name, "air") {
            Some(Block::Air)
        } else if text_is(name, "glass") {
            Some(Block::Transparent(230))
        } else if text_is(name, "sandstone") {
            Some(Block::Solid(245))
        } else if text_is(name, "stone_bricks") {
            Some(Block::Solid(4481))
        } else {
            None
        }
    }
}

impl Block {
    /// A player uses this block, which stands at `pos`: a repeater's delay
    /// advances (1 to 4 and round again), a comparator's mode flips, and the
    /// result is written back; any other block passes.
    pub fn on_use(&self, plot: &mut Plot, pos: &BlockPos) -> (r: ActionResult)
        requires
            self.wf(),
            old(plot).wf(),
        ensures
            final(plot).wf(),
            (self is RedstoneRepeater || self is RedstoneComparator) ==> r == ActionResult::Success
                && final(plot)@ == store(old(plot)@, *pos, used(*self)),
            !(self is RedstoneRepeater || self is RedstoneComparator) ==> r == ActionResult::Pass
                && final(plot)@ == old(plot)@,
    {
        match self {
            Block::RedstoneRepeater(repeater) => {
                let mut repeater = *repeater;
                repeater.delay = repeater.delay + 1;
                if repeater.delay > 4 {
                    repeater.delay = repeater.delay - 4;
                }
                plot.set_block(pos, Block::RedstoneRepeater(repeater));
                ActionResult::Success
            },
            Block::RedstoneComparator(comparator) => {
                let mut comparator = *comparator;
                comparator.mode = comparator.mode.flip();
                plot.set_block(pos, Block::RedstoneComparator(comparator));
                ActionResult::Success
            },
            _ => ActionResult::Pass,
        }
    }

    /// The block that item `item_id` places in `context`. Repeaters and
    /// comparators face away from the placer; a torch on a side face becomes a
    /// wall torch. An item that places no block is an `UnsupportedItem`.
    pub fn get_block_for_placement(item_id: u32, context: &UseOnBlockContext) -> (r: Result<
        Block,
        BlockError,
    >)
        ensures
            match placement(item_id, *context) {
                Some(b) => r == Ok::<Block, BlockError>(b),
                None => r == Err::<Block, BlockError>(BlockError::UnsupportedItem),
            },
            r matches Ok(b) ==> b.wf(),
    {
        match item_id {
            64 => Ok(Block::Transparent(230)),
            68 => Ok(Block::Solid(245)),
            82..=97 => Ok(Block::Solid(item_id + 1301)),
            173 => Ok(
                match context.block_face {
                    BlockFace::Top => Block::RedstoneTorch(true),
                    BlockFace::Bottom => Block::RedstoneTorch(true),
                    BlockFace::North => Block::RedstoneWallTorch(true, BlockDirection::North),
                    BlockFace::South => Block::RedstoneWallTorch(true, BlockDirection::South),
                    BlockFace::East => Block::RedstoneWallTorch(true, BlockDirection::East),
                    BlockFace::West => Block::RedstoneWallTorch(true, BlockDirection::West),
                },
            ),
            413..=428 => Ok(Block::Solid(item_id + 8489)),
            513 => Ok(
                Block::RedstoneRepeater(
                    RedstoneRepeater {
                        delay: 1,
                        facing: context.player_direction.opposite(),
                        locked: false,
                        powered: false,
                    },
                ),
            ),
            514 => Ok(
                Block::RedstoneComparator(
                    RedstoneComparator {
                        mode: ComparatorMode::Compare,
                        facing: context.player_direction.opposite(),
                        powered: false,
                    },
                ),
            ),
            _ => Err(BlockError::UnsupportedItem),
        }
    }

    /// Whether this block, standing at `pos` in `plot`, emits power out of
    /// `face`: a lit torch on every lateral face, a lit wall torch on every
    /// lateral face but its back, a powered repeater or comparator on its
    /// output face only, a wire on the lateral faces it connects on while its
    /// power is above zero. Never the top or bottom face.
    pub fn is_powering(self, _plot: &Plot, _pos: &BlockPos, face: BlockFace) -> (r: bool)
        ensures
            r == powering(self, face),
    {
        match face {
            BlockFace::North | BlockFace::South | BlockFace::East | BlockFace::West => {
                match self {
                    Block::RedstoneTorch(lit) => lit,
                    Block::RedstoneWallTorch(lit, direction) => lit && direction.block_face()
                        != face,
                    Block::RedstoneRepeater(repeater) => repeater.powered
                        && repeater.facing.block_face() == face,
                    Block::RedstoneWire(wire) => wire.is_powering(face),
                    Block::RedstoneComparator(comparator) => comparator.powered
                        && comparator.facing.block_face() == face,
                    _ => false,
                }
            },
            BlockFace::Top => false,
            BlockFace::Bottom => false,
        }
    }

    /// Whether this block, standing at `pos` in `plot`, is powered. Only solid
    /// blocks and lamps can be: they are when a neighbor powers the face
    /// toward them, or when a neighbor is itself powered, followed through at
    /// most `depth` further blocks.
    pub fn is_powered(self, plot: &Plot, pos: &BlockPos, depth: u32) -> (r: bool)
        requires
            plot.wf(),
        ensures
            r == powered(plot@, self, *pos, depth as nat),
        decreases depth, 1nat,
    {
        match self {
            Block::Solid(_) | Block::RedstoneLamp(_) => {},
            _ => {
                return false;
            },
        }
        let mut i: usize = 0;
        while i < 6
            invariant
                plot.wf(),
                is_conductor(self),
                i <= 6,
                forall|j: int| 0 <= j < i ==> !neighbor_powers(plot@, *pos, j, depth as nat),
            decreases 6 - i,
        {
            if Block::neighbor_powers_at(plot, pos, i, depth) {
                return true;
            }
            i = i + 1;
        }
        assert(!neighbor_powers(plot@, *pos, 0, depth as nat));
        assert(!neighbor_powers(plot@, *pos, 1, depth as nat));
        assert(!neighbor_powers(plot@, *pos, 2, depth as nat));
        assert(!neighbor_powers(plot@, *pos, 3, depth as nat));
        assert(!neighbor_powers(plot@, *pos, 4, depth as nat));
        assert(!neighbor_powers(plot@, *pos, 5, depth as nat));
        false
    }

    fn neighbor_powers_at(plot: &Plot, pos: &BlockPos, i: usize, depth: u32) -> (r: bool)
        requires
            plot.wf(),
            i < 6,
        ensures
            r == neighbor_powers(plot@, *pos, i as int, depth as nat),
        decreases depth, 0nat,
    {
        let face = face_by_index(i);
        match pos.offset(face) {
            Ok(n) => {
                let neighbor = plot.get_block(&n);
                neighbor.is_powering(plot, &n, face) || (depth > 0 && neighbor.is_powered(
                    plot,
                    &n,
                    depth - 1,
                ))
            },
            Err(_) => false,
        }
    }

    /// Writes this block at `pos`.
    pub fn place_in_plot(self, plot: &mut Plot, pos: &BlockPos)
        requires
            self.wf(),
            old(plot).wf(),
        ensures
            final(plot).wf(),
            final(plot)@ == store(old(plot)@, *pos, self),
    {
        plot.set_block(pos, self);
    }
}

/// The block at `pos` with its derived fields recomputed from its
/// neighbors: a repeater is powered exactly when the block behind it is
/// powered (followed through at most `depth` blocks) or powers the repeater's
/// back face. Other blocks derive nothing.
pub open spec fn recomputed(m: Map<BlockPos, Block>, pos: BlockPos, depth: nat) -> Block {
    match block_at(m, pos) {
        Block::RedstoneRepeater(r) => {
            let face = r.facing.spec_block_face();
            let input = match pos.spec_offset(face) {
                Some(n) => powered(m, block_at(m, n), n, depth) || powering(block_at(m, n), face),
                None => false,
            };
            Block::RedstoneRepeater(RedstoneRepeater { powered: input, ..r })
        },
        b => b,
    }
}

/// The world after updating `pos`: its block is recomputed and written back;
/// where that changed it, or `force` is set, and `depth` is above zero, each
/// neighbor in turn (north, south, east, west, top, bottom) is updated the
/// same way, without force and with one less depth.
pub open spec fn cascade(m: Map<BlockPos, Block>, pos: BlockPos, force: bool, depth: nat) -> Map<
    BlockPos,
    Block,
>
    decreases depth, 0nat,
{
    let b = recomputed(m, pos, depth);
    let m1 = store(m, pos, b);
    if (block_at(m, pos) != b || force) && depth > 0 {
        cascade_neighbors(m1, pos, 0, (depth - 1) as nat)
    } else {
        m1
    }
}

/// The world after updating, in turn, the neighbors of `pos` from face number
/// `i` on.
pub open spec fn cascade_neighbors(m: Map<BlockPos, Block>, pos: BlockPos, i: int, depth: nat) -> Map<
    BlockPos,
    Block,
>
    decreases depth, (7 - i) as nat,
{
    if i < 0 || i >= 6 {
        m
    } else {
        let m2 = match pos.spec_offset(face_at(i)) {
            Some(n) => cascade(m, n, false, depth),
            None => m,
        };
        cascade_neighbors(m2, pos, i + 1, depth)
    }
}

impl Block {
    /// Recomputes the block at `pos` and writes it back; where that changed
    /// the store, or `force` is set, updates the six neighbors in turn, to at
    /// most `depth` levels. The block at `pos` is read from the store.
    pub fn update(self, plot: &mut Plot, pos: &BlockPos, force: bool, depth: u32)
        requires
            old(plot).wf(),
        ensures
            final(plot).wf(),
            final(plot)@ == cascade(old(plot)@, *pos, force, depth as nat),
        decreases depth, 0nat,
    {
        let current = plot.get_block(pos);
        let new_block = match current {
            Block::RedstoneRepeater(repeater) => {
                let mut repeater = repeater;
                let input_face = repeater.facing.block_face();
                repeater.powered = match pos.offset(input_face) {
                    Ok(n) => {
                        let input_block = plot.get_block(&n);
                        input_block.is_powered(plot, &n, depth) || input_block.is_powering(
                            plot,
                            &n,
                            input_face,
                        )
                    },
                    Err(_) => false,
                };
                Block::RedstoneRepeater(repeater)
            },
            _ => current,
        };
        let changed = plot.set_block(pos, new_block);
        if (changed || force) && depth > 0 {
            let ghost m1 = plot@;
            let mut i: usize = 0;
            while i < 6
                invariant
                    plot.wf(),
                    i <= 6,
                    depth > 0,
                    cascade_neighbors(plot@, *pos, i as int, (depth - 1) as nat)
                        == cascade_neighbors(m1, *pos, 0, (depth - 1) as nat),
                decreases 6 - i,
            {
                let face = face_by_index(i);
                match pos.offset(face) {
                    Ok(n) => {
                        let neighbor = plot.get_block(&n);
                        neighbor.update(plot, &n, false, depth - 1);
                    },
                    Err(_) => {},
                }
                i = i + 1;
            }
        }
    }
}

/// When recomputing a block leaves it as it is and no update is forced, the
/// update changes nothing and goes no further.
pub proof fn lemma_update_gated(m: Map<BlockPos, Block>, pos: BlockPos, depth: nat)
    requires
        recomputed(m, pos, depth) == block_at(m, pos),
    ensures
        cascade(m, pos, false, depth) == m,
{
}

/// The number of unit steps between two positions along the axes.
pub open spec fn distance(p: BlockPos, q: BlockPos) -> int {
    let dx = p.x - q.x;
    let dy = p.y - q.y;
    let dz = p.z - q.z;
    (if dx < 0 {
        -dx
    } else {
        dx
    }) + (if dy < 0 {
        -dy
    } else {
        dy
    }) + (if dz < 0 {
        -dz
    } else {
        dz
    })
}

/// An update started at `pos` with budget `depth` leaves every position more
/// than `depth` steps away from `pos` as it was: a cascade reaches no further
/// than its budget, whatever the circuit, loops included.
pub proof fn lemma_cascade_reach(
    m: Map<BlockPos, Block>,
    pos: BlockPos,
    force: bool,
    depth: nat,
    q: BlockPos,
)
    requires
        distance(q, pos) > depth,
    ensures
        block_at(cascade(m, pos, force, depth), q) == block_at(m, q),
    decreases depth, 0nat,
{
    let b = recomputed(m, pos, depth);
    let m1 = store(m, pos, b);
    assert(q != pos);
    assert(block_at(m1, q) == block_at(m, q));
    if (block_at(m, pos) != b || force) && depth > 0 {
        lemma_cascade_neighbors_reach(m1, pos, 0, (depth - 1) as nat, q);
    }
}

proof fn lemma_cascade_neighbors_reach(
    m: Map<BlockPos, Block>,
    pos: BlockPos,
    i: int,
    depth: nat,
    q: BlockPos,
)
    requires
        distance(q, pos) > depth + 1,
    ensures
        block_at(cascade_neighbors(m, pos, i, depth), q) == block_at(m, q),
    decreases depth, (7 - i) as nat,
{
    if 0 <= i < 6 {
        let m2 = match pos.spec_offset(face_at(i)) {
            Some(n) => {
                lemma_cascade_reach(m, n, false, depth, q);
                cascade(m, n, false, depth)
            },
            None => m,
        };
        lemma_cascade_neighbors_reach(m2, pos, i + 1, depth, q);
    }
}

/// Whether `b` is `a`, but for the `powered` flag of a repeater.
pub open spec fn same_but_powered(a: Block, b: Block) -> bool {
    match (a, b) {
        (Block::RedstoneRepeater(r), Block::RedstoneRepeater(s)) => r.delay == s.delay && r.facing
            == s.facing && r.locked == s.locked,
        _ => a == b,
    }
}

/// An update changes no block but for the `powered` flag of repeaters:
/// kinds, delays, orientations and every other field stay as they were.
pub proof fn lemma_cascade_only_powers(
    m: Map<BlockPos, Block>,
    pos: BlockPos,
    force: bool,
    depth: nat,
    q: BlockPos,
)
    ensures
        same_but_powered(block_at(m, q), block_at(cascade(m, pos, force, depth), q)),
    decreases depth, 0nat,
{
    let b = recomputed(m, pos, depth);
    let m1 = store(m, pos, b);
    assert(same_but_powered(block_at(m, q), block_at(m1, q)));
    if (block_at(m, pos) != b || force) && depth > 0 {
        lemma_cascade_neighbors_only_powers(m1, pos, 0, (depth - 1) as nat, q);
    }
}

proof fn lemma_cascade_neighbors_only_powers(
    m: Map<BlockPos, Block>,
    pos: BlockPos,
    i: int,
    depth: nat,
    q: BlockPos,
)
    ensures
        same_but_powered(block_at(m, q), block_at(cascade_neighbors(m, pos, i, depth), q)),
    decreases depth, (7 - i) as nat,
{
    if 0 <= i < 6 {
        let m2 = match pos.spec_offset(face_at(i)) {
            Some(n) => {
                lemma_cascade_only_powers(m, n, false, depth, q);
                cascade(m, n, false, depth)
            },
            None => m,
        };
        lemma_cascade_neighbors_only_powers(m2, pos, i + 1, depth, q);
    }
}

/// Using a repeater four times brings its delay back; using a comparator
/// twice brings its mode back.
pub proof fn lemma_use_cycles(b: Block)
    requires
        b.wf(),
    ensures
        b is RedstoneRepeater ==> used(used(used(used(b)))) == b,
        b is RedstoneComparator ==> used(used(b)) == b,
{
}

/// A lit wall torch powers every lateral face but the one it is mounted on.
pub proof fn lemma_wall_torch_faces(d: BlockDirection, face: BlockFace)
    ensures
        powering(Block::RedstoneWallTorch(true, d), face) == (is_lateral(face) && face
            != d.spec_block_face()),
        !powering(Block::RedstoneWallTorch(true, d), d.spec_block_face()),
{
}

/// Repeaters and comparators face away from their placer; a torch placed on
/// a side face is a lit wall torch facing that way.
pub proof fn lemma_placement_orientation(ctx: UseOnBlockContext)
    ensures
        placement(513, ctx) matches Some(Block::RedstoneRepeater(r)) && r.facing
            == ctx.player_direction.spec_opposite(),
        placement(514, ctx) matches Some(Block::RedstoneComparator(c)) && c.facing
            == ctx.player_direction.spec_opposite(),
        ctx.block_face == BlockFace::North ==> placement(173, ctx) == Some(
            Block::RedstoneWallTorch(true, BlockDirection::North),
        ),
{
}

} // verus!
