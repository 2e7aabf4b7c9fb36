use crate::geometry::{BlockDirection, BlockError};
use vstd::prelude::*;

verus! {

/// How a wire connects on one horizontal side.
#[derive(Copy, Clone, Debug, PartialEq, Eq, Structural)]
pub enum RedstoneWireSide {
    Up,
    Side,
    Unconnected,
}

impl RedstoneWireSide {
    pub open spec fn spec_get_id(self) -> u32 {
        match self {
            RedstoneWireSide::Up => 0,
            RedstoneWireSide::Side => 1,
            RedstoneWireSide::Unconnected => 2,
        }
    }

    pub open spec fn spec_from_id(id: u32) -> Option<RedstoneWireSide> {
        if id == 0 {
            Some(RedstoneWireSide::Up)
        } else if id == 1 {
            Some(RedstoneWireSide::Side)
        } else if id == 2 {
            Some(RedstoneWireSide::Unconnected)
        } else {
            None
        }
    }

    /// The side with ordinal `id` (up, side, unconnected); an ordinal above 2 is malformed.
    pub fn from_id(id: u32) -> (r: Result<RedstoneWireSide, BlockError>)
        ensures
            match Self::spec_from_id(id) {
                Some(s) => r == Ok::<RedstoneWireSide, BlockError>(s),
                None => r == Err::<RedstoneWireSide, BlockError>(BlockError::MalformedOrdinal),
            },
    {
        match id {
            0 => Ok(RedstoneWireSide::Up),
            1 => Ok(RedstoneWireSide::Side),
            2 => Ok(RedstoneWireSide::Unconnected),
            _ => Err(BlockError::MalformedOrdinal),
        }
    }

    pub fn get_id(self) -> (r: u32)
        ensures
            r == self.spec_get_id(),
            r < 3,
            Self::spec_from_id(r) == Some(self),
    {
        match self {
            RedstoneWireSide::Up => 0,
            RedstoneWireSide::Side => 1,
            RedstoneWireSide::Unconnected => 2,
        }
    }
}

/// Redstone dust: a connection on each horizontal side and a power level.
#[derive(Copy, Clone, Debug, PartialEq, Eq, Structural)]
pub struct RedstoneWire {
    pub north: RedstoneWireSide,
    pub south: RedstoneWireSide,
    pub east: RedstoneWireSide,
    pub west: RedstoneWireSide,
    pub power: u8,
}

impl RedstoneWire {
    pub open spec fn wf(self) -> bool {
        self.power <= 15
    }

    pub fn new(
        north: RedstoneWireSide,
        south: RedstoneWireSide,
        east: RedstoneWireSide,
        west: RedstoneWireSide,
        power: u8,
    ) -> (r: RedstoneWire)
        requires
            power <= 15,
        ensures
            r == (RedstoneWire { north, south, east, west, power }),
            r.wf(),
    {
        RedstoneWire { north, south, east, west, power }
    }
}

/// A repeater: delay of 1 to 4 ticks, orientation, lock and power flags.
#[derive(Copy, Clone, Debug, PartialEq, Eq, Structural)]
pub struct RedstoneRepeater {
    pub delay: u8,
    pub facing: BlockDirection,
    pub locked: bool,
    pub powered: bool,
}

impl RedstoneRepeater {
    pub open spec fn wf(self) -> bool {
        1 <= self.delay <= 4
    }

    pub fn new(delay: u8, facing: BlockDirection, locked: bool, powered: bool) -> (r:
        RedstoneRepeater)
        requires
            1 <= delay <= 4,
        ensures
            r == (RedstoneRepeater { delay, facing, locked, powered }),
            r.wf(),
    {
        RedstoneRepeater { delay, facing, locked, powered }
    }
}

/// The two modes of a comparator.
#[derive(Copy, Clone, Debug, PartialEq, Eq, Structural)]
pub enum ComparatorMode {
    Compare,
    Subtract,
}

impl ComparatorMode {
    pub open spec fn spec_get_id(self) -> u32 {
        match self {
            ComparatorMode::Compare => 0,
            ComparatorMode::Subtract => 1,
        }
    }

    pub open spec fn spec_from_id(id: u32) -> Option<ComparatorMode> {
        if id == 0 {
            Some(ComparatorMode::Compare)
        } else if id == 1 {
            Some(ComparatorMode::Subtract)
        } else {
            None
        }
    }

    pub open spec fn spec_flip(self) -> ComparatorMode {
        match self {
            ComparatorMode::Compare => ComparatorMode::Subtract,
            ComparatorMode::Subtract => ComparatorMode::Compare,
        }
    }

    /// The mode with ordinal `id` (compare, subtract); an ordinal above 1 is malformed.
    pub fn from_id(id: u32) -> (r: Result<ComparatorMode, BlockError>)
        ensures
            match Self::spec_from_id(id) {
                Some(m) => r == Ok::<ComparatorMode, BlockError>(m),
                None => r == Err::<ComparatorMode, BlockError>(BlockError::MalformedOrdinal),
            },
    {
        match id {
            0 => Ok(ComparatorMode::Compare),
            1 => Ok(ComparatorMode::Subtract),
            _ => Err(BlockError::MalformedOrdinal),
        }
    }

    pub fn get_id(self) -> (r: u32)
        ensures
            r == self.spec_get_id(),
            r < 2,
            Self::spec_from_id(r) == Some(self),
    {
        match self {
            ComparatorMode::Compare => 0,
            ComparatorMode::Subtract => 1,
        }
    }

    pub fn flip(self) -> (r: ComparatorMode)
        ensures
            r == self.spec_flip(),
            r != self,
            r.spec_flip() == self,
    {
        match self {
            ComparatorMode::Subtract => ComparatorMode::Compare,
            ComparatorMode::Compare => ComparatorMode::Subtract,
        }
    }
}

/// A comparator: orientation, mode and power flag.
#[derive(Copy, Clone, Debug, PartialEq, Eq, Structural)]
pub struct RedstoneComparator {
    pub facing: BlockDirection,
    pub mode: ComparatorMode,
    pub powered: bool,
}

impl RedstoneComparator {
    pub fn new(facing: BlockDirection, mode: ComparatorMode, powered: bool) -> (r:
        RedstoneComparator)
        ensures
            r == (RedstoneComparator { facing, mode, powered }),
    {
        RedstoneComparator { facing, mode, powered }
    }
}

/// A block of the world. `Solid` and `Transparent` carry the raw state id of
/// any block that is not modeled in detail.
#[derive(Copy, Clone, Debug, PartialEq, Eq, Structural)]
pub enum Block {
    Air,
    RedstoneWire(RedstoneWire),
    RedstoneRepeater(RedstoneRepeater),
    RedstoneComparator(RedstoneComparator),
    RedstoneTorch(bool),
    RedstoneWallTorch(bool, BlockDirection),
    RedstoneLamp(bool),
    Solid(u32),
    Transparent(u32),
}

impl Block {
    /// Field ranges: wire power at most 15, repeater delay 1 to 4.
    pub open spec fn wf(self) -> bool {
        match self {
            Block::RedstoneWire(w) => w.wf(),
            Block::RedstoneRepeater(r) => r.wf(),
            _ => true,
        }
    }

    /// The ordinal of the variant, ignoring its fields.
    pub open spec fn kind(self) -> int {
        match self {
            Block::Air => 0,
            Block::RedstoneWire(_) => 1,
            Block::RedstoneRepeater(_) => 2,
            Block::RedstoneComparator(_) => 3,
            Block::RedstoneTorch(_) => 4,
            Block::RedstoneWallTorch(_, _) => 5,
            Block::RedstoneLamp(_) => 6,
            Block::Solid(_) => 7,
            Block::Transparent(_) => 8,
        }
    }

    /// Whether both blocks are of the same variant, whatever their fields.
    pub fn compare_variant(&self, other: &Block) -> (r: bool)
        ensures
            r == (self.kind() == other.kind()),
    {
        match (self, other) {
            (Block::Air, Block::Air) => true,
            (Block::RedstoneWire(_), Block::RedstoneWire(_)) => true,
            (Block::RedstoneRepeater(_), Block::RedstoneRepeater(_)) => true,
            (Block::RedstoneComparator(_), Block::RedstoneComparator(_)) => true,
            (Block::RedstoneTorch(_), Block::RedstoneTorch(_)) => true,
            (Block::RedstoneWallTorch(_, _), Block::RedstoneWallTorch(_, _)) => true,
            (Block::RedstoneLamp(_), Block::RedstoneLamp(_)) => true,
            (Block::Solid(_), Block::Solid(_)) => true,
            (Block::Transparent(_), Block::Transparent(_)) => true,
            _ => false,
        }
    }
}

} // verus!
