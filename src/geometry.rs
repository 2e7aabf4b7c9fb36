use vstd::prelude::*;

verus! {

/// Errors raised by the block model instead of aborting.
#[derive(Copy, Clone, Debug, PartialEq, Eq, Structural)]
pub enum BlockError {
    /// An ordinal of a face, direction or mode outside its range.
    MalformedOrdinal,
    /// An item id that maps to no placeable block.
    UnsupportedItem,
    /// A neighbor position that lies outside the world's coordinates.
    PositionOutOfRange,
}

/// A block position: signed horizontal coordinates, unsigned elevation.
#[derive(Copy, Clone, Debug, PartialEq, Eq, Structural)]
pub struct BlockPos {
    pub x: i32,
    pub y: u32,
    pub z: i32,
}

/// The six neighbor relations of a block.
#[derive(Copy, Clone, Debug, PartialEq, Eq, Structural)]
pub enum BlockFace {
    Bottom,
    Top,
    North,
    South,
    West,
    East,
}

/// The four horizontal orientations of a placed component.
#[derive(Copy, Clone, Debug, PartialEq, Eq, Structural)]
pub enum BlockDirection {
    North,
    South,
    East,
    West,
}

/// The face with number `i`, in the order in which neighbors are visited:
/// north, south, east, west, top, bottom.
pub open spec fn face_at(i: int) -> BlockFace {
    if i == 0 {
        BlockFace::North
    } else if i == 1 {
        BlockFace::South
    } else if i == 2 {
        BlockFace::East
    } else if i == 3 {
        BlockFace::West
    } else if i == 4 {
        BlockFace::Top
    } else {
        BlockFace::Bottom
    }
}

pub open spec fn is_lateral(f: BlockFace) -> bool {
    f != BlockFace::Top && f != BlockFace::Bottom
}

impl BlockPos {
    pub fn new(x: i32, y: u32, z: i32) -> (r: BlockPos)
        ensures
            r == (BlockPos { x, y, z }),
    {
        BlockPos { x, y, z }
    }

    /// The neighbor along `face`, or `None` where it leaves the coordinate range.
    pub open spec fn spec_offset(self, face: BlockFace) -> Option<BlockPos> {
        match face {
            BlockFace::Bottom => if self.y > 0 {
                Some(BlockPos { x: self.x, y: (self.y - 1) as u32, z: self.z })
            } else {
                None
            },
            BlockFace::Top => if self.y < u32::MAX {
                Some(BlockPos { x: self.x, y: (self.y + 1) as u32, z: self.z })
            } else {
                None
            },
            BlockFace::North => if self.z > i32::MIN {
                Some(BlockPos { x: self.x, y: self.y, z: (self.z - 1) as i32 })
            } else {
                None
            },
            BlockFace::South => if self.z < i32::MAX {
                Some(BlockPos { x: self.x, y: self.y, z: (self.z + 1) as i32 })
            } else {
                None
            },
            BlockFace::West => if self.x > i32::MIN {
                Some(BlockPos { x: (self.x - 1) as i32, y: self.y, z: self.z })
            } else {
                None
            },
            BlockFace::East => if self.x < i32::MAX {
                Some(BlockPos { x: (self.x + 1) as i32, y: self.y, z: self.z })
            } else {
                None
            },
        }
    }

    /// The neighboring position along `face`; fails with `PositionOutOfRange`
    /// where that would leave the coordinate range (below elevation zero, say).
    pub fn offset(&self, face: BlockFace) -> (r: Result<BlockPos, BlockError>)
        ensures
            match self.spec_offset(face) {
                Some(p) => r == Ok::<BlockPos, BlockError>(p),
                None => r == Err::<BlockPos, BlockError>(BlockError::PositionOutOfRange),
            },
    {
        match face {
            BlockFace::Bottom => if self.y > 0 {
                Ok(BlockPos::new(self.x, self.y - 1, self.z))
            } else {
                Err(BlockError::PositionOutOfRange)
            },
            BlockFace::Top => if self.y < u32::MAX {
                Ok(BlockPos::new(self.x, self.y + 1, self.z))
            } else {
                Err(BlockError::PositionOutOfRange)
            },
            BlockFace::North => if self.z > i32::MIN {
                Ok(BlockPos::new(self.x, self.y, self.z - 1))
            } else {
                Err(BlockError::PositionOutOfRange)
            },
            BlockFace::South => if self.z < i32::MAX {
                Ok(BlockPos::new(self.x, self.y, self.z + 1))
            } else {
                Err(BlockError::PositionOutOfRange)
            },
            BlockFace::West => if self.x > i32::MIN {
                Ok(BlockPos::new(self.x - 1, self.y, self.z))
            } else {
                Err(BlockError::PositionOutOfRange)
            },
            BlockFace::East => if self.x < i32::MAX {
                Ok(BlockPos::new(self.x + 1, self.y, self.z))
            } else {
                Err(BlockError::PositionOutOfRange)
            },
        }
    }
}

impl BlockFace {
    pub open spec fn spec_from_id(id: u32) -> Option<BlockFace> {
        if id == 0 {
            Some(BlockFace::Bottom)
        } else if id == 1 {
            Some(BlockFace::Top)
        } else if id == 2 {
            Some(BlockFace::North)
        } else if id == 3 {
            Some(BlockFace::South)
        } else if id == 4 {
            Some(BlockFace::West)
        } else if id == 5 {
            Some(BlockFace::East)
        } else {
            None
        }
    }

    /// The face with ordinal `id` (bottom, top, north, south, west, east);
    /// an ordinal above 5 is malformed.
    pub fn from_id(id: u32) -> (r: Result<BlockFace, BlockError>)
        ensures
            match Self::spec_from_id(id) {
                Some(f) => r == Ok::<BlockFace, BlockError>(f),
                None => r == Err::<BlockFace, BlockError>(BlockError::MalformedOrdinal),
            },
    {
        match id {
            0 => Ok(BlockFace::Bottom),
            1 => Ok(BlockFace::Top),
            2 => Ok(BlockFace::North),
            3 => Ok(BlockFace::South),
            4 => Ok(BlockFace::West),
            5 => Ok(BlockFace::East),
            _ => Err(BlockError::MalformedOrdinal),
        }
    }
}

impl BlockDirection {
    pub open spec fn spec_opposite(self) -> BlockDirection {
        match self {
            BlockDirection::North => BlockDirection::South,
            BlockDirection::South => BlockDirection::North,
            BlockDirection::East => BlockDirection::West,
            BlockDirection::West => BlockDirection::East,
        }
    }

    /// The face a component oriented this way is attached to: its back.
    pub open spec fn spec_block_face(self) -> BlockFace {
        match self {
            BlockDirection::North => BlockFace::South,
            BlockDirection::South => BlockFace::North,
            BlockDirection::East => BlockFace::West,
            BlockDirection::West => BlockFace::East,
        }
    }

    pub open spec fn spec_get_id(self) -> u32 {
        match self {
            BlockDirection::North => 0,
            BlockDirection::South => 1,
            BlockDirection::West => 2,
            BlockDirection::East => 3,
        }
    }

    pub open spec fn spec_from_id(id: u32) -> Option<BlockDirection> {
        if id == 0 {
            Some(BlockDirection::North)
        } else if id == 1 {
            Some(BlockDirection::South)
        } else if id == 2 {
            Some(BlockDirection::West)
        } else if id == 3 {
            Some(BlockDirection::East)
        } else {
            None
        }
    }

    pub fn opposite(self) -> (r: BlockDirection)
        ensures
            r == self.spec_opposite(),
    {
        match self {
            BlockDirection::North => BlockDirection::South,
            BlockDirection::South => BlockDirection::North,
            BlockDirection::East => BlockDirection::West,
            BlockDirection::West => BlockDirection::East,
        }
    }

    pub fn block_face(self) -> (r: BlockFace)
        ensures
            r == self.spec_block_face(),
    {
        match self {
            BlockDirection::North => BlockFace::South,
            BlockDirection::South => BlockFace::North,
            BlockDirection::East => BlockFace::West,
            BlockDirection::West => BlockFace::East,
        }
    }

    /// The direction with ordinal `id` (north, south, west, east); an ordinal
    /// above 3 is malformed.
    pub fn from_id(id: u32) -> (r: Result<BlockDirection, BlockError>)
        ensures
            match Self::spec_from_id(id) {
                Some(d) => r == Ok::<BlockDirection, BlockError>(d),
                None => r == Err::<BlockDirection, BlockError>(BlockError::MalformedOrdinal),
            },
    {
        match id {
            0 => Ok(BlockDirection::North),
            1 => Ok(BlockDirection::South),
            2 => Ok(BlockDirection::West),
            3 => Ok(BlockDirection::East),
            _ => Err(BlockError::MalformedOrdinal),
        }
    }

    pub fn get_id(self) -> (r: u32)
        ensures
            r == self.spec_get_id(),
            r < 4,
            Self::spec_from_id(r) == Some(self),
    {
        match self {
            BlockDirection::North => 0,
            BlockDirection::South => 1,
            BlockDirection::West => 2,
            BlockDirection::East => 3,
        }
    }
}

/// Each direction is the opposite of its opposite, and the back faces of the
/// four directions are the four lateral faces, one each.
pub proof fn lemma_direction_faces(d: BlockDirection, e: BlockDirection)
    ensures
        d.spec_opposite().spec_opposite() == d,
        d.spec_opposite() != d,
        is_lateral(d.spec_block_face()),
        d.spec_block_face() == e.spec_block_face() ==> d == e,
{
}

} // verus!
