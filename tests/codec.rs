use redstone::{
    Block, BlockDirection, BlockError, BlockFace, ComparatorMode, RedstoneComparator, RedstoneRepeater, RedstoneWire,
    RedstoneWireSide,
};

#[test]
fn repeater_id_test() {
    let block =
        Block::RedstoneRepeater(RedstoneRepeater::new(3, BlockDirection::West, true, false));
    let id = block.get_id();
    assert_eq!(id, 4058);
    let new = Block::from_block_state(id);
    assert_eq!(new, block);
}

#[test]
fn comparator_id_test() {
    let block = Block::RedstoneComparator(RedstoneComparator::new(
        BlockDirection::West,
        ComparatorMode::Subtract,
        false,
    ));
    let id = block.get_id();
    assert_eq!(id, 6153);
    let new = Block::from_block_state(id);
    assert_eq!(new, block);
}

#[test]
fn air_encodes_to_zero() {
    assert_eq!(Block::Air.get_id(), 0);
    assert_eq!(Block::from_block_state(0), Block::Air);
}

#[test]
fn every_id_round_trips() {
    for id in 0u32..20000 {
        let b = Block::from_block_state(id);
        assert_eq!(b.get_id(), id);
        assert_eq!(Block::from_block_state(b.get_id()), b);
    }
    for id in [u32::MAX, u32::MAX - 1, 1 << 20] {
        assert_eq!(Block::from_block_state(id), Block::Solid(id));
        assert_eq!(Block::from_block_state(id).get_id(), id);
    }
}

#[test]
fn wire_states_round_trip() {
    let sides = [RedstoneWireSide::Up, RedstoneWireSide::Side, RedstoneWireSide::Unconnected];
    let mut seen = std::collections::HashSet::new();
    for &north in &sides {
        for &south in &sides {
            for &east in &sides {
                for &west in &sides {
                    for power in 0u8..16 {
                        let b = Block::RedstoneWire(RedstoneWire::new(north, south, east, west, power));
                        let id = b.get_id();
                        assert!((2056..=3351).contains(&id));
                        assert_eq!(Block::from_block_state(id), b);
                        seen.insert(id);
                    }
                }
            }
        }
    }
    assert_eq!(seen.len(), 1296);
}

#[test]
fn wire_field_layout() {
    let b = Block::RedstoneWire(RedstoneWire::new(
        RedstoneWireSide::Up,
        RedstoneWireSide::Up,
        RedstoneWireSide::Up,
        RedstoneWireSide::Side,
        0,
    ));
    assert_eq!(b.get_id(), 2057);
    let b = Block::RedstoneWire(RedstoneWire::new(
        RedstoneWireSide::Unconnected,
        RedstoneWireSide::Up,
        RedstoneWireSide::Unconnected,
        RedstoneWireSide::Up,
        15,
    ));
    assert_eq!(b.get_id(), 2056 + 2 * 432 + 2 * 144 + 15 * 9);
}

#[test]
fn fixed_ids() {
    assert_eq!(Block::RedstoneTorch(true).get_id(), 3885);
    assert_eq!(Block::RedstoneTorch(false).get_id(), 3886);
    assert_eq!(Block::RedstoneLamp(true).get_id(), 5140);
    assert_eq!(Block::RedstoneLamp(false).get_id(), 5141);
    assert_eq!(Block::RedstoneWallTorch(true, BlockDirection::North).get_id(), 3887);
    assert_eq!(Block::RedstoneWallTorch(false, BlockDirection::East).get_id(), 3894);
    assert_eq!(Block::from_block_state(3888), Block::RedstoneWallTorch(false, BlockDirection::North));
    assert_eq!(Block::Transparent(230).get_id(), 230);
    assert_eq!(Block::Solid(245).get_id(), 245);
    assert_eq!(
        Block::from_block_state(4017),
        Block::RedstoneRepeater(RedstoneRepeater::new(1, BlockDirection::North, true, true))
    );
    assert_eq!(
        Block::from_block_state(4080),
        Block::RedstoneRepeater(RedstoneRepeater::new(4, BlockDirection::East, false, false))
    );
}

#[test]
fn malformed_ordinals_are_errors() {
    assert_eq!(BlockFace::from_id(6), Err(BlockError::MalformedOrdinal));
    assert_eq!(BlockFace::from_id(5), Ok(BlockFace::East));
    assert_eq!(BlockDirection::from_id(4), Err(BlockError::MalformedOrdinal));
    assert_eq!(BlockDirection::from_id(2), Ok(BlockDirection::West));
    assert_eq!(RedstoneWireSide::from_id(3), Err(BlockError::MalformedOrdinal));
    assert_eq!(RedstoneWireSide::from_id(2), Ok(RedstoneWireSide::Unconnected));
    assert_eq!(ComparatorMode::from_id(2), Err(BlockError::MalformedOrdinal));
    assert_eq!(ComparatorMode::from_id(1), Ok(ComparatorMode::Subtract));
    assert_eq!(BlockDirection::West.get_id(), 2);
    assert_eq!(RedstoneWireSide::Side.get_id(), 1);
    assert_eq!(ComparatorMode::Compare.get_id(), 0);
    assert_eq!(ComparatorMode::Compare.flip(), ComparatorMode::Subtract);
}

#[test]
fn variants_compare() {
    assert!(Block::Solid(1).compare_variant(&Block::Solid(2)));
    assert!(!Block::Solid(1).compare_variant(&Block::Transparent(1)));
    assert!(Block::RedstoneTorch(true).compare_variant(&Block::RedstoneTorch(false)));
    assert!(!Block::Air.compare_variant(&Block::RedstoneLamp(true)));
}
