use redstone::{
    ActionResult, Block, BlockDirection, BlockError, BlockFace, BlockPos, ComparatorMode, Plot,
    RedstoneComparator, RedstoneRepeater, RedstoneWire, RedstoneWireSide, UseOnBlockContext,
};

fn repeater(delay: u8, facing: BlockDirection, powered: bool) -> Block {
    Block::RedstoneRepeater(RedstoneRepeater::new(delay, facing, false, powered))
}

fn is_powered_repeater(b: Block) -> bool {
    match b {
        Block::RedstoneRepeater(r) => r.powered,
        _ => panic!("not a repeater"),
    }
}

#[test]
fn offsets_and_floor() {
    let p = BlockPos::new(0, 5, 0);
    assert_eq!(p.offset(BlockFace::Top), Ok(BlockPos::new(0, 6, 0)));
    assert_eq!(p.offset(BlockFace::Bottom), Ok(BlockPos::new(0, 4, 0)));
    assert_eq!(p.offset(BlockFace::North), Ok(BlockPos::new(0, 5, -1)));
    assert_eq!(p.offset(BlockFace::South), Ok(BlockPos::new(0, 5, 1)));
    assert_eq!(p.offset(BlockFace::West), Ok(BlockPos::new(-1, 5, 0)));
    assert_eq!(p.offset(BlockFace::East), Ok(BlockPos::new(1, 5, 0)));
    let floor = BlockPos::new(3, 0, 3);
    assert_eq!(floor.offset(BlockFace::Bottom), Err(BlockError::PositionOutOfRange));
    let edge = BlockPos::new(i32::MAX, 0, i32::MIN);
    assert_eq!(edge.offset(BlockFace::East), Err(BlockError::PositionOutOfRange));
    assert_eq!(edge.offset(BlockFace::North), Err(BlockError::PositionOutOfRange));
}

#[test]
fn directions() {
    assert_eq!(BlockDirection::North.opposite(), BlockDirection::South);
    assert_eq!(BlockDirection::East.opposite(), BlockDirection::West);
    assert_eq!(BlockDirection::North.block_face(), BlockFace::South);
    assert_eq!(BlockDirection::West.block_face(), BlockFace::East);
}

#[test]
fn store_reports_changes() {
    let mut plot = Plot::new();
    let p = BlockPos::new(1, 2, 3);
    assert_eq!(plot.get_block(&p), Block::Air);
    assert!(!plot.set_block(&p, Block::Air));
    assert!(plot.set_block(&p, Block::Solid(1)));
    assert!(!plot.set_block(&p, Block::Solid(1)));
    assert_eq!(plot.get_block(&p), Block::Solid(1));
    assert_eq!(plot.get_block(&BlockPos::new(1, 2, 4)), Block::Air);
    assert_eq!(plot.get_block(&BlockPos::new(-1, 2, 3)), Block::Air);
}

#[test]
fn wall_torch_skips_its_back() {
    let plot = Plot::new();
    let pos = BlockPos::new(0, 1, 0);
    let torch = Block::RedstoneWallTorch(true, BlockDirection::North);
    let back = BlockDirection::North.block_face();
    assert!(!torch.is_powering(&plot, &pos, back));
    assert!(torch.is_powering(&plot, &pos, BlockFace::North));
    assert!(torch.is_powering(&plot, &pos, BlockFace::East));
    assert!(torch.is_powering(&plot, &pos, BlockFace::West));
    assert!(!torch.is_powering(&plot, &pos, BlockFace::Top));
    let unlit = Block::RedstoneWallTorch(false, BlockDirection::North);
    assert!(!unlit.is_powering(&plot, &pos, BlockFace::East));
}

#[test]
fn powering_by_kind() {
    let plot = Plot::new();
    let pos = BlockPos::new(0, 1, 0);
    assert!(Block::RedstoneTorch(true).is_powering(&plot, &pos, BlockFace::South));
    assert!(!Block::RedstoneTorch(true).is_powering(&plot, &pos, BlockFace::Bottom));
    assert!(!Block::RedstoneTorch(false).is_powering(&plot, &pos, BlockFace::South));
    let r = repeater(1, BlockDirection::East, true);
    assert!(r.is_powering(&plot, &pos, BlockFace::West));
    assert!(!r.is_powering(&plot, &pos, BlockFace::East));
    let c = Block::RedstoneComparator(RedstoneComparator::new(
        BlockDirection::South,
        ComparatorMode::Compare,
        true,
    ));
    assert!(c.is_powering(&plot, &pos, BlockFace::North));
    assert!(!c.is_powering(&plot, &pos, BlockFace::South));
    let w = RedstoneWire::new(
        RedstoneWireSide::Side,
        RedstoneWireSide::Unconnected,
        RedstoneWireSide::Up,
        RedstoneWireSide::Unconnected,
        7,
    );
    assert!(w.is_powering(BlockFace::North));
    assert!(w.is_powering(BlockFace::East));
    assert!(!w.is_powering(BlockFace::South));
    assert!(!w.is_powering(BlockFace::Top));
    assert!(Block::RedstoneWire(w).is_powering(&plot, &pos, BlockFace::East));
    let dead = RedstoneWire::new(
        RedstoneWireSide::Side,
        RedstoneWireSide::Side,
        RedstoneWireSide::Side,
        RedstoneWireSide::Side,
        0,
    );
    assert!(!dead.is_powering(BlockFace::North));
    assert!(!Block::Solid(1).is_powering(&plot, &pos, BlockFace::North));
}

#[test]
fn solid_and_lamp_powering() {
    let mut plot = Plot::new();
    let torch = BlockPos::new(0, 1, 0);
    let solid = BlockPos::new(1, 1, 0);
    let lamp = BlockPos::new(2, 1, 0);
    plot.set_block(&torch, Block::RedstoneTorch(true));
    plot.set_block(&solid, Block::Solid(1));
    plot.set_block(&lamp, Block::RedstoneLamp(false));
    assert!(Block::Solid(1).is_powered(&plot, &solid, 0));
    assert!(!Block::RedstoneLamp(false).is_powered(&plot, &lamp, 0));
    assert!(Block::RedstoneLamp(false).is_powered(&plot, &lamp, 1));
    assert!(!Block::Air.is_powered(&plot, &lamp, 4));
    assert!(!Block::RedstoneTorch(true).is_powered(&plot, &solid, 4));
    plot.set_block(&torch, Block::RedstoneTorch(false));
    assert!(!Block::Solid(1).is_powered(&plot, &solid, 4));
}

#[test]
fn repeater_use_cycles() {
    let mut plot = Plot::new();
    let pos = BlockPos::new(0, 1, 0);
    let start = repeater(3, BlockDirection::North, false);
    plot.set_block(&pos, start);
    let mut expected = [4u8, 1, 2, 3].iter();
    for _ in 0..4 {
        let b = plot.get_block(&pos);
        assert_eq!(b.on_use(&mut plot, &pos), ActionResult::Success);
        match plot.get_block(&pos) {
            Block::RedstoneRepeater(r) => assert_eq!(r.delay, *expected.next().unwrap()),
            _ => panic!("not a repeater"),
        }
    }
    assert_eq!(plot.get_block(&pos), start);
}

#[test]
fn comparator_use_flips() {
    let mut plot = Plot::new();
    let pos = BlockPos::new(0, 1, 0);
    let start = Block::RedstoneComparator(RedstoneComparator::new(
        BlockDirection::East,
        ComparatorMode::Compare,
        false,
    ));
    plot.set_block(&pos, start);
    assert_eq!(start.on_use(&mut plot, &pos), ActionResult::Success);
    assert_eq!(
        plot.get_block(&pos),
        Block::RedstoneComparator(RedstoneComparator::new(
            BlockDirection::East,
            ComparatorMode::Subtract,
            false,
        ))
    );
    plot.get_block(&pos).on_use(&mut plot, &pos);
    assert_eq!(plot.get_block(&pos), start);
    let lamp = BlockPos::new(5, 1, 5);
    assert_eq!(Block::RedstoneLamp(true).on_use(&mut plot, &lamp), ActionResult::Pass);
    assert_eq!(plot.get_block(&lamp), Block::Air);
}

#[test]
fn placement_orientation() {
    let ctx = UseOnBlockContext { block_face: BlockFace::Top, player_direction: BlockDirection::East };
    assert_eq!(
        Block::get_block_for_placement(513, &ctx),
        Ok(Block::RedstoneRepeater(RedstoneRepeater::new(1, BlockDirection::West, false, false)))
    );
    assert_eq!(
        Block::get_block_for_placement(514, &ctx),
        Ok(Block::RedstoneComparator(RedstoneComparator::new(
            BlockDirection::West,
            ComparatorMode::Compare,
            false
        )))
    );
    assert_eq!(Block::get_block_for_placement(173, &ctx), Ok(Block::RedstoneTorch(true)));
    let north = UseOnBlockContext { block_face: BlockFace::North, player_direction: BlockDirection::South };
    assert_eq!(
        Block::get_block_for_placement(173, &north),
        Ok(Block::RedstoneWallTorch(true, BlockDirection::North))
    );
}

#[test]
fn placement_items() {
    let ctx = UseOnBlockContext { block_face: BlockFace::Top, player_direction: BlockDirection::North };
    assert_eq!(Block::get_block_for_placement(64, &ctx), Ok(Block::Transparent(230)));
    assert_eq!(Block::get_block_for_placement(68, &ctx), Ok(Block::Solid(245)));
    assert_eq!(Block::get_block_for_placement(82, &ctx), Ok(Block::Solid(1383)));
    assert_eq!(Block::get_block_for_placement(97, &ctx), Ok(Block::Solid(1398)));
    assert_eq!(Block::get_block_for_placement(413, &ctx), Ok(Block::Solid(8902)));
    assert_eq!(Block::get_block_for_placement(428, &ctx), Ok(Block::Solid(8917)));
    assert_eq!(Block::get_block_for_placement(1, &ctx), Err(BlockError::UnsupportedItem));
    assert_eq!(Block::get_block_for_placement(98, &ctx), Err(BlockError::UnsupportedItem));
}

#[test]
fn names_and_replaceable() {
    assert_eq!(Block::from_name("air"), Some(Block::Air));
    assert_eq!(Block::from_name("glass"), Some(Block::Transparent(230)));
    assert_eq!(Block::from_name("sandstone"), Some(Block::Solid(245)));
    assert_eq!(Block::from_name("stone_bricks"), Some(Block::Solid(4481)));
    assert_eq!(Block::from_name("stone"), None);
    assert_eq!(Block::from_name(""), None);
    assert!(Block::Air.can_place_block_in());
    assert!(Block::Solid(34).can_place_block_in());
    assert!(Block::Solid(1344).can_place_block_in());
    assert!(Block::Solid(9130).can_place_block_in());
    assert!(!Block::Solid(1).can_place_block_in());
    assert!(!Block::RedstoneTorch(true).can_place_block_in());
}

#[test]
fn place_in_plot_writes() {
    let mut plot = Plot::new();
    let pos = BlockPos::new(4, 4, 4);
    Block::RedstoneLamp(true).place_in_plot(&mut plot, &pos);
    assert_eq!(plot.get_block(&pos), Block::RedstoneLamp(true));
}

#[test]
fn repeater_line_settles() {
    let n: i32 = 12;
    let mut plot = Plot::new();
    for x in 1..=n {
        plot.set_block(&BlockPos::new(x, 1, 0), repeater(1, BlockDirection::East, false));
    }
    let source = BlockPos::new(0, 1, 0);
    plot.set_block(&source, Block::RedstoneTorch(true));
    Block::RedstoneTorch(true).update(&mut plot, &source, true, n as u32);
    for x in 1..=n {
        assert!(is_powered_repeater(plot.get_block(&BlockPos::new(x, 1, 0))));
    }
    plot.set_block(&source, Block::Air);
    Block::Air.update(&mut plot, &source, true, n as u32);
    for x in 1..=n {
        assert!(!is_powered_repeater(plot.get_block(&BlockPos::new(x, 1, 0))));
    }
}

#[test]
fn cascade_stops_at_depth() {
    let mut plot = Plot::new();
    for x in 1..=4 {
        plot.set_block(&BlockPos::new(x, 1, 0), repeater(1, BlockDirection::East, false));
    }
    let source = BlockPos::new(0, 1, 0);
    plot.set_block(&source, Block::RedstoneTorch(true));
    Block::RedstoneTorch(true).update(&mut plot, &source, true, 2);
    assert!(is_powered_repeater(plot.get_block(&BlockPos::new(1, 1, 0))));
    assert!(is_powered_repeater(plot.get_block(&BlockPos::new(2, 1, 0))));
    assert!(!is_powered_repeater(plot.get_block(&BlockPos::new(3, 1, 0))));
}

#[test]
fn unchanged_update_does_not_spread() {
    let mut plot = Plot::new();
    let quiet = BlockPos::new(0, 1, 0);
    let stale = BlockPos::new(1, 1, 0);
    plot.set_block(&quiet, repeater(1, BlockDirection::North, false));
    plot.set_block(&stale, repeater(1, BlockDirection::North, true));
    plot.get_block(&quiet).update(&mut plot, &quiet, false, 8);
    assert!(is_powered_repeater(plot.get_block(&stale)));
    plot.get_block(&quiet).update(&mut plot, &quiet, true, 8);
    assert!(!is_powered_repeater(plot.get_block(&stale)));
}
