//! Core of a redstone circuit simulator: block state model, the numeric
//! block-state codec, placement, power queries and update propagation.

pub mod behavior;
pub mod blocks;
pub mod codec;
pub mod geometry;
pub mod plot;

pub use behavior::{ActionResult, UseOnBlockContext};
pub use blocks::{
    Block, ComparatorMode, RedstoneComparator, RedstoneRepeater, RedstoneWire, RedstoneWireSide,
};
pub use geometry::{BlockDirection, BlockError, BlockFace, BlockPos};
pub use plot::Plot;
