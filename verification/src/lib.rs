//! Falling-block pieces on a grid, for a game built on an entity-component
//! system.
//!
//! A block is anchored at a grid position and covers the cells of its shape.
//! Creating one queues, with the engine, an entity for each cell and one for
//! the block's record. Once per frame every cell is given the pixel position
//! and size that the window's dimensions call for.
//!
//! - `position`: grid coordinates and their addition;
//! - `shape`: the kinds of piece and their cell layouts;
//! - `materials`: the block colours and the materials that draw them;
//! - `commands`: the engine's command queue, as far as it is used here;
//! - `block`: the record of a block and the creation of blocks and cells;
//! - `projection`: from grid coordinates to pixels.

pub mod block;
pub mod commands;
pub mod materials;
pub mod position;
pub mod projection;
pub mod shape;

pub use block::{create_block, create_cell, try_create_block, try_create_cell, Block, Cell};
pub use materials::{init_materials, BlockColor, MaterialStore, Materials};
pub use position::Position;
pub use projection::{place_cell, transform_cell, try_place_cell, try_transform_cell, Placement};
pub use shape::Shape;
