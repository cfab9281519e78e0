//! A terminal maze game engine: a rectangular grid of cell codes, a move
//! engine that clamps to the grid bounds and rejects walls, a turn counter
//! that counts accepted moves, and a win check against a cached goal cell.

pub mod banner;
pub mod engine;
pub mod grid;
pub mod laws;
pub mod maps;
pub mod render;

pub use engine::{Direction, Game, MapError};
pub use grid::Point;
