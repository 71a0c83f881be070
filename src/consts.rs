use vstd::prelude::*;

verus! {

/// Width of the board, in cells.
pub const BOARD_X: i8 = 10;

/// Total height of the board, in cells, including the rows above the
/// playable area where a new piece appears.
pub const BOARD_Y: i8 = 24;

/// Height of the playable area: only rows below it are ever cleared.
pub const BOARD_Y_VALID: i8 = 20;

/// Number of cells of the board.
pub const BOARD_X_Y: usize = 240;

/// Number of piece types in the catalog.
pub const BRICKS_TYPES: usize = 7;

/// Column where a new piece's origin is placed.
pub const BRICK_START_X: i8 = 4;

/// Row where a new piece's origin is placed.
pub const BRICK_START_Y: i8 = 20;

/// Points awarded each time a piece locks, whatever it clears.
pub const SCORE_PER_DROP: u32 = 4;

/// Highest level a game can reach.
pub const MAX_LEVEL: u32 = 99;

/// Lines to clear for each new level.
pub const LINES_PER_LEVEL: u32 = 10;

} // verus!
