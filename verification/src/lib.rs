//! Core logic of a minimal side-scrolling reflex game: a player falls under
//! gravity and must pass through gaps in two scrolling obstacles, scoring a
//! point per obstacle cleared. The run ends on collision or on falling off
//! the screen. The state machine, physics and collision rules live here;
//! drawing and keyboard polling belong to the surrounding program.

use vstd::prelude::*;

pub mod game;
pub mod obstacle;
pub mod player;
mod rng;

pub use game::GameMode;
pub use game::Key;
pub use game::State;
pub use obstacle::Obstacle;
pub use player::Player;

verus! {

/// Width of the fixed character grid, in columns.
pub const SCREEN_WIDTH: i32 = 80;

/// Height of the fixed character grid, in rows.
pub const SCREEN_HEIGHT: i32 = 50;

/// Accumulated milliseconds after which one physics tick fires.
pub const FRAME_DURATION_MS: i32 = 75;

/// The player's fixed horizontal column.
pub const PLAYER_X: i32 = 5;

/// The row at which a run starts or restarts.
pub const PLAYER_START_Y: i32 = 25;

} // verus!
