//! A terminal snake game, verified.
//!
//! A single player steers a growing chain of cells around a rectangular
//! playfield, trying to collide the chain's head with randomly placed
//! apples; each apple extends the chain and increments the score. The game
//! ends when the head collides with the chain's body or leaves the
//! playfield, or when the player asks to quit.
//!
//! This crate holds the verified core: the snake representation and its
//! move semantics, the direction-change rules, the per-tick state machine
//! with its collision checks, the input-coalescing discipline, and the
//! renderer that turns a tick's outcome into a stream of cursor-positioned
//! writes. The terminal itself (raw mode, asynchronous input, the actual
//! writes and the pacing sleeps) lives outside, in the binary around this
//! library.

use vstd::prelude::*;

pub mod direction;
pub mod game;
pub mod input;
pub mod pos;
pub mod render;
pub mod rng;
pub mod snake;
pub mod step;
pub mod text;

verus! {

/// Milliseconds one tick lasts while the snake moves vertically.
pub const UP_DOWN_TICK: u64 = 150;

/// Milliseconds one tick lasts while the snake moves horizontally.
/// Terminal cells are roughly twice as tall as wide, so the horizontal
/// tick is shorter to make the apparent speeds match.
pub const LEFT_RIGHT_TICK: u64 = 50;

/// Rows reserved at the top of the terminal: row 1 is the score line,
/// row 2 a border of `'='` characters.
pub const HEADER_SPACE: u16 = 2;

/// The glyph drawn for the border row.
pub const BORDER: char = '=';

/// The glyph drawn for a cell the snake has left.
pub const EMPTY: char = ' ';

/// The glyph drawn for a cell the snake occupies.
pub const SNAKE: char = '#';

/// The glyph drawn for the apple.
pub const APPLE: char = '@';

} // verus!
