use vstd::prelude::*;

use crate::LEFT_RIGHT_TICK;
use crate::UP_DOWN_TICK;

verus! {

/// One of the four cardinal directions the snake can move in.
#[derive(PartialEq, Eq, Structural, Clone, Copy, Debug)]
pub enum Direction {
    Left,
    Right,
    Up,
    Down,
}

impl Direction {
    /// True for the two vertical directions.
    pub open spec fn is_vertical(self) -> bool {
        self == Direction::Up || self == Direction::Down
    }

    /// The direction pointing the opposite way.
    pub open spec fn reverse(self) -> Direction {
        match self {
            Direction::Left => Direction::Right,
            Direction::Right => Direction::Left,
            Direction::Up => Direction::Down,
            Direction::Down => Direction::Up,
        }
    }

    /// True for `Up` and `Down`, false for `Left` and `Right`.
    pub fn is_updown(&self) -> (r: bool)
        ensures
            r == self.is_vertical(),
    {
        match self {
            Direction::Left | Direction::Right => false,
            Direction::Up | Direction::Down => true,
        }
    }
}

/// True iff the two directions point opposite ways: `{a, b}` is
/// `{Up, Down}` or `{Left, Right}`.
pub fn opposite(a: Direction, b: Direction) -> (r: bool)
    ensures
        r == (b == a.reverse()),
{
    match (a, b) {
        (Direction::Left, Direction::Right) => true,
        (Direction::Right, Direction::Left) => true,
        (Direction::Up, Direction::Down) => true,
        (Direction::Down, Direction::Up) => true,
        _ => false,
    }
}

/// How long a tick lasts, in milliseconds, for a snake moving in
/// direction `d`.
pub fn tick_millis(d: Direction) -> (ms: u64)
    ensures
        ms == (if d.is_vertical() {
            UP_DOWN_TICK
        } else {
            LEFT_RIGHT_TICK
        }),
{
    if d.is_updown() {
        UP_DOWN_TICK
    } else {
        LEFT_RIGHT_TICK
    }
}

} // verus!
