use vstd::prelude::*;

use crate::pos::Pos;
use crate::HEADER_SPACE;

verus! {

/// Relies on `rand::random`: a fresh `u16` from the thread-local
/// generator. Nothing is promised of the value; callers must hold for
/// every outcome.
#[verifier::external_body]
fn random_u16() -> u16 {
    rand::random::<u16>()
}

/// Where a spawned apple may lie: columns 1 through `width`, rows just
/// below the header through `height`.
pub open spec fn apple_in_range(a: Pos, width: u16, height: u16) -> bool {
    &&& 1 <= a.x <= width
    &&& HEADER_SPACE < a.y <= height
}

impl Pos {
    /// A random cell of the playfield, uniform over columns 1 through
    /// `width` and rows `HEADER_SPACE + 1` through `height`. A draw is
    /// shifted up by one so that column 0 — outside the 1-based
    /// playfield — can never come out.
    pub fn rand(width: u16, height: u16) -> (p: Pos)
        requires
            1 <= width,
            HEADER_SPACE < height,
        ensures
            apple_in_range(p, width, height),
    {
        let r1 = random_u16();
        let r2 = random_u16();
        Pos { x: 1 + r1 % width, y: HEADER_SPACE + 1 + r2 % (height - HEADER_SPACE) }
    }
}

} // verus!
