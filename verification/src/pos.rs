use vstd::prelude::*;

verus! {

/// A cell in the terminal grid: `x` is the column and `y` the row, both
/// 1-based; columns grow rightward, rows grow downward.
#[derive(PartialEq, Eq, Structural, Clone, Copy, Debug)]
pub struct Pos {
    pub x: u16,
    pub y: u16,
}

} // verus!
