use vstd::prelude::*;

use crate::pos::Pos;

verus! {

/// The outcome of one tick.
pub enum Step {
    /// The game ended; `message` is printed centered on the playfield.
    Done { message: String },
    /// The game goes on: `diff_add` lists the cells to paint with the
    /// snake glyph, `diff_neg` the cells to blank, and `apple` the cell
    /// to paint with the apple glyph.
    Continuing { diff_add: Vec<Pos>, diff_neg: Vec<Pos>, apple: Option<Pos> },
    /// The player asked to leave; nothing more is drawn.
    Quit,
}

impl Step {
    /// True iff the game goes on after this step.
    pub open spec fn is_continuing_spec(&self) -> bool {
        self matches Step::Continuing { .. }
    }

    /// True only for a `Continuing` step: the loop's predicate.
    pub fn is_continuing(&self) -> (r: bool)
        ensures
            r == self.is_continuing_spec(),
    {
        match self {
            Step::Continuing { .. } => true,
            _ => false,
        }
    }
}

} // verus!
