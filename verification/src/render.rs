use vstd::prelude::*;
use vstd::string::StringExecFns;

use crate::pos::Pos;
use crate::step::Step;
use crate::text::{border_row, border_text, dec_rep, push_decimal, score_line, score_text};
use crate::{APPLE, EMPTY, SNAKE};

verus! {

/// The escape sequence that moves the terminal cursor to the cell `p`:
/// the row comes first, then the column, both in decimal.
pub open spec fn goto_text(p: Pos) -> Seq<char> {
    "\x1B["@ + dec_rep(p.y as nat) + ";"@ + dec_rep(p.x as nat) + "H"@
}

/// The cursor-move escape for the cell `p`.
pub fn goto_string(p: Pos) -> (s: String)
    ensures
        s@ == goto_text(p),
{
    let s = String::from_str("\x1B[");
    let s = push_decimal(s, p.y as u64);
    let s = s.concat(";");
    let s = push_decimal(s, p.x as u64);
    let s = s.concat("H");
    proof {
        assert(s@ =~= goto_text(p));
    }
    s
}

/// For every cell in `ps`, in order: a cursor move there followed by
/// one `glyph`.
pub open spec fn glyph_writes(ps: Seq<Pos>, glyph: char) -> Seq<char>
    decreases ps.len(),
{
    if ps.len() == 0 {
        Seq::empty()
    } else {
        glyph_writes(ps.drop_last(), glyph) + goto_text(ps.last()) + seq![glyph]
    }
}

/// `out` extended with a cursor move and one glyph per cell of `ps`.
/// `glyph_s` is the glyph as a one-character string.
fn paint_cells(out: String, ps: &Vec<Pos>, glyph_s: &str, Ghost(glyph): Ghost<char>) -> (r: String)
    requires
        glyph_s@ == seq![glyph],
    ensures
        r@ == out@ + glyph_writes(ps@, glyph),
{
    let n = ps.len();
    let mut r = out;
    let mut i: usize = 0;
    while i < n
        invariant
            0 <= i <= n,
            n == ps@.len(),
            glyph_s@ == seq![glyph],
            r@ == out@ + glyph_writes(ps@.take(i as int), glyph),
        decreases n - i,
    {
        proof {
            assert(ps@.take(i + 1).drop_last() =~= ps@.take(i as int));
            assert(ps@.take(i + 1).last() == ps@[i as int]);
        }
        let g = goto_string(ps[i]);
        r.append(g.as_str());
        r.append(glyph_s);
        proof {
            assert(r@ =~= out@ + glyph_writes(ps@.take(i + 1), glyph));
        }
        i = i + 1;
    }
    proof {
        assert(ps@.take(n as int) =~= ps@);
    }
    r
}

/// Where a `len`-character message is centered: column
/// `width / 2 − len / 2`, row `height / 2`.
pub open spec fn center_pos(width: u16, height: u16, len: nat) -> Pos {
    Pos { x: (width / 2 - ((len / 2) as u16)) as u16, y: (height / 2) as u16 }
}

/// The stream of terminal writes that paints one step outcome.
/// - `Continuing`: every added cell gets the snake glyph and every
///   removed cell the empty glyph, each after a cursor move; the apple
///   cell, when reported, gets the apple glyph last.
/// - `Done`: a cursor move to the message's centered position, the
///   message, and a line break.
/// - `Quit`: nothing.
pub open spec fn render_text(step: Step, width: u16, height: u16) -> Seq<char> {
    match step {
        Step::Done { message } => goto_text(
            center_pos(width, height, vstd::utf8::encode_utf8(message@).len()),
        ) + message@ + seq!['\n'],
        Step::Continuing { diff_add, diff_neg, apple } => glyph_writes(diff_add@, SNAKE)
            + glyph_writes(diff_neg@, EMPTY) + (match apple {
            Some(a) => goto_text(a) + seq![APPLE],
            None => Seq::empty(),
        }),
        Step::Quit => Seq::empty(),
    }
}

/// The terminal writes for one step, as one string to hand to the
/// output. A `Done` message must fit the playfield's width so that its
/// centered column does not fall off the left edge.
pub fn render_step(step: &Step, width: u16, height: u16) -> (out: String)
    requires
        step matches Step::Done { message } ==> vstd::utf8::encode_utf8(message@).len() / 2 <= (
        width / 2) as nat,
    ensures
        out@ == render_text(*step, width, height),
{
    match step {
        Step::Done { message } => {
            let col = width / 2 - (message.as_str().len() / 2) as u16;
            let out = goto_string(Pos { x: col, y: height / 2 });
            let out = out.concat(message.as_str());
            let out = out.concat("\n");
            proof {
                reveal_strlit("\n");
                assert(out@ =~= render_text(*step, width, height));
            }
            out
        },
        Step::Continuing { diff_add, diff_neg, apple } => {
            proof {
                reveal_strlit("#");
                reveal_strlit(" ");
                reveal_strlit("@");
                assert("#"@ =~= seq![SNAKE]);
                assert(" "@ =~= seq![EMPTY]);
                assert("@"@ =~= seq![APPLE]);
            }
            let out = String::new();
            let out = paint_cells(out, diff_add, "#", Ghost(SNAKE));
            let out = paint_cells(out, diff_neg, " ", Ghost(EMPTY));
            let out = match apple {
                Some(a) => {
                    let g = goto_string(*a);
                    let out2 = out.concat(g.as_str());
                    out2.concat("@")
                },
                None => out,
            };
            proof {
                assert(out@ =~= render_text(*step, width, height));
            }
            out
        },
        Step::Quit => {
            let out = String::new();
            proof {
                assert(out@ =~= render_text(*step, width, height));
            }
            out
        },
    }
}

/// The writes that repaint the header: a cursor move to the top left,
/// the score line, a cursor move to the border row, and the border.
pub open spec fn header_text(apples: u32, width: u16) -> Seq<char> {
    goto_text(Pos { x: 1, y: 1 }) + score_text(apples) + goto_text(Pos { x: 1, y: 2 })
        + border_text(width)
}

/// The terminal writes that repaint the header for a score of `apples`
/// on a terminal `width` columns wide.
pub fn render_header(apples: u32, width: u16) -> (out: String)
    ensures
        out@ == header_text(apples, width),
{
    let out = goto_string(Pos { x: 1, y: 1 });
    let score = score_line(apples);
    let out = out.concat(score.as_str());
    let g = goto_string(Pos { x: 1, y: 2 });
    let out = out.concat(g.as_str());
    let border = border_row(width);
    let out = out.concat(border.as_str());
    proof {
        assert(out@ =~= header_text(apples, width));
    }
    out
}

} // verus!
