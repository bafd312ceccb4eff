use vstd::prelude::*;
use vstd::string::StringExecFns;

use crate::pos::Pos;

verus! {

/// The decimal digit character for `n`, 0 through 9.
pub open spec fn dec_digit(n: nat) -> char
    recommends
        n < 10,
{
    if n == 0 {
        '0'
    } else if n == 1 {
        '1'
    } else if n == 2 {
        '2'
    } else if n == 3 {
        '3'
    } else if n == 4 {
        '4'
    } else if n == 5 {
        '5'
    } else if n == 6 {
        '6'
    } else if n == 7 {
        '7'
    } else if n == 8 {
        '8'
    } else {
        '9'
    }
}

/// The decimal representation of `n`, most significant digit first.
pub open spec fn dec_rep(n: nat) -> Seq<char>
    decreases n,
{
    if n < 10 {
        seq![dec_digit(n)]
    } else {
        dec_rep(n / 10).push(dec_digit(n % 10))
    }
}

/// A one-character string slice holding the decimal digit for `d`.
fn digit_str(d: u64) -> (s: &'static str)
    requires
        d < 10,
    ensures
        s@ == seq![dec_digit(d as nat)],
{
    proof {
        reveal_strlit("0");
        reveal_strlit("1");
        reveal_strlit("2");
        reveal_strlit("3");
        reveal_strlit("4");
        reveal_strlit("5");
        reveal_strlit("6");
        reveal_strlit("7");
        reveal_strlit("8");
        reveal_strlit("9");
    }
    match d {
        0 => "0",
        1 => "1",
        2 => "2",
        3 => "3",
        4 => "4",
        5 => "5",
        6 => "6",
        7 => "7",
        8 => "8",
        _ => "9",
    }
}

/// `out` with the decimal representation of `n` appended.
pub fn push_decimal(out: String, n: u64) -> (r: String)
    ensures
        r@ == out@ + dec_rep(n as nat),
    decreases n,
{
    if n < 10 {
        let r = out.concat(digit_str(n));
        proof {
            assert(r@ =~= out@ + dec_rep(n as nat));
        }
        r
    } else {
        let q = push_decimal(out, n / 10);
        let r = q.concat(digit_str(n % 10));
        proof {
            assert(r@ =~= out@ + dec_rep(n as nat));
        }
        r
    }
}

/// The text `"(x, y)"` for the cell `p`, coordinates in decimal.
pub open spec fn pos_text(p: Pos) -> Seq<char> {
    "("@ + dec_rep(p.x as nat) + ", "@ + dec_rep(p.y as nat) + ")"@
}

/// The text `"(x, y)"` for the cell `p`.
pub fn pos_string(p: Pos) -> (s: String)
    ensures
        s@ == pos_text(p),
{
    let s = String::from_str("(");
    let s = push_decimal(s, p.x as u64);
    let s = s.concat(", ");
    let s = push_decimal(s, p.y as u64);
    let s = s.concat(")");
    proof {
        assert(s@ =~= pos_text(p));
    }
    s
}

/// The game-over text when the head lands on the snake's own body.
pub open spec fn self_intercept_text(head: Pos) -> Seq<char> {
    "Self intercept at "@ + pos_text(head)
}

/// The game-over message for a head that hit the body at `head`.
pub fn self_intercept_message(head: Pos) -> (s: String)
    ensures
        s@ == self_intercept_text(head),
{
    let p = pos_string(head);
    let s = String::from_str("Self intercept at ").concat(p.as_str());
    proof {
        assert(s@ =~= self_intercept_text(head));
    }
    s
}

/// The game-over text when the head leaves through the top or the
/// bottom; it quotes the playfield width and the offending head cell.
pub open spec fn top_bottom_text(width: u16, head: Pos) -> Seq<char> {
    "Broke out the top("@ + dec_rep(width as nat) + ") or bottom at "@ + pos_text(head)
}

/// The game-over message for a head that left through the top or the
/// bottom.
pub fn top_bottom_message(width: u16, head: Pos) -> (s: String)
    ensures
        s@ == top_bottom_text(width, head),
{
    let s = String::from_str("Broke out the top(");
    let s = push_decimal(s, width as u64);
    let s = s.concat(") or bottom at ");
    let p = pos_string(head);
    let s = s.concat(p.as_str());
    proof {
        assert(s@ =~= top_bottom_text(width, head));
    }
    s
}

/// The game-over text when the head leaves through the sides.
pub open spec fn sides_text() -> Seq<char> {
    "Broke out the sides"@
}

/// The game-over message for a head that left through the sides.
pub fn sides_message() -> (s: String)
    ensures
        s@ == sides_text(),
{
    String::from_str("Broke out the sides")
}

/// The border row: one `'='` per column, columns 1 through `width − 1`.
pub open spec fn border_text(width: u16) -> Seq<char> {
    Seq::new(
        if width >= 1 {
            (width - 1) as nat
        } else {
            0
        },
        |i: int| crate::BORDER,
    )
}

/// The border row for a terminal `width` columns wide.
pub fn border_row(width: u16) -> (s: String)
    ensures
        s@ == border_text(width),
{
    let mut s = String::new();
    let mut i: u16 = 1;
    while i < width
        invariant
            1 <= i,
            width >= 1 ==> i <= width,
            width < 1 ==> i == 1,
            s@.len() == i - 1,
            forall|j: int| 0 <= j < s@.len() ==> s@[j] == crate::BORDER,
        decreases width - i,
    {
        proof {
            reveal_strlit("=");
        }
        s = s.concat("=");
        i = i + 1;
    }
    proof {
        assert(s@ =~= border_text(width));
    }
    s
}

/// The score line: `"Apples: "` followed by the count in decimal.
pub open spec fn score_text(apples: u32) -> Seq<char> {
    "Apples: "@ + dec_rep(apples as nat)
}

/// The score line for `apples` apples eaten.
pub fn score_line(apples: u32) -> (s: String)
    ensures
        s@ == score_text(apples),
{
    let s = String::from_str("Apples: ");
    let s = push_decimal(s, apples as u64);
    s
}

} // verus!
