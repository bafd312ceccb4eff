use vstd::prelude::*;

use crate::direction::Direction;
use crate::pos::Pos;

verus! {

/// The cell a head at `p` reaches by moving one cell in direction `d`.
/// The coordinates wrap at the `u16` boundary; the tick logic only moves
/// heads whose coordinates leave room, so no wrap is ever observed.
pub open spec fn moved_pos(p: Pos, d: Direction) -> Pos {
    match d {
        Direction::Down => Pos { x: p.x, y: (p.y + 1) as u16 },
        Direction::Up => Pos { x: p.x, y: (p.y - 1) as u16 },
        Direction::Left => Pos { x: (p.x - 1) as u16, y: p.y },
        Direction::Right => Pos { x: (p.x + 1) as u16, y: p.y },
    }
}

/// True iff a snake whose cells are `s` eats the apple at `apple` when
/// it advances in direction `d`: the new head lands on the apple.
pub open spec fn eats(s: Seq<Pos>, d: Direction, apple: Pos) -> bool
    recommends
        s.len() > 0,
{
    moved_pos(s[0], d) == apple
}

/// The cells of a snake `s` after one advance in direction `d` with the
/// apple at `apple`: the new head is prepended; on an eating advance the
/// tail is kept (the snake grows by one), otherwise the last cell is
/// dropped (constant length).
pub open spec fn advanced(s: Seq<Pos>, d: Direction, apple: Pos) -> Seq<Pos>
    recommends
        s.len() > 0,
{
    let grown = seq![moved_pos(s[0], d)] + s;
    if eats(s, d, apple) {
        grown
    } else {
        grown.drop_last()
    }
}

/// The cells of `a` that do not occur in `b`, in `a`'s order.
pub open spec fn dif_seq(a: Seq<Pos>, b: Seq<Pos>) -> Seq<Pos>
    decreases a.len(),
{
    if a.len() == 0 {
        Seq::empty()
    } else {
        let init = dif_seq(a.drop_last(), b);
        if b.contains(a.last()) {
            init
        } else {
            init.push(a.last())
        }
    }
}

/// An ordered chain of cells: index 0 is the head, the last index the
/// tail. A live snake always has at least one cell.
#[derive(Debug)]
pub struct Snake {
    pub internal: Vec<Pos>,
}

impl View for Snake {
    type V = Seq<Pos>;

    open spec fn view(&self) -> Seq<Pos> {
        self.internal@
    }
}

impl Snake {
    /// A snake has at least one cell: the head.
    pub open spec fn wf(&self) -> bool {
        self@.len() > 0
    }

    /// A one-cell snake at `(x, y)`.
    pub fn new(x: u16, y: u16) -> (s: Snake)
        ensures
            s@ == seq![(Pos { x, y })],
            s.wf(),
    {
        Snake { internal: vec![Pos { x, y }] }
    }

    /// The cell at the front of the chain.
    pub fn head(&self) -> (h: Pos)
        requires
            self.wf(),
        ensures
            h == self@[0],
    {
        self.internal[0]
    }

    /// True iff `p` is one of the snake's cells.
    pub fn contains(&self, p: Pos) -> (r: bool)
        ensures
            r == self@.contains(p),
    {
        let n = self.internal.len();
        let mut i: usize = 0;
        while i < n
            invariant
                0 <= i <= n,
                n == self@.len(),
                forall|j: int| 0 <= j < i ==> self@[j] != p,
            decreases n - i,
        {
            if self.internal[i] == p {
                return true;
            }
            i = i + 1;
        }
        false
    }

    /// A copy of the snake, cell for cell.
    pub fn snapshot(&self) -> (s: Snake)
        ensures
            s@ == self@,
    {
        let n = self.internal.len();
        let mut cells: Vec<Pos> = Vec::new();
        let mut i: usize = 0;
        while i < n
            invariant
                0 <= i <= n,
                n == self@.len(),
                cells@ == self@.take(i as int),
            decreases n - i,
        {
            cells.push(self.internal[i]);
            proof {
                assert(cells@ =~= self@.take(i + 1));
            }
            i = i + 1;
        }
        proof {
            assert(self@.take(n as int) =~= self@);
        }
        Snake { internal: cells }
    }

    /// Prepend `p` as the new head; when `del_tail` is set, drop the
    /// last cell so that the length is unchanged.
    pub fn move_to(&mut self, p: Pos, del_tail: bool)
        requires
            old(self)@.len() < usize::MAX,
        ensures
            final(self)@ == (if del_tail {
                (seq![p] + old(self)@).drop_last()
            } else {
                seq![p] + old(self)@
            }),
    {
        self.internal.insert(0, p);
        proof {
            assert(self@ =~= seq![p] + old(self)@);
        }
        if del_tail {
            self.internal.pop();
        }
    }

    /// Advance one cell in direction `d`: the head shifts one cell, the
    /// new head is prepended, and the tail is kept exactly when the new
    /// head lands on `apple`. Returns whether the snake ate. The head
    /// moves arithmetically even when that leaves the playfield; the
    /// tick logic inspects the new head afterwards.
    pub fn move_in(&mut self, d: Direction, apple: Pos) -> (ate: bool)
        requires
            old(self).wf(),
            0 < old(self)@[0].x < u16::MAX,
            0 < old(self)@[0].y < u16::MAX,
            old(self)@.len() < usize::MAX,
        ensures
            ate == eats(old(self)@, d, apple),
            final(self)@ == advanced(old(self)@, d, apple),
            final(self).wf(),
            final(self)@[0] == moved_pos(old(self)@[0], d),
            final(self)@.len() == old(self)@.len() + (if ate {
                1int
            } else {
                0int
            }),
    {
        let mut h = self.head();
        match d {
            Direction::Down => h.y = h.y + 1,
            Direction::Up => h.y = h.y - 1,
            Direction::Left => h.x = h.x - 1,
            Direction::Right => h.x = h.x + 1,
        }
        let ate = h == apple;
        self.move_to(h, !ate);
        ate
    }

    /// The cells present in `self` and not in `other`, in `self`'s
    /// order. Computes the repaint delta between two frames.
    pub fn dif(&self, other: &Snake) -> (d: Vec<Pos>)
        ensures
            d@ == dif_seq(self@, other@),
    {
        let n = self.internal.len();
        let mut out: Vec<Pos> = Vec::new();
        let mut i: usize = 0;
        while i < n
            invariant
                0 <= i <= n,
                n == self@.len(),
                out@ == dif_seq(self@.take(i as int), other@),
            decreases n - i,
        {
            proof {
                assert(self@.take(i + 1).drop_last() =~= self@.take(i as int));
                assert(self@.take(i + 1).last() == self@[i as int]);
            }
            if !other.contains(self.internal[i]) {
                out.push(self.internal[i]);
            }
            i = i + 1;
        }
        proof {
            assert(self@.take(n as int) =~= self@);
        }
        out
    }
}

/// Every cell of `dif_seq(a, b)` is a cell of `a` that `b` lacks, and
/// every such cell of `a` occurs in `dif_seq(a, b)`.
pub proof fn lemma_dif_membership(a: Seq<Pos>, b: Seq<Pos>, p: Pos)
    ensures
        dif_seq(a, b).contains(p) <==> a.contains(p) && !b.contains(p),
    decreases a.len(),
{
    if a.len() == 0 {
        assert(!a.contains(p));
    } else {
        let init = a.drop_last();
        lemma_dif_membership(init, b, p);
        assert(a.contains(p) <==> init.contains(p) || a.last() == p) by {
            if a.contains(p) {
                let i = choose|i: int| 0 <= i < a.len() && a[i] == p;
                if i < a.len() - 1 {
                    assert(init[i] == p);
                }
            }
            if init.contains(p) {
                let i = choose|i: int| 0 <= i < init.len() && init[i] == p;
                assert(a[i] == p);
            }
            if a.last() == p {
                assert(a[a.len() - 1] == p);
            }
        }
        let d = dif_seq(a, b);
        let di = dif_seq(init, b);
        if b.contains(a.last()) {
            assert(d == di);
        } else {
            assert(d == di.push(a.last()));
            assert(d.contains(p) <==> di.contains(p) || a.last() == p) by {
                if d.contains(p) {
                    let i = choose|i: int| 0 <= i < d.len() && d[i] == p;
                    if i < d.len() - 1 {
                        assert(di[i] == p);
                    } else {
                        assert(d[i] == a.last());
                    }
                }
                if di.contains(p) {
                    let i = choose|i: int| 0 <= i < di.len() && di[i] == p;
                    assert(d[i] == p);
                }
                if a.last() == p {
                    assert(d[d.len() - 1] == p);
                }
            }
        }
    }
}

/// Difference symmetry: the two differences of any two snakes are
/// disjoint as sets — no cell occurs both in `a.dif(b)` and in
/// `b.dif(a)`.
pub proof fn lemma_dif_disjoint(a: Seq<Pos>, b: Seq<Pos>)
    ensures
        forall|p: Pos| !(dif_seq(a, b).contains(p) && dif_seq(b, a).contains(p)),
{
    assert forall|p: Pos| !(dif_seq(a, b).contains(p) && dif_seq(b, a).contains(p)) by {
        lemma_dif_membership(a, b, p);
        lemma_dif_membership(b, a, p);
    }
}

/// Self-difference is empty: a snake differs from itself in no cell.
pub proof fn lemma_dif_self_empty(a: Seq<Pos>)
    ensures
        dif_seq(a, a) == Seq::<Pos>::empty(),
{
    if dif_seq(a, a).len() > 0 {
        let p = dif_seq(a, a)[0];
        assert(dif_seq(a, a).contains(p));
        lemma_dif_membership(a, a, p);
    }
    assert(dif_seq(a, a) =~= Seq::<Pos>::empty());
}

/// One advance never shrinks the snake: the length grows by one exactly
/// when the advance eats, and stays the same otherwise.
pub proof fn lemma_advanced_length(s: Seq<Pos>, d: Direction, apple: Pos)
    requires
        s.len() > 0,
    ensures
        advanced(s, d, apple).len() == s.len() + (if eats(s, d, apple) {
            1int
        } else {
            0int
        }),
{
}

/// The snake after a sequence of advances: `moves` lists, tick by tick,
/// the direction moved in and where the apple lay.
pub open spec fn run(s: Seq<Pos>, moves: Seq<(Direction, Pos)>) -> Seq<Pos>
    decreases moves.len(),
{
    if moves.len() == 0 {
        s
    } else {
        run(advanced(s, moves[0].0, moves[0].1), moves.drop_first())
    }
}

/// How many of the advances in `moves` eat an apple.
pub open spec fn eat_count(s: Seq<Pos>, moves: Seq<(Direction, Pos)>) -> nat
    decreases moves.len(),
{
    if moves.len() == 0 {
        0
    } else {
        (if eats(s, moves[0].0, moves[0].1) {
            1nat
        } else {
            0nat
        }) + eat_count(advanced(s, moves[0].0, moves[0].1), moves.drop_first())
    }
}

/// Length monotonicity: over any sequence of advances the snake never
/// shrinks, and it grows by exactly one cell on each advance whose new
/// head lay on the apple, and by nothing otherwise.
pub proof fn lemma_run_length(s: Seq<Pos>, moves: Seq<(Direction, Pos)>)
    requires
        s.len() > 0,
    ensures
        run(s, moves).len() == s.len() + eat_count(s, moves),
        run(s, moves).len() >= s.len(),
    decreases moves.len(),
{
    if moves.len() > 0 {
        let s2 = advanced(s, moves[0].0, moves[0].1);
        lemma_advanced_length(s, moves[0].0, moves[0].1);
        lemma_run_length(s2, moves.drop_first());
    }
}

/// Advances compose: running `a` and then `b` is running `a + b`.
pub proof fn lemma_run_append(s: Seq<Pos>, a: Seq<(Direction, Pos)>, b: Seq<(Direction, Pos)>)
    ensures
        run(s, a + b) == run(run(s, a), b),
    decreases a.len(),
{
    if a.len() == 0 {
        assert(a + b =~= b);
    } else {
        let s2 = advanced(s, a[0].0, a[0].1);
        assert((a + b)[0] == a[0]);
        assert((a + b).drop_first() =~= a.drop_first() + b);
        lemma_run_append(s2, a.drop_first(), b);
    }
}

/// Length monotonicity along the run: at no point of a sequence of
/// advances is the snake ever shorter than it was earlier.
pub proof fn lemma_run_length_monotone(s: Seq<Pos>, moves: Seq<(Direction, Pos)>, i: int, j: int)
    requires
        s.len() > 0,
        0 <= i <= j <= moves.len(),
    ensures
        run(s, moves.take(i)).len() <= run(s, moves.take(j)).len(),
{
    let a = moves.take(i);
    let b = moves.subrange(i, j);
    let mid = run(s, a);
    lemma_run_length(s, a);
    assert(moves.take(j) =~= a + b);
    lemma_run_append(s, a, b);
    lemma_run_length(mid, b);
}

} // verus!
