use vstd::prelude::*;

use crate::direction::Direction;
use crate::input::{is_quit, next_direction, InputEvent};
use crate::pos::Pos;
use crate::rng::apple_in_range;
use crate::snake::{advanced, dif_seq, eats, Snake};
use crate::step::Step;
use crate::text::{self_intercept_message, self_intercept_text, sides_message, sides_text,
    top_bottom_message, top_bottom_text};
use crate::HEADER_SPACE;

verus! {

/// What ends the game on a tick, if anything: the head hit the body, or
/// left through the top or the bottom, or left through the sides. The
/// checks run in that order; the first that fires names the cause.
#[derive(PartialEq, Eq, Structural, Clone, Copy, Debug)]
pub enum EndCause {
    SelfIntercept,
    TopBottom,
    Sides,
}

/// The end cause of a tick whose pre-advance cells were `prev` and
/// whose cells are now `cur`, on a playfield `width` columns wide and
/// `height` rows tall. `None` means the game goes on.
pub open spec fn end_cause(prev: Seq<Pos>, cur: Seq<Pos>, width: u16, height: u16) -> Option<
    EndCause,
>
    recommends
        cur.len() > 0,
{
    let h = cur[0];
    if prev.contains(h) {
        Some(EndCause::SelfIntercept)
    } else if h.y < HEADER_SPACE || h.y > height {
        Some(EndCause::TopBottom)
    } else if h.x < HEADER_SPACE || h.x > width {
        Some(EndCause::Sides)
    } else {
        None
    }
}

/// How the `Step` of one tick relates to its parts: which message each
/// end cause carries, and the repaint delta plus the apple cell that a
/// surviving tick reports.
pub open spec fn step_matches(
    step: Step,
    prev: Seq<Pos>,
    cur: Seq<Pos>,
    width: u16,
    height: u16,
    apple: Pos,
) -> bool {
    match end_cause(prev, cur, width, height) {
        Some(EndCause::SelfIntercept) => step matches Step::Done { message } && message@
            == self_intercept_text(cur[0]),
        Some(EndCause::TopBottom) => step matches Step::Done { message } && message@
            == top_bottom_text(width, cur[0]),
        Some(EndCause::Sides) => step matches Step::Done { message } && message@ == sides_text(),
        None => step matches Step::Continuing { diff_add, diff_neg, apple: a } && diff_add@
            == dif_seq(cur, prev) && diff_neg@ == dif_seq(prev, cur) && a == Some(apple),
    }
}

/// The whole game state: the snake, the direction it moves in, where
/// the apple lies, and how many apples were eaten so far.
pub struct Game {
    pub apple: Pos,
    pub snake: Snake,
    pub direction: Direction,
    pub apples: u32,
}

/// The game state as mathematics: the snake's cells, the direction, the
/// apple cell and the count of apples eaten.
pub struct GameModel {
    pub snake: Seq<Pos>,
    pub direction: Direction,
    pub apple: Pos,
    pub apples: nat,
}

impl View for Game {
    type V = GameModel;

    open spec fn view(&self) -> GameModel {
        GameModel {
            snake: self.snake@,
            direction: self.direction,
            apple: self.apple,
            apples: self.apples as nat,
        }
    }
}

impl Game {
    /// A live game holds a live snake.
    pub open spec fn wf(&self) -> bool {
        self.snake.wf()
    }

    /// A fresh game on a `width` by `height` terminal: a one-cell snake
    /// in the middle, moving right, no apples eaten yet, and the apple
    /// somewhere inside the playfield.
    pub fn new(width: u16, height: u16) -> (g: Game)
        requires
            1 <= width,
            HEADER_SPACE < height,
        ensures
            g.snake@ == seq![(Pos { x: (width / 2) as u16, y: (height / 2) as u16 })],
            g.direction == Direction::Right,
            g.apples == 0,
            apple_in_range(g.apple, width, height),
            g.wf(),
    {
        Game {
            apple: Pos::rand(width, height),
            snake: Snake::new(width / 2, height / 2),
            direction: Direction::Right,
            apples: 0,
        }
    }

    /// One tick's state change. The event is applied under the
    /// no-reverse rule — or, for `q`, the tick short-circuits to `Quit`
    /// with nothing changed. The snake then advances one cell; an
    /// eating advance respawns the apple inside the playfield and
    /// counts it. Finally the new head is checked, in order: against
    /// the pre-advance body, against the top and bottom, against the
    /// sides. A surviving tick reports the repaint delta and the apple
    /// cell.
    pub fn compute_step(&mut self, width: u16, height: u16, event: Option<InputEvent>) -> (step:
        Step)
        requires
            old(self).wf(),
            0 < old(self).snake@[0].x < u16::MAX,
            0 < old(self).snake@[0].y < u16::MAX,
            old(self).snake@.len() < usize::MAX,
            old(self).apples < u32::MAX,
            1 <= width,
            HEADER_SPACE < height,
        ensures
            final(self).wf(),
            is_quit(event) ==> (step matches Step::Quit && *final(self) == *old(self)),
            !is_quit(event) ==> ({
                let dir = next_direction(old(self).direction, event);
                let prev = old(self).snake@;
                let ate = eats(prev, dir, old(self).apple);
                &&& final(self).direction == dir
                &&& final(self).snake@ == advanced(prev, dir, old(self).apple)
                &&& ate ==> final(self).apples == old(self).apples + 1 && apple_in_range(
                    final(self).apple,
                    width,
                    height,
                )
                &&& !ate ==> final(self).apples == old(self).apples && final(self).apple == old(
                    self,
                ).apple
                &&& step_matches(step, prev, final(self).snake@, width, height, final(self).apple)
                &&& final(self)@ == tick_state(
                    old(self)@,
                    (TickIn { width, height, event, spawn: final(self).apple }),
                )
            }),
    {
        if let Some(ev) = event {
            match ev {
                InputEvent::Char('q') => {
                    return Step::Quit;
                },
                InputEvent::Char('l') | InputEvent::Right => {
                    if self.direction != Direction::Left {
                        self.direction = Direction::Right;
                    }
                },
                InputEvent::Char('h') | InputEvent::Left => {
                    if self.direction != Direction::Right {
                        self.direction = Direction::Left;
                    }
                },
                InputEvent::Char('k') | InputEvent::Up => {
                    if self.direction != Direction::Down {
                        self.direction = Direction::Up;
                    }
                },
                InputEvent::Char('j') | InputEvent::Down => {
                    if self.direction != Direction::Up {
                        self.direction = Direction::Down;
                    }
                },
                _ => {},
            }
        }
        let prev_snake = self.snake.snapshot();
        let ate = self.snake.move_in(self.direction, self.apple);
        if ate {
            self.apple = Pos::rand(width, height);
            self.apples = self.apples + 1;
        }
        let head = self.snake.head();
        if prev_snake.contains(head) {
            Step::Done { message: self_intercept_message(head) }
        } else if head.y < HEADER_SPACE || head.y > height {
            Step::Done { message: top_bottom_message(width, head) }
        } else if head.x < HEADER_SPACE || head.x > width {
            Step::Done { message: sides_message() }
        } else {
            let diff_add = self.snake.dif(&prev_snake);
            let diff_neg = prev_snake.dif(&self.snake);
            Step::Continuing { diff_add, diff_neg, apple: Some(self.apple) }
        }
    }
}

/// Head uniqueness: on any tick that did not end with a self-intercept
/// — it continued, or it ended on a wall — the new head does not lie in
/// the pre-advance body.
pub proof fn lemma_head_not_in_body(prev: Seq<Pos>, cur: Seq<Pos>, width: u16, height: u16)
    requires
        cur.len() > 0,
        end_cause(prev, cur, width, height) != Some(EndCause::SelfIntercept),
    ensures
        !prev.contains(cur[0]),
{
}

/// One tick's inputs as the loop sees them: the terminal size sampled
/// that tick, the one event kept after coalescing, and the cell the
/// apple respawns at should the tick eat.
pub struct TickIn {
    pub width: u16,
    pub height: u16,
    pub event: Option<InputEvent>,
    pub spawn: Pos,
}

/// Whether a non-quit tick from `g` under inputs `t` eats: the new head
/// lands on the apple.
pub open spec fn tick_eats(g: GameModel, t: TickIn) -> bool {
    eats(g.snake, next_direction(g.direction, t.event), g.apple)
}

/// The state after one non-quit tick from `g` under inputs `t`.
pub open spec fn tick_state(g: GameModel, t: TickIn) -> GameModel {
    let dir = next_direction(g.direction, t.event);
    let snake = advanced(g.snake, dir, g.apple);
    if tick_eats(g, t) {
        GameModel { snake, direction: dir, apple: t.spawn, apples: g.apples + 1 }
    } else {
        GameModel { snake, direction: dir, apple: g.apple, apples: g.apples }
    }
}

/// What ends the tick from `g` under inputs `t`, if anything.
pub open spec fn tick_cause(g: GameModel, t: TickIn) -> Option<EndCause> {
    end_cause(
        g.snake,
        advanced(g.snake, next_direction(g.direction, t.event), g.apple),
        t.width,
        t.height,
    )
}

/// The game state after running ticks from `g` until the inputs run out
/// or the loop stops: a quit event stops it before anything changes; a
/// tick that ends the game still counts its eaten apple, then stops it.
pub open spec fn run_game(g: GameModel, ticks: Seq<TickIn>) -> GameModel
    decreases ticks.len(),
{
    if ticks.len() == 0 {
        g
    } else if is_quit(ticks[0].event) {
        g
    } else {
        let g2 = tick_state(g, ticks[0]);
        if tick_cause(g, ticks[0]) is Some {
            g2
        } else {
            run_game(g2, ticks.drop_first())
        }
    }
}

/// How many of the ticks the run executes eat an apple.
pub open spec fn run_eats(g: GameModel, ticks: Seq<TickIn>) -> nat
    decreases ticks.len(),
{
    if ticks.len() == 0 {
        0
    } else if is_quit(ticks[0].event) {
        0
    } else {
        let here: nat = if tick_eats(g, ticks[0]) {
            1
        } else {
            0
        };
        if tick_cause(g, ticks[0]) is Some {
            here
        } else {
            here + run_eats(tick_state(g, ticks[0]), ticks.drop_first())
        }
    }
}

/// Eating conservation: after any run, the apple count has grown by
/// exactly the number of executed ticks whose new head lay on the apple
/// at the moment the snake advanced.
pub proof fn lemma_eating_conservation(g: GameModel, ticks: Seq<TickIn>)
    ensures
        run_game(g, ticks).apples == g.apples + run_eats(g, ticks),
    decreases ticks.len(),
{
    if ticks.len() > 0 && !is_quit(ticks[0].event) && tick_cause(g, ticks[0]) is None {
        lemma_eating_conservation(tick_state(g, ticks[0]), ticks.drop_first());
    }
}

} // verus!
