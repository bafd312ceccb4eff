use vstd::prelude::*;

use crate::direction::Direction;

verus! {

/// One keyboard event as the game sees it: a printable character or a
/// named arrow key. Keys the game never reacts to arrive as `Other`.
#[derive(PartialEq, Eq, Structural, Clone, Copy, Debug)]
pub enum InputEvent {
    Char(char),
    Up,
    Down,
    Left,
    Right,
    Other,
}

/// True iff the event asks to quit the game.
pub open spec fn is_quit(event: Option<InputEvent>) -> bool {
    event == Some(InputEvent::Char('q'))
}

/// The direction an event asks for, if it is a direction key:
/// `h`/`Left`, `j`/`Down`, `k`/`Up`, `l`/`Right`.
pub open spec fn requested_direction(ev: InputEvent) -> Option<Direction> {
    match ev {
        InputEvent::Char('l') | InputEvent::Right => Some(Direction::Right),
        InputEvent::Char('h') | InputEvent::Left => Some(Direction::Left),
        InputEvent::Char('k') | InputEvent::Up => Some(Direction::Up),
        InputEvent::Char('j') | InputEvent::Down => Some(Direction::Down),
        _ => None,
    }
}

/// The direction after applying one optional event under the no-reverse
/// rule: a requested direction is taken unless it points opposite the
/// current one; quit requests and unrecognized events leave the
/// direction alone.
pub open spec fn next_direction(current: Direction, event: Option<InputEvent>) -> Direction {
    match event {
        Some(ev) => match requested_direction(ev) {
            Some(d) => if d == current.reverse() {
                current
            } else {
                d
            },
            None => current,
        },
        None => current,
    }
}

/// Which queued event one tick honors: the last, or none when the queue
/// is empty.
pub open spec fn coalesced(events: Seq<InputEvent>) -> Option<InputEvent> {
    if events.len() == 0 {
        None
    } else {
        Some(events.last())
    }
}

/// The one event a tick honors out of everything queued during it: the
/// last. Earlier events are discarded, so a burst of keystrokes cannot
/// queue up a reversal.
pub fn coalesce(events: &Vec<InputEvent>) -> (r: Option<InputEvent>)
    ensures
        r == coalesced(events@),
{
    if events.len() == 0 {
        None
    } else {
        Some(events[events.len() - 1])
    }
}

/// No-reverse idempotence: feeding the key for the direction opposite
/// the current one leaves the direction unchanged.
pub proof fn lemma_no_reverse(d: Direction, ev: InputEvent)
    requires
        requested_direction(ev) == Some(d.reverse()),
    ensures
        next_direction(d, Some(ev)) == d,
{
}

/// Input coalescing: a tick's honored event depends only on the last
/// event queued — two queues that end in the same event are honored
/// identically, whatever came before. Since a tick's whole outcome is a
/// function of the honored event, only the last queued event affects
/// the game.
pub proof fn lemma_input_coalescing(q1: Seq<InputEvent>, q2: Seq<InputEvent>)
    requires
        q1.len() > 0,
        q2.len() > 0,
        q1.last() == q2.last(),
    ensures
        coalesced(q1) == coalesced(q2),
{
}

} // verus!
