use vstd::prelude::*;

use crate::coord::{sat_sub, Coord};
use crate::settings::RenderSettings;

verus! {

/// The resolved user intent of one interaction-loop pass: play at a cell,
/// or leave the game.
#[derive(Clone, Copy, PartialEq, Eq, Structural, Debug)]
pub enum GameAction {
    TakeTurn(Coord),
    Quit,
}

/// A keyboard key the interaction layer cares about. Any other key arrives
/// as `Char` and is ignored unless it is one of the bound characters.
#[derive(Clone, Copy, PartialEq, Eq, Structural, Debug)]
pub enum InputKey {
    Left,
    Right,
    Up,
    Down,
    Enter,
    Esc,
    Char(char),
}

/// One terminal input event, reduced to plain values: a key press, a mouse
/// press at a terminal position, or anything else.
#[derive(Clone, Copy, PartialEq, Eq, Structural, Debug)]
pub enum TermEvent {
    Key(InputKey),
    MousePress(Coord),
    Other,
}

/// What one input event does to the interaction loop: move the highlighted
/// cell, resolve to an action, or nothing.
#[derive(Clone, Copy, PartialEq, Eq, Structural, Debug)]
pub enum EventStep {
    Moved(Coord),
    Resolved(GameAction),
    Ignored,
}

/// One axis of a cursor move: the current position shifted by one step in
/// the given direction, saturating at zero and clamped to the last cell.
pub open spec fn step_axis(size: nat, cur: int, delta: int) -> int {
    let moved: int = if delta < 0 {
        sat_sub(cur, -delta)
    } else {
        cur + delta
    };
    if moved > size - 1 {
        size - 1
    } else {
        moved
    }
}

/// How `resolve_event` answers each event: arrow keys move the highlighted
/// cell one step, clamped to the board; Enter or Space plays the
/// highlighted cell; `q`, `Q`, or Escape quits; a mouse press plays the
/// cell its position maps to, unclamped; everything else is ignored.
pub open spec fn event_step_spec(
    v: crate::settings::SettingsView,
    active: Coord,
    ev: TermEvent,
) -> EventStep {
    match ev {
        TermEvent::Key(InputKey::Left) => EventStep::Moved(
            Coord { x: step_axis(v.board_size, active.x as int, -1) as usize, y: active.y },
        ),
        TermEvent::Key(InputKey::Right) => EventStep::Moved(
            Coord { x: step_axis(v.board_size, active.x as int, 1) as usize, y: active.y },
        ),
        TermEvent::Key(InputKey::Up) => EventStep::Moved(
            Coord { x: active.x, y: step_axis(v.board_size, active.y as int, -1) as usize },
        ),
        TermEvent::Key(InputKey::Down) => EventStep::Moved(
            Coord { x: active.x, y: step_axis(v.board_size, active.y as int, 1) as usize },
        ),
        TermEvent::Key(InputKey::Enter) => EventStep::Resolved(GameAction::TakeTurn(active)),
        TermEvent::Key(InputKey::Esc) => EventStep::Resolved(GameAction::Quit),
        TermEvent::Key(InputKey::Char(c)) => if c == ' ' {
            EventStep::Resolved(GameAction::TakeTurn(active))
        } else if c == 'q' || c == 'Q' {
            EventStep::Resolved(GameAction::Quit)
        } else {
            EventStep::Ignored
        },
        TermEvent::MousePress(term_coord) => EventStep::Resolved(
            GameAction::TakeTurn(
                Coord {
                    x: v.term_to_cell_axis(term_coord.x as int) as usize,
                    y: v.term_to_cell_axis(term_coord.y as int) as usize,
                },
            ),
        ),
        TermEvent::Other => EventStep::Ignored,
    }
}

/// Resolves one input event against the currently highlighted cell: the
/// single-state transition function of the interaction loop. The caller
/// feeds the `Moved` cell back in as the next highlight and re-blocks on
/// input after `Moved` or `Ignored`.
pub fn resolve_event(settings: &RenderSettings, active: Coord, ev: &TermEvent) -> (r: EventStep)
    requires
        settings.wf(),
        settings@.board_size >= 1,
        active.x < settings@.board_size,
        active.y < settings@.board_size,
    ensures
        r == event_step_spec(settings@, active, *ev),
        r matches EventStep::Moved(c) ==> c.x < settings@.board_size && c.y
            < settings@.board_size,
{
    let board_size: usize = settings.get_board_size();
    match ev {
        TermEvent::Key(InputKey::Left) => EventStep::Moved(
            Coord { x: active.x.saturating_sub(1), y: active.y },
        ),
        TermEvent::Key(InputKey::Right) => {
            let x: usize = if active.x + 1 > board_size - 1 {
                board_size - 1
            } else {
                active.x + 1
            };
            EventStep::Moved(Coord { x, y: active.y })
        },
        TermEvent::Key(InputKey::Up) => EventStep::Moved(
            Coord { x: active.x, y: active.y.saturating_sub(1) },
        ),
        TermEvent::Key(InputKey::Down) => {
            let y: usize = if active.y + 1 > board_size - 1 {
                board_size - 1
            } else {
                active.y + 1
            };
            EventStep::Moved(Coord { x: active.x, y })
        },
        TermEvent::Key(InputKey::Enter) => EventStep::Resolved(GameAction::TakeTurn(active)),
        TermEvent::Key(InputKey::Esc) => EventStep::Resolved(GameAction::Quit),
        TermEvent::Key(InputKey::Char(c)) => {
            if *c == ' ' {
                EventStep::Resolved(GameAction::TakeTurn(active))
            } else if *c == 'q' || *c == 'Q' {
                EventStep::Resolved(GameAction::Quit)
            } else {
                EventStep::Ignored
            }
        },
        TermEvent::MousePress(term_coord) => {
            let cell = settings.term_coord_to_cell_coord(term_coord);
            EventStep::Resolved(GameAction::TakeTurn(cell))
        },
        TermEvent::Other => EventStep::Ignored,
    }
}

} // verus!
