use ricracroe::coord::Coord;
use ricracroe::settings::RenderSettings;
use ricracroe::terminal::{resolve_event, EventStep, GameAction, InputKey, TermEvent};

fn settings() -> RenderSettings {
    RenderSettings::new(3, 2)
}

#[test]
fn arrows_move_the_highlight_one_step() {
    let s = settings();
    let active = Coord { x: 1, y: 1 };
    assert_eq!(
        resolve_event(&s, active, &TermEvent::Key(InputKey::Left)),
        EventStep::Moved(Coord { x: 0, y: 1 })
    );
    assert_eq!(
        resolve_event(&s, active, &TermEvent::Key(InputKey::Right)),
        EventStep::Moved(Coord { x: 2, y: 1 })
    );
    assert_eq!(
        resolve_event(&s, active, &TermEvent::Key(InputKey::Up)),
        EventStep::Moved(Coord { x: 1, y: 0 })
    );
    assert_eq!(
        resolve_event(&s, active, &TermEvent::Key(InputKey::Down)),
        EventStep::Moved(Coord { x: 1, y: 2 })
    );
}

#[test]
fn moves_clamp_at_the_board_edges() {
    let s = settings();
    assert_eq!(
        resolve_event(&s, Coord { x: 0, y: 0 }, &TermEvent::Key(InputKey::Left)),
        EventStep::Moved(Coord { x: 0, y: 0 })
    );
    assert_eq!(
        resolve_event(&s, Coord { x: 0, y: 0 }, &TermEvent::Key(InputKey::Up)),
        EventStep::Moved(Coord { x: 0, y: 0 })
    );
    assert_eq!(
        resolve_event(&s, Coord { x: 2, y: 2 }, &TermEvent::Key(InputKey::Right)),
        EventStep::Moved(Coord { x: 2, y: 2 })
    );
    assert_eq!(
        resolve_event(&s, Coord { x: 2, y: 2 }, &TermEvent::Key(InputKey::Down)),
        EventStep::Moved(Coord { x: 2, y: 2 })
    );
}

#[test]
fn enter_and_space_play_the_highlighted_cell() {
    let s = settings();
    let active = Coord { x: 2, y: 1 };
    assert_eq!(
        resolve_event(&s, active, &TermEvent::Key(InputKey::Enter)),
        EventStep::Resolved(GameAction::TakeTurn(active))
    );
    assert_eq!(
        resolve_event(&s, active, &TermEvent::Key(InputKey::Char(' '))),
        EventStep::Resolved(GameAction::TakeTurn(active))
    );
}

#[test]
fn quit_keys_resolve_to_quit() {
    let s = settings();
    let active = Coord { x: 0, y: 0 };
    assert_eq!(
        resolve_event(&s, active, &TermEvent::Key(InputKey::Char('q'))),
        EventStep::Resolved(GameAction::Quit)
    );
    assert_eq!(
        resolve_event(&s, active, &TermEvent::Key(InputKey::Char('Q'))),
        EventStep::Resolved(GameAction::Quit)
    );
    assert_eq!(
        resolve_event(&s, active, &TermEvent::Key(InputKey::Esc)),
        EventStep::Resolved(GameAction::Quit)
    );
}

#[test]
fn other_input_is_ignored() {
    let s = settings();
    let active = Coord { x: 0, y: 0 };
    assert_eq!(
        resolve_event(&s, active, &TermEvent::Key(InputKey::Char('z'))),
        EventStep::Ignored
    );
    assert_eq!(resolve_event(&s, active, &TermEvent::Other), EventStep::Ignored);
}

#[test]
fn mouse_press_plays_the_cell_under_it() {
    let s = settings();
    let active = Coord { x: 0, y: 0 };
    // terminal (5, 7) lies in the glyph block of cell (1, 2)
    assert_eq!(
        resolve_event(&s, active, &TermEvent::MousePress(Coord { x: 5, y: 7 })),
        EventStep::Resolved(GameAction::TakeTurn(Coord { x: 1, y: 2 }))
    );
}

#[test]
fn mouse_press_bypasses_the_highlight() {
    let s = settings();
    let active = Coord { x: 2, y: 2 };
    assert_eq!(
        resolve_event(&s, active, &TermEvent::MousePress(Coord { x: 3, y: 3 })),
        EventStep::Resolved(GameAction::TakeTurn(Coord { x: 0, y: 0 }))
    );
}
