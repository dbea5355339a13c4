use ricracroe::coord::Coord;
use ricracroe::ricracroe::{RRRCell, RRRError, RRRGame, RRROutcome};

#[test]
fn fresh_game_starts_with_x_and_no_outcome() {
    let game = RRRGame::new();
    assert_eq!(game.get_turn(), RRRCell::X);
    assert!(!game.over());
    assert_eq!(game.get_board().get_size(), 3);
}

#[test]
fn next_player_toggles() {
    let mut game = RRRGame::new();
    assert_eq!(game.next_player(), Ok(RRRCell::O));
    assert_eq!(game.get_turn(), RRRCell::O);
    assert_eq!(game.next_player(), Ok(RRRCell::X));
    assert_eq!(game.get_turn(), RRRCell::X);
}

#[test]
fn next_player_without_active_player_fails() {
    let mut game = RRRGame::new();
    game.player = RRRCell::Clear;
    assert_eq!(game.next_player(), Err(RRRError::NoActivePlayer));
}

#[test]
fn take_turn_alternates_until_game_ends() {
    let mut game = RRRGame::new();
    // a successful move that does not end the game passes the turn
    assert_eq!(game.take_turn(&Coord { x: 0, y: 0 }), Ok(RRRCell::X));
    assert_eq!(game.get_turn(), RRRCell::O);
    assert_eq!(game.take_turn(&Coord { x: 1, y: 0 }), Ok(RRRCell::O));
    assert_eq!(game.get_turn(), RRRCell::X);
}

#[test]
fn take_turn_keeps_mover_when_game_ends() {
    let mut game = RRRGame::new();
    game.take_turn(&Coord { x: 0, y: 0 }).unwrap(); // X
    game.take_turn(&Coord { x: 1, y: 0 }).unwrap(); // O
    game.take_turn(&Coord { x: 1, y: 1 }).unwrap(); // X
    game.take_turn(&Coord { x: 2, y: 0 }).unwrap(); // O
    // the winning move ends the game: no toggle past game end
    assert_eq!(game.take_turn(&Coord { x: 2, y: 2 }), Ok(RRRCell::X));
    assert!(game.over());
    assert_eq!(game.get_turn(), RRRCell::X);
}

#[test]
fn take_turn_failure_leaves_state_unchanged() {
    let mut game = RRRGame::new();
    game.take_turn(&Coord { x: 0, y: 0 }).unwrap(); // X
    let c = Coord { x: 0, y: 0 };
    assert_eq!(
        game.take_turn(&c),
        Err(RRRError::CellAlreadySet(c, RRRCell::X))
    );
    assert_eq!(game.get_turn(), RRRCell::O);
    assert!(!game.over());
    let far = Coord { x: 9, y: 9 };
    assert_eq!(game.take_turn(&far), Err(RRRError::InvalidCellPosition(far)));
    assert_eq!(game.get_turn(), RRRCell::O);
}

#[test]
fn diagonal_win_scenario() {
    // X plays the main diagonal while O fills the top row's remainder
    let mut game = RRRGame::new();
    assert_eq!(game.take_turn(&Coord { x: 0, y: 0 }), Ok(RRRCell::X));
    assert_eq!(game.take_turn(&Coord { x: 1, y: 0 }), Ok(RRRCell::O));
    assert_eq!(game.take_turn(&Coord { x: 1, y: 1 }), Ok(RRRCell::X));
    assert_eq!(game.take_turn(&Coord { x: 2, y: 0 }), Ok(RRRCell::O));
    assert!(!game.over());
    assert_eq!(game.take_turn(&Coord { x: 2, y: 2 }), Ok(RRRCell::X));
    assert_eq!(
        game.outcome,
        Some(RRROutcome::XWins {
            winning_cells: vec![
                Coord { x: 0, y: 0 },
                Coord { x: 1, y: 1 },
                Coord { x: 2, y: 2 },
            ],
        })
    );
}

#[test]
fn full_board_without_line_is_a_draw() {
    // final grid, row by row: X X O / O O X / X O X
    let mut game = RRRGame::new();
    let moves = [
        Coord { x: 0, y: 0 }, // X
        Coord { x: 2, y: 0 }, // O
        Coord { x: 1, y: 0 }, // X
        Coord { x: 0, y: 1 }, // O
        Coord { x: 2, y: 1 }, // X
        Coord { x: 1, y: 1 }, // O
        Coord { x: 0, y: 2 }, // X
        Coord { x: 1, y: 2 }, // O
        Coord { x: 2, y: 2 }, // X
    ];
    for (i, m) in moves.iter().enumerate() {
        assert_eq!(game.outcome, None, "game ended early before move {}", i);
        game.take_turn(m).unwrap();
    }
    assert_eq!(game.outcome, Some(RRROutcome::Draw));
    assert!(game.over());
    // no extra toggle past game end: X made the last move
    assert_eq!(game.get_turn(), RRRCell::X);
}

#[test]
fn move_to_far_cell_on_small_board_is_invalid() {
    let mut game = RRRGame::new_anysize(3);
    let c = Coord { x: 5, y: 5 };
    assert_eq!(game.take_turn(&c), Err(RRRError::InvalidCellPosition(c)));
}

#[test]
fn second_move_to_same_cell_reports_first_mark() {
    let mut game = RRRGame::new();
    let c = Coord { x: 0, y: 0 };
    assert_eq!(game.take_turn(&c), Ok(RRRCell::X));
    assert_eq!(
        game.take_turn(&c),
        Err(RRRError::CellAlreadySet(c, RRRCell::X))
    );
}
