use ricracroe::coord::Coord;
use ricracroe::ricracroe::{RRRBoard, RRRCell};

#[test]
fn borders_use_box_drawing_glyphs() {
    let board = RRRBoard::new();
    assert_eq!(board.render_board_top(), "╭─┬─┬─╮");
    assert_eq!(board.render_board_row_sep(), "├─┼─┼─┤");
    assert_eq!(board.render_board_bottom(), "╰─┴─┴─╯");
}

#[test]
fn borders_scale_with_the_board() {
    let board = RRRBoard::new_anysize(1);
    assert_eq!(board.render_board_top(), "╭─╮");
    assert_eq!(board.render_board_bottom(), "╰─╯");
    let board = RRRBoard::new_anysize(5);
    assert_eq!(board.render_board_top(), "╭─┬─┬─┬─┬─╮");
}

#[test]
fn rows_render_marks_and_blanks() {
    let mut board = RRRBoard::new();
    assert_eq!(board.render_board_row(0), "│ │ │ │");
    board.make_move(&Coord { x: 0, y: 0 }, RRRCell::X).unwrap();
    board.make_move(&Coord { x: 2, y: 0 }, RRRCell::O).unwrap();
    board.make_move(&Coord { x: 1, y: 1 }, RRRCell::O).unwrap();
    assert_eq!(board.render_board_row(0), "│X│ │O│");
    assert_eq!(board.render_board_row(1), "│ │O│ │");
    assert_eq!(board.render_board_row(2), "│ │ │ │");
}

#[test]
fn full_render_of_a_small_board() {
    let mut board = RRRBoard::new_anysize(2);
    board.make_move(&Coord { x: 0, y: 0 }, RRRCell::X).unwrap();
    board.make_move(&Coord { x: 1, y: 1 }, RRRCell::O).unwrap();
    let expected = "     0 1\n    ╭─┬─╮\n  0 │X│ │\n    ├─┼─┤\n  1 │ │O│\n    ╰─┴─╯\n";
    assert_eq!(board.render(), expected);
}

#[test]
fn full_render_labels_two_digit_rows() {
    let board = RRRBoard::new_anysize(12);
    let text = board.render();
    let lines: Vec<&str> = text.lines().collect();
    assert_eq!(lines[0], "     0 1 2 3 4 5 6 7 8 9 10 11");
    // row y's data line sits at index 2 + 2 * y
    assert!(lines[2].starts_with("  0 │"));
    assert!(lines[22].starts_with(" 10 │"));
    assert!(lines[24].starts_with(" 11 │"));
}
