use ricracroe::coord::Coord;
use ricracroe::settings::RenderSettings;

#[test]
fn region_origins_stack_vertically() {
    let settings = RenderSettings::new(3, 2);
    assert_eq!(settings.get_board_size(), 3);
    assert_eq!(settings.get_title_origin(), Coord { x: 0, y: 0 });
    assert_eq!(settings.get_board_origin(), Coord { x: 2, y: 2 });
    assert_eq!(settings.get_rendered_board_height(), 6);
    // board origin y + rendered height + padding
    assert_eq!(settings.get_status_origin(), Coord { x: 0, y: 10 });
}

#[test]
fn cell_to_term_places_cell_content() {
    let settings = RenderSettings::new(3, 2);
    // terminal position = origin + 2 * cell + 1, per axis
    assert_eq!(
        settings.cell_coord_to_term_coord(&Coord { x: 0, y: 0 }),
        Coord { x: 3, y: 3 }
    );
    assert_eq!(
        settings.cell_coord_to_term_coord(&Coord { x: 1, y: 2 }),
        Coord { x: 5, y: 7 }
    );
}

#[test]
fn term_to_cell_round_trips_every_board_cell() {
    let settings = RenderSettings::new(3, 2);
    for x in 0..3 {
        for y in 0..3 {
            let cell = Coord { x, y };
            let term = settings.cell_coord_to_term_coord(&cell);
            assert_eq!(settings.term_coord_to_cell_coord(&term), cell);
        }
    }
}

#[test]
fn term_to_cell_covers_the_whole_glyph_block() {
    let settings = RenderSettings::new(3, 2);
    // a click anywhere inside a cell's 2x2 block resolves to that cell
    assert_eq!(
        settings.term_coord_to_cell_coord(&Coord { x: 6, y: 7 }),
        Coord { x: 1, y: 2 }
    );
    assert_eq!(
        settings.term_coord_to_cell_coord(&Coord { x: 4, y: 4 }),
        Coord { x: 0, y: 0 }
    );
}

#[test]
fn term_to_cell_outside_board_is_not_clamped_to_it() {
    let settings = RenderSettings::new(3, 2);
    // a click far beyond the grid yields a cell outside [0, size), left
    // for the board's own bounds check to reject
    let far = settings.term_coord_to_cell_coord(&Coord { x: 40, y: 40 });
    assert!(far.x >= 3 && far.y >= 3);
}
