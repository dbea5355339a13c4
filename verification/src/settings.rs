use vstd::prelude::*;

use crate::coord::{sat_sub, Coord};

verus! {

/// The mathematical model of the render settings: the board's side length
/// and the padding between screen regions.
pub struct SettingsView {
    pub board_size: nat,
    pub board_padding: nat,
}

impl SettingsView {
    /// Well-formedness: every derived screen position fits in `usize`.
    pub open spec fn wf(self) -> bool {
        &&& self.board_padding + 2 * self.board_size + 1 <= usize::MAX
        &&& 2 * self.board_padding + self.board_size + 3 <= usize::MAX
    }

    /// One axis of the board's screen origin: the title origin plus the
    /// padding. Both axes share it, since the title sits at the screen
    /// origin.
    pub open spec fn board_origin_axis(self) -> int {
        self.board_padding as int
    }

    /// One axis of the cell-to-terminal mapping: each cell occupies a
    /// two-character block past the board origin's border line.
    pub open spec fn cell_to_term_axis(self, c: int) -> int {
        self.board_origin_axis() + 2 * c + 1
    }

    /// One axis of the terminal-to-cell mapping: the inverse block lookup,
    /// by floor division, saturating at zero so a position left of or above
    /// the grid resolves toward the first cell rather than wrapping.
    pub open spec fn term_to_cell_axis(self, t: int) -> int {
        sat_sub(sat_sub(t, self.board_origin_axis()), 1) / 2
    }
}

/// Pure, immutable layout parameters for the terminal screen: where the
/// title, board, status line, and message log sit, and how board cells map
/// to terminal character cells. Holds no board state.
pub struct RenderSettings {
    board_size: usize,
    board_padding: usize,
}

impl View for RenderSettings {
    type V = SettingsView;

    closed spec fn view(&self) -> SettingsView {
        SettingsView {
            board_size: self.board_size as nat,
            board_padding: self.board_padding as nat,
        }
    }
}

impl RenderSettings {
    /// Well-formedness of the concrete settings: their model is well-formed.
    pub open spec fn wf(&self) -> bool {
        self@.wf()
    }

    /// New settings for a board of the given size with the given padding
    /// between screen regions.
    pub fn new(board_size: usize, board_padding: usize) -> (r: Self)
        requires
            board_padding + 2 * board_size + 1 <= usize::MAX,
            2 * board_padding + board_size + 3 <= usize::MAX,
        ensures
            r.wf(),
            r@.board_size == board_size,
            r@.board_padding == board_padding,
    {
        RenderSettings { board_size, board_padding }
    }

    /// The configured board size, for the interaction layer's cursor
    /// clamping.
    pub fn get_board_size(&self) -> (r: usize)
        ensures
            r == self@.board_size,
    {
        self.board_size
    }

    /// Maps a terminal character position to the board cell whose block
    /// covers it. Total: a position outside the rendered board yields a
    /// cell coordinate outside the board, to be rejected by the board's own
    /// bounds check, except that the subtraction saturates at zero.
    pub fn term_coord_to_cell_coord(&self, term_coord: &Coord) -> (r: Coord)
        ensures
            r.x == self@.term_to_cell_axis(term_coord.x as int),
            r.y == self@.term_to_cell_axis(term_coord.y as int),
    {
        let term_rel_coord: Coord = term_coord.minus(self.get_board_origin());
        let term_cell_coord = term_rel_coord.minus(Coord { x: 1, y: 1 });
        Coord { x: term_cell_coord.x / 2, y: term_cell_coord.y / 2 }
    }

    /// Maps a board cell to the terminal position of its content character:
    /// the board origin plus two characters per cell, past the border line.
    pub fn cell_coord_to_term_coord(&self, cell_coord: &Coord) -> (r: Coord)
        requires
            self.wf(),
            cell_coord.x < self@.board_size,
            cell_coord.y < self@.board_size,
        ensures
            r.x == self@.cell_to_term_axis(cell_coord.x as int),
            r.y == self@.cell_to_term_axis(cell_coord.y as int),
    {
        let term_rel_coord = Coord { x: (2 * cell_coord.x) + 1, y: (2 * cell_coord.y) + 1 };
        self.get_board_origin().plus(term_rel_coord)
    }

    /// The height in text lines that the rendered board occupies on screen.
    pub fn get_rendered_board_height(&self) -> (r: usize)
        requires
            self.wf(),
        ensures
            r == self@.board_size + 3,
    {
        1 + (self.board_size + 2)
    }

    /// The title region's origin: the screen origin.
    pub fn get_title_origin(&self) -> (r: Coord)
        ensures
            r.x == 0,
            r.y == 0,
    {
        Coord { x: 0, y: 0 }
    }

    /// The board region's origin: the title origin shifted by the padding
    /// on both axes.
    pub fn get_board_origin(&self) -> (r: Coord)
        ensures
            r.x == self@.board_origin_axis(),
            r.y == self@.board_origin_axis(),
    {
        self.get_title_origin().plus(Coord { x: self.board_padding, y: self.board_padding })
    }

    /// The status region's origin: below the board region and its padding.
    pub fn get_status_origin(&self) -> (r: Coord)
        requires
            self.wf(),
        ensures
            r.x == 0,
            r.y == 2 * self@.board_padding + self@.board_size + 3,
    {
        Coord {
            x: 0,
            y: self.get_board_origin().y + self.get_rendered_board_height() + self.board_padding,
        }
    }
}

/// Law: the two coordinate mappings are exact inverses on board cells; a
/// cell sent to its terminal position comes back as the same cell.
pub proof fn lemma_cell_coord_round_trip(v: SettingsView, cell: Coord)
    requires
        v.wf(),
        cell.x < v.board_size,
        cell.y < v.board_size,
    ensures
        v.term_to_cell_axis(v.cell_to_term_axis(cell.x as int)) == cell.x,
        v.term_to_cell_axis(v.cell_to_term_axis(cell.y as int)) == cell.y,
{
    assert(sat_sub(sat_sub(v.cell_to_term_axis(cell.x as int), v.board_origin_axis()), 1) == 2 * (
    cell.x as int));
    assert(sat_sub(sat_sub(v.cell_to_term_axis(cell.y as int), v.board_origin_axis()), 1) == 2 * (
    cell.y as int));
}

} // verus!
