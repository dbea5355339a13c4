use vstd::prelude::*;

use crate::coord::Coord;
use crate::numfmt::{dec_chars, lemma_dec_chars_len, push_char, to_decimal};

verus! {

/// Errors a board or game operation can report. All of them are recoverable
/// by design: the caller reports them to the player and the move is discarded.
#[derive(Clone, Copy, PartialEq, Eq, Structural, Debug)]
pub enum RRRError {
    /// The coordinate lies outside `[0, size)` on at least one axis.
    InvalidCellPosition(Coord),
    /// The cell was already played in; carries the mark that holds it.
    CellAlreadySet(Coord, RRRCell),
    /// Defensive: the game has no mark to play. Unreachable through the
    /// public constructors, which always start with an active player.
    NoActivePlayer,
}

/// The state of one board cell: empty, or holding one player's mark.
#[derive(Clone, Copy, PartialEq, Eq, Structural, Hash, Debug)]
pub enum RRRCell {
    Clear,
    X,
    O,
}

/// How a finished game ended: a draw, or a win together with the ordered
/// coordinates of the completed line.
#[derive(Clone, PartialEq, Eq, Debug)]
pub enum RRROutcome {
    Draw,
    XWins { winning_cells: Vec<Coord> },
    OWins { winning_cells: Vec<Coord> },
}

/// The mathematical shape of an `RRROutcome`: the winning line as a sequence.
pub enum OutcomeView {
    Draw,
    XWins { winning_cells: Seq<Coord> },
    OWins { winning_cells: Seq<Coord> },
}

impl View for RRROutcome {
    type V = OutcomeView;

    open spec fn view(&self) -> OutcomeView {
        match self {
            RRROutcome::Draw => OutcomeView::Draw,
            RRROutcome::XWins { winning_cells } => OutcomeView::XWins {
                winning_cells: winning_cells@,
            },
            RRROutcome::OWins { winning_cells } => OutcomeView::OWins {
                winning_cells: winning_cells@,
            },
        }
    }
}

/// Relates an executable optional outcome to its mathematical counterpart.
pub open spec fn outcome_matches(r: Option<RRROutcome>, m: Option<OutcomeView>) -> bool {
    match (r, m) {
        (Option::None, Option::None) => true,
        (Option::Some(o), Option::Some(mv)) => o@ == mv,
        _ => false,
    }
}

/// The mathematical model of a board: its side length and the flat sequence
/// of cells, laid out row-major, the cell `(x, y)` at index `y * size + x`.
pub struct BoardView {
    pub size: nat,
    pub cells: Seq<RRRCell>,
}

/// The coordinates of row `y`, left to right.
pub open spec fn row_coords(size: nat, y: int) -> Seq<Coord> {
    Seq::new(size, |x: int| Coord { x: x as usize, y: y as usize })
}

/// The coordinates of column `x`, top to bottom.
pub open spec fn col_coords(size: nat, x: int) -> Seq<Coord> {
    Seq::new(size, |y: int| Coord { x: x as usize, y: y as usize })
}

/// The coordinates of the diagonal where `x == y`, from `(0, 0)` down.
pub open spec fn diag_coords(size: nat) -> Seq<Coord> {
    Seq::new(size, |i: int| Coord { x: i as usize, y: i as usize })
}

/// The coordinates of the diagonal where `x == size - 1 - y`, top to bottom.
pub open spec fn anti_diag_coords(size: nat) -> Seq<Coord> {
    Seq::new(size, |i: int| Coord { x: (size - 1 - i) as usize, y: i as usize })
}

impl BoardView {
    /// Well-formedness: the grid is fully populated and its area fits the
    /// machine's word size.
    pub open spec fn wf(self) -> bool {
        &&& self.cells.len() == self.size * self.size
        &&& self.size * self.size <= usize::MAX
    }

    /// Whether `(x, y)` addresses a cell of the board.
    pub open spec fn in_range(self, x: int, y: int) -> bool {
        0 <= x < self.size && 0 <= y < self.size
    }

    /// The cell at `(x, y)`.
    pub open spec fn cell_at(self, x: int, y: int) -> RRRCell {
        self.cells[y * self.size + x]
    }

    /// The cell at a coordinate.
    pub open spec fn cell_of(self, c: Coord) -> RRRCell {
        self.cell_at(c.x as int, c.y as int)
    }

    /// Whether a coordinate addresses a cell of the board.
    pub open spec fn coord_in_range(self, c: Coord) -> bool {
        self.in_range(c.x as int, c.y as int)
    }

    /// A line is won when it is non-empty and every cell along it holds the
    /// same non-empty mark.
    pub open spec fn line_won(self, line: Seq<Coord>) -> bool {
        &&& line.len() > 0
        &&& self.cell_of(line[0]) != RRRCell::Clear
        &&& forall|i: int|
            0 <= i < line.len() ==> self.cell_of(#[trigger] line[i]) == self.cell_of(line[0])
    }

    /// The outcome a won line yields: a win for the mark on that line,
    /// carrying the line's coordinates.
    pub open spec fn win_for(self, line: Seq<Coord>) -> OutcomeView {
        if self.cell_of(line[0]) == RRRCell::X {
            OutcomeView::XWins { winning_cells: line }
        } else {
            OutcomeView::OWins { winning_cells: line }
        }
    }

    /// No cell of the board is empty.
    pub open spec fn full(self) -> bool {
        forall|i: int| 0 <= i < self.cells.len() ==> self.cells[i] != RRRCell::Clear
    }

    /// Every cell of the board is empty, as on a fresh board.
    pub open spec fn all_clear(self) -> bool {
        forall|i: int| 0 <= i < self.cells.len() ==> self.cells[i] == RRRCell::Clear
    }

    /// The first row at or after `y` that is won, scanning downward.
    pub open spec fn first_row_win_from(self, y: int) -> Option<int>
        decreases self.size - y,
    {
        if y >= self.size {
            Option::None
        } else if self.line_won(row_coords(self.size, y)) {
            Option::Some(y)
        } else {
            self.first_row_win_from(y + 1)
        }
    }

    /// The first column at or after `x` that is won, scanning rightward.
    pub open spec fn first_col_win_from(self, x: int) -> Option<int>
        decreases self.size - x,
    {
        if x >= self.size {
            Option::None
        } else if self.line_won(col_coords(self.size, x)) {
            Option::Some(x)
        } else {
            self.first_col_win_from(x + 1)
        }
    }

    /// The outcome of the board, evaluated in a fixed order: every row, then
    /// every column, then the diagonal `x == y`, then the diagonal
    /// `x == size - 1 - y`; failing a win, a draw when no cell is empty.
    pub open spec fn outcome_of(self) -> Option<OutcomeView> {
        match self.first_row_win_from(0) {
            Option::Some(y) => Option::Some(self.win_for(row_coords(self.size, y))),
            Option::None => match self.first_col_win_from(0) {
                Option::Some(x) => Option::Some(self.win_for(col_coords(self.size, x))),
                Option::None => if self.line_won(diag_coords(self.size)) {
                    Option::Some(self.win_for(diag_coords(self.size)))
                } else if self.line_won(anti_diag_coords(self.size)) {
                    Option::Some(self.win_for(anti_diag_coords(self.size)))
                } else if self.full() {
                    Option::Some(OutcomeView::Draw)
                } else {
                    Option::None
                },
            },
        }
    }

    /// Some row, column, or diagonal of the board is won.
    pub open spec fn some_line_won(self) -> bool {
        ||| exists|y: int| 0 <= y < self.size && self.line_won(row_coords(self.size, y))
        ||| exists|x: int| 0 <= x < self.size && self.line_won(col_coords(self.size, x))
        ||| self.line_won(diag_coords(self.size))
        ||| self.line_won(anti_diag_coords(self.size))
    }
}

/// A row-major index stays within the board's area.
proof fn lemma_idx_in_range(size: int, x: int, y: int)
    requires
        0 <= x < size,
        0 <= y < size,
    ensures
        0 <= y * size + x < size * size,
{
    assert(0 <= y * size + x < size * size) by (nonlinear_arith)
        requires
            0 <= x < size,
            0 <= y < size,
    ;
}

/// The N-by-N grid of cells. The grid is always fully populated: every
/// coordinate with both components below `size` has a cell.
#[derive(Debug)]
pub struct RRRBoard {
    cells: Vec<RRRCell>,
    size: usize,
}

impl View for RRRBoard {
    type V = BoardView;

    closed spec fn view(&self) -> BoardView {
        BoardView { size: self.size as nat, cells: self.cells@ }
    }
}

impl RRRBoard {
    /// Well-formedness of the concrete board: its model is well-formed.
    pub open spec fn wf(&self) -> bool {
        self@.wf()
    }

    /// The board's side length.
    pub fn get_size(&self) -> (r: usize)
        ensures
            r == self@.size,
    {
        self.size
    }

    /// The cell at an in-range coordinate, read without a bounds check.
    fn get_cell(&self, coord: &Coord) -> (r: RRRCell)
        requires
            self.wf(),
            self@.coord_in_range(*coord),
        ensures
            r == self@.cell_of(*coord),
    {
        proof {
            lemma_idx_in_range(self.size as int, coord.x as int, coord.y as int);
        }
        self.cells[coord.y * self.size + coord.x]
    }

    /// Reads a cell: the cell's state for an in-range coordinate, and
    /// `InvalidCellPosition` otherwise.
    pub fn fetch(&self, coord: &Coord) -> (r: Result<RRRCell, RRRError>)
        requires
            self.wf(),
        ensures
            r == if self@.coord_in_range(*coord) {
                Result::<RRRCell, RRRError>::Ok(self@.cell_of(*coord))
            } else {
                Result::<RRRCell, RRRError>::Err(RRRError::InvalidCellPosition(*coord))
            },
    {
        if coord.x < self.size && coord.y < self.size {
            Ok(self.get_cell(coord))
        } else {
            Err(RRRError::InvalidCellPosition(*coord))
        }
    }

    /// Overwrites a cell unconditionally after a bounds check, returning the
    /// state written. This is an internal building block: move legality is
    /// the business of `make_move`.
    pub fn set(&mut self, coord: &Coord, new_state: RRRCell) -> (r: Result<RRRCell, RRRError>)
        requires
            old(self).wf(),
        ensures
            final(self).wf(),
            final(self)@.size == old(self)@.size,
            if old(self)@.coord_in_range(*coord) {
                &&& r == Result::<RRRCell, RRRError>::Ok(new_state)
                &&& final(self)@.cells == old(self)@.cells.update(
                    coord.y * old(self)@.size + coord.x,
                    new_state,
                )
            } else {
                &&& r == Result::<RRRCell, RRRError>::Err(RRRError::InvalidCellPosition(*coord))
                &&& final(self)@.cells == old(self)@.cells
            },
    {
        if coord.x < self.size && coord.y < self.size {
            proof {
                lemma_idx_in_range(self.size as int, coord.x as int, coord.y as int);
            }
            let idx: usize = coord.y * self.size + coord.x;
            self.cells.set(idx, new_state);
            Ok(new_state)
        } else {
            Err(RRRError::InvalidCellPosition(*coord))
        }
    }

    /// The one sanctioned mutation path: writes `new_state` to an in-range,
    /// still-empty cell; rejects out-of-range coordinates with
    /// `InvalidCellPosition` and already-played cells with `CellAlreadySet`,
    /// in both cases leaving the board unchanged.
    pub fn make_move(&mut self, coord: &Coord, new_state: RRRCell) -> (r: Result<
        RRRCell,
        RRRError,
    >)
        requires
            old(self).wf(),
        ensures
            final(self).wf(),
            final(self)@.size == old(self)@.size,
            !old(self)@.coord_in_range(*coord) ==> {
                &&& r == Result::<RRRCell, RRRError>::Err(RRRError::InvalidCellPosition(*coord))
                &&& final(self)@.cells == old(self)@.cells
            },
            old(self)@.coord_in_range(*coord) && old(self)@.cell_of(*coord) != RRRCell::Clear
                ==> {
                &&& r == Result::<RRRCell, RRRError>::Err(
                    RRRError::CellAlreadySet(*coord, old(self)@.cell_of(*coord)),
                )
                &&& final(self)@.cells == old(self)@.cells
            },
            old(self)@.coord_in_range(*coord) && old(self)@.cell_of(*coord) == RRRCell::Clear
                ==> {
                &&& r == Result::<RRRCell, RRRError>::Ok(new_state)
                &&& final(self)@.cells == old(self)@.cells.update(
                    coord.y * old(self)@.size + coord.x,
                    new_state,
                )
            },
    {
        let cur_val = match self.fetch(coord) {
            Ok(c) => c,
            Err(e) => {
                return Err(e);
            },
        };
        if cur_val == RRRCell::X || cur_val == RRRCell::O {
            Err(RRRError::CellAlreadySet(*coord, cur_val))
        } else {
            self.set(coord, new_state)
        }
    }

    /// Resets every cell of the board to `Clear`, keeping its size.
    pub fn init(&mut self)
        requires
            old(self)@.size * old(self)@.size <= usize::MAX,
        ensures
            final(self).wf(),
            final(self)@.size == old(self)@.size,
            final(self)@.all_clear(),
    {
        let n: usize = self.size * self.size;
        let mut cells: Vec<RRRCell> = Vec::new();
        let mut i: usize = 0;
        while i < n
            invariant
                i <= n,
                cells@.len() == i,
                forall|j: int| 0 <= j < i ==> cells@[j] == RRRCell::Clear,
            decreases n - i,
        {
            cells.push(RRRCell::Clear);
            i += 1;
        }
        self.cells = cells;
    }

    /// A fresh, fully empty board of the given size.
    pub fn new_anysize(size: usize) -> (r: Self)
        requires
            size * size <= usize::MAX,
        ensures
            r.wf(),
            r@.size == size,
            r@.all_clear(),
    {
        let mut board = RRRBoard { cells: Vec::new(), size };
        board.init();
        board
    }

    /// A fresh 3-by-3 board.
    pub fn new() -> (r: Self)
        ensures
            r.wf(),
            r@.size == 3,
            r@.all_clear(),
    {
        RRRBoard::new_anysize(3)
    }

    /// The coordinates of row `y`, as a vector.
    fn row_line(&self, y: usize) -> (r: Vec<Coord>)
        requires
            y < self@.size,
        ensures
            r@ == row_coords(self@.size, y as int),
    {
        let mut line: Vec<Coord> = Vec::new();
        let mut x: usize = 0;
        while x < self.size
            invariant
                x <= self.size,
                line@.len() == x,
                forall|i: int| 0 <= i < x ==> line@[i] == (Coord { x: i as usize, y }),
            decreases self.size - x,
        {
            line.push(Coord { x, y });
            x += 1;
        }
        proof {
            assert(line@ =~= row_coords(self@.size, y as int));
        }
        line
    }

    /// The coordinates of column `x`, as a vector.
    fn col_line(&self, x: usize) -> (r: Vec<Coord>)
        requires
            x < self@.size,
        ensures
            r@ == col_coords(self@.size, x as int),
    {
        let mut line: Vec<Coord> = Vec::new();
        let mut y: usize = 0;
        while y < self.size
            invariant
                y <= self.size,
                line@.len() == y,
                forall|i: int| 0 <= i < y ==> line@[i] == (Coord { x, y: i as usize }),
            decreases self.size - y,
        {
            line.push(Coord { x, y });
            y += 1;
        }
        proof {
            assert(line@ =~= col_coords(self@.size, x as int));
        }
        line
    }

    /// The coordinates of the diagonal `x == y`, as a vector.
    fn diag_line(&self) -> (r: Vec<Coord>)
        ensures
            r@ == diag_coords(self@.size),
    {
        let mut line: Vec<Coord> = Vec::new();
        let mut i: usize = 0;
        while i < self.size
            invariant
                i <= self.size,
                line@.len() == i,
                forall|j: int| 0 <= j < i ==> line@[j] == (Coord { x: j as usize, y: j as usize }),
            decreases self.size - i,
        {
            line.push(Coord { x: i, y: i });
            i += 1;
        }
        proof {
            assert(line@ =~= diag_coords(self@.size));
        }
        line
    }

    /// The coordinates of the diagonal `x == size - 1 - y`, as a vector.
    fn anti_diag_line(&self) -> (r: Vec<Coord>)
        ensures
            r@ == anti_diag_coords(self@.size),
    {
        let mut line: Vec<Coord> = Vec::new();
        let mut i: usize = 0;
        while i < self.size
            invariant
                i <= self.size,
                line@.len() == i,
                forall|j: int|
                    0 <= j < i ==> line@[j] == (Coord {
                        x: (self@.size - 1 - j) as usize,
                        y: j as usize,
                    }),
            decreases self.size - i,
        {
            line.push(Coord { x: self.size - 1 - i, y: i });
            i += 1;
        }
        proof {
            assert(line@ =~= anti_diag_coords(self@.size));
        }
        line
    }

    /// Tests one candidate line for a win: `Some` of the matching outcome
    /// when every cell along the line holds the same non-empty mark, `None`
    /// otherwise.
    fn test_winner(&self, line: &Vec<Coord>) -> (r: Option<RRROutcome>)
        requires
            self.wf(),
            line@.len() > 0,
            forall|i: int| 0 <= i < line@.len() ==> self@.coord_in_range(#[trigger] line@[i]),
        ensures
            self@.line_won(line@) ==> outcome_matches(r, Option::Some(self@.win_for(line@))),
            !self@.line_won(line@) ==> r is None,
    {
        let first = self.get_cell(&line[0]);
        if first == RRRCell::Clear {
            return None;
        }
        let mut i: usize = 1;
        while i < line.len()
            invariant
                self.wf(),
                1 <= i <= line@.len(),
                forall|i: int|
                    0 <= i < line@.len() ==> self@.coord_in_range(#[trigger] line@[i]),
                first == self@.cell_of(line@[0]),
                first != RRRCell::Clear,
                forall|j: int| 0 <= j < i ==> self@.cell_of(#[trigger] line@[j]) == first,
            decreases line@.len() - i,
        {
            if self.get_cell(&line[i]) != first {
                return None;
            }
            i += 1;
        }
        let mut winning_cells: Vec<Coord> = Vec::new();
        let mut j: usize = 0;
        while j < line.len()
            invariant
                j <= line@.len(),
                winning_cells@.len() == j,
                forall|k: int| 0 <= k < j ==> winning_cells@[k] == line@[k],
            decreases line@.len() - j,
        {
            winning_cells.push(line[j]);
            j += 1;
        }
        proof {
            assert(winning_cells@ =~= line@);
        }
        if first == RRRCell::X {
            Some(RRROutcome::XWins { winning_cells })
        } else {
            Some(RRROutcome::OWins { winning_cells })
        }
    }
}

/// When rows `y0..y` are all unwon and row `y` is won, the downward scan
/// started at `y0` stops exactly at `y`.
proof fn lemma_row_scan_finds(v: BoardView, y0: int, y: int)
    requires
        0 <= y0 <= y < v.size,
        forall|y2: int| y0 <= y2 < y ==> !v.line_won(row_coords(v.size, y2)),
        v.line_won(row_coords(v.size, y)),
    ensures
        v.first_row_win_from(y0) == Option::Some(y),
    decreases y - y0,
{
    if y0 < y {
        lemma_row_scan_finds(v, y0 + 1, y);
    }
}

/// The downward row scan from `y0` comes back empty exactly when no row at
/// or after `y0` is won.
proof fn lemma_row_scan_none(v: BoardView, y0: int)
    ensures
        v.first_row_win_from(y0) is None <==> forall|y: int|
            y0 <= y < v.size ==> !v.line_won(row_coords(v.size, y)),
    decreases v.size - y0,
{
    if y0 < v.size {
        lemma_row_scan_none(v, y0 + 1);
    }
}

/// When columns `x0..x` are all unwon and column `x` is won, the rightward
/// scan started at `x0` stops exactly at `x`.
proof fn lemma_col_scan_finds(v: BoardView, x0: int, x: int)
    requires
        0 <= x0 <= x < v.size,
        forall|x2: int| x0 <= x2 < x ==> !v.line_won(col_coords(v.size, x2)),
        v.line_won(col_coords(v.size, x)),
    ensures
        v.first_col_win_from(x0) == Option::Some(x),
    decreases x - x0,
{
    if x0 < x {
        lemma_col_scan_finds(v, x0 + 1, x);
    }
}

/// The rightward column scan from `x0` comes back empty exactly when no
/// column at or after `x0` is won.
proof fn lemma_col_scan_none(v: BoardView, x0: int)
    ensures
        v.first_col_win_from(x0) is None <==> forall|x: int|
            x0 <= x < v.size ==> !v.line_won(col_coords(v.size, x)),
    decreases v.size - x0,
{
    if x0 < v.size {
        lemma_col_scan_none(v, x0 + 1);
    }
}

impl RRRBoard {
    /// Evaluates the board, in a fixed order: every row, then every column,
    /// then the two diagonals; the first won line decides. With no won line,
    /// a fully played board is a draw and any empty cell leaves the game in
    /// progress.
    pub fn outcome(&self) -> (r: Option<RRROutcome>)
        requires
            self.wf(),
        ensures
            outcome_matches(r, self@.outcome_of()),
    {
        let mut y: usize = 0;
        while y < self.size
            invariant
                self.wf(),
                y <= self@.size,
                forall|y2: int| 0 <= y2 < y ==> !self@.line_won(row_coords(self@.size, y2)),
            decreases self.size - y,
        {
            let line = self.row_line(y);
            match self.test_winner(&line) {
                Some(winning_row) => {
                    proof {
                        lemma_row_scan_finds(self@, 0, y as int);
                    }
                    return Some(winning_row);
                },
                None => {},
            }
            y += 1;
        }
        proof {
            lemma_row_scan_none(self@, 0);
        }

        let mut x: usize = 0;
        while x < self.size
            invariant
                self.wf(),
                x <= self@.size,
                self@.first_row_win_from(0) is None,
                forall|x2: int| 0 <= x2 < x ==> !self@.line_won(col_coords(self@.size, x2)),
            decreases self.size - x,
        {
            let line = self.col_line(x);
            match self.test_winner(&line) {
                Some(winning_column) => {
                    proof {
                        lemma_col_scan_finds(self@, 0, x as int);
                    }
                    return Some(winning_column);
                },
                None => {},
            }
            x += 1;
        }
        proof {
            lemma_col_scan_none(self@, 0);
        }

        if self.size > 0 {
            let line = self.diag_line();
            match self.test_winner(&line) {
                Some(winning_diagonal) => {
                    return Some(winning_diagonal);
                },
                None => {},
            }

            let line = self.anti_diag_line();
            match self.test_winner(&line) {
                Some(winning_diagonal) => {
                    return Some(winning_diagonal);
                },
                None => {},
            }
        }

        let mut i: usize = 0;
        let n: usize = self.size * self.size;
        while i < n
            invariant
                self.wf(),
                n == self@.size * self@.size,
                i <= n,
                self@.first_row_win_from(0) is None,
                self@.first_col_win_from(0) is None,
                !self@.line_won(diag_coords(self@.size)),
                !self@.line_won(anti_diag_coords(self@.size)),
                forall|j: int| 0 <= j < i ==> self@.cells[j] != RRRCell::Clear,
            decreases n - i,
        {
            if self.cells[i] == RRRCell::Clear {
                return None;
            }
            i += 1;
        }
        Some(RRROutcome::Draw)
    }
}

/// The glyph a cell is drawn with: the player's mark, or a blank for an
/// empty cell.
pub open spec fn cell_glyph(c: RRRCell) -> char {
    match c {
        RRRCell::Clear => ' ',
        RRRCell::X => 'X',
        RRRCell::O => 'O',
    }
}

/// A horizontal border line of the grid: an opening glyph, then one dash per
/// cell separated by junction glyphs, then a closing glyph.
pub open spec fn border_render(n: nat, first: char, junction: char, close: char) -> Seq<char> {
    Seq::new(
        2 * n,
        |i: int|
            if i % 2 == 1 {
                '─'
            } else if i == 0 {
                first
            } else {
                junction
            },
    ).push(close)
}

/// The top border of the grid.
pub open spec fn top_render(n: nat) -> Seq<char> {
    border_render(n, '╭', '┬', '╮')
}

/// The bottom border of the grid.
pub open spec fn bottom_render(n: nat) -> Seq<char> {
    border_render(n, '╰', '┴', '╯')
}

/// The separator drawn between two data rows of the grid.
pub open spec fn row_sep_render(n: nat) -> Seq<char> {
    border_render(n, '├', '┼', '┤')
}

/// One data row of the grid: each cell's glyph between vertical bars.
pub open spec fn row_render(v: BoardView, y: int) -> Seq<char> {
    Seq::new(
        2 * v.size,
        |i: int|
            if i % 2 == 0 {
                '│'
            } else {
                cell_glyph(v.cell_at(i / 2, y))
            },
    ).push('│')
}

impl RRRBoard {
    /// A border line, built left to right.
    fn render_border(&self, first: char, junction: char, close: char) -> (r: String)
        ensures
            r@ == border_render(self@.size, first, junction, close),
    {
        let mut line = String::new();
        let mut x: usize = 0;
        while x < self.size
            invariant
                x <= self@.size,
                line@.len() == 2 * x,
                forall|i: int|
                    0 <= i < 2 * x ==> line@[i] == (if i % 2 == 1 {
                        '─'
                    } else if i == 0 {
                        first
                    } else {
                        junction
                    }),
            decreases self.size - x,
        {
            if x == 0 {
                push_char(&mut line, first);
            } else {
                push_char(&mut line, junction);
            }
            push_char(&mut line, '─');
            x += 1;
        }
        push_char(&mut line, close);
        proof {
            assert(line@ =~= border_render(self@.size, first, junction, close));
        }
        line
    }

    /// The textual top border of the board.
    pub fn render_board_top(&self) -> (r: String)
        ensures
            r@ == top_render(self@.size),
    {
        self.render_border('╭', '┬', '╮')
    }

    /// The textual bottom border of the board.
    pub fn render_board_bottom(&self) -> (r: String)
        ensures
            r@ == bottom_render(self@.size),
    {
        self.render_border('╰', '┴', '╯')
    }

    /// The textual separator between two data rows of the board.
    pub fn render_board_row_sep(&self) -> (r: String)
        ensures
            r@ == row_sep_render(self@.size),
    {
        self.render_border('├', '┼', '┤')
    }

    /// The textual rendering of data row `y`: the cells' glyphs between
    /// vertical bars. The grid is always fully populated, so every cell
    /// renders as a mark or a blank.
    pub fn render_board_row(&self, y: usize) -> (r: String)
        requires
            self.wf(),
            y < self@.size,
        ensures
            r@ == row_render(self@, y as int),
    {
        let mut line = String::new();
        let mut x: usize = 0;
        while x < self.size
            invariant
                self.wf(),
                y < self@.size,
                x <= self@.size,
                line@.len() == 2 * x,
                forall|i: int|
                    0 <= i < 2 * x ==> line@[i] == (if i % 2 == 0 {
                        '│'
                    } else {
                        cell_glyph(self@.cell_at(i / 2, y as int))
                    }),
            decreases self.size - x,
        {
            push_char(&mut line, '│');
            let cell = self.get_cell(&Coord { x, y });
            match cell {
                RRRCell::X => push_char(&mut line, 'X'),
                RRRCell::O => push_char(&mut line, 'O'),
                RRRCell::Clear => push_char(&mut line, ' '),
            }
            x += 1;
        }
        push_char(&mut line, '│');
        proof {
            assert(line@ =~= row_render(self@, y as int));
        }
        line
    }
}

/// The four-space indent that aligns the grid under its column numbers.
pub open spec fn indent_chars() -> Seq<char> {
    seq![' ', ' ', ' ', ' ']
}

/// The column-number header: for each column, a space then its number.
pub open spec fn header_chars(n: nat) -> Seq<char>
    decreases n,
{
    if n == 0 {
        Seq::empty()
    } else {
        header_chars((n - 1) as nat) + seq![' '] + dec_chars((n - 1) as nat)
    }
}

/// A row number padded with spaces on the left to at least three characters.
pub open spec fn pad3_chars(n: nat) -> Seq<char> {
    if dec_chars(n).len() == 1 {
        seq![' ', ' '] + dec_chars(n)
    } else if dec_chars(n).len() == 2 {
        seq![' '] + dec_chars(n)
    } else {
        dec_chars(n)
    }
}

/// The two text lines introducing data row `y`: the top border (for the
/// first row) or a row separator, then the numbered data row itself.
pub open spec fn row_block_chars(v: BoardView, y: int) -> Seq<char> {
    (if y == 0 {
        indent_chars() + top_render(v.size)
    } else {
        indent_chars() + row_sep_render(v.size)
    }) + seq!['\n'] + pad3_chars(y as nat) + seq![' '] + row_render(v, y) + seq!['\n']
}

/// The row blocks of the first `y` rows, in order.
pub open spec fn grid_chars(v: BoardView, y: nat) -> Seq<char>
    decreases y,
{
    if y == 0 {
        Seq::empty()
    } else {
        grid_chars(v, (y - 1) as nat) + row_block_chars(v, y - 1)
    }
}

/// The whole board as text: column numbers, then each numbered row between
/// borders and separators, then the bottom border.
pub open spec fn full_render(v: BoardView) -> Seq<char> {
    indent_chars() + header_chars(v.size) + seq!['\n'] + grid_chars(v, v.size) + indent_chars()
        + bottom_render(v.size) + seq!['\n']
}

/// Appends the four-space indent.
fn push_indent(s: &mut String)
    ensures
        final(s)@ == old(s)@ + indent_chars(),
{
    push_char(s, ' ');
    push_char(s, ' ');
    push_char(s, ' ');
    push_char(s, ' ');
    proof {
        assert(s@ =~= old(s)@ + indent_chars());
    }
}

impl RRRBoard {
    /// The whole board as text, with numbered columns and rows: the form the
    /// board takes when printed outside the interactive screen.
    pub fn render(&self) -> (r: String)
        requires
            self.wf(),
        ensures
            r@ == full_render(self@),
    {
        let mut out = String::new();
        push_indent(&mut out);
        let mut x: usize = 0;
        while x < self.size
            invariant
                x <= self@.size,
                out@ == indent_chars() + header_chars(x as nat),
            decreases self.size - x,
        {
            push_char(&mut out, ' ');
            let num = to_decimal(x);
            out.append(num.as_str());
            proof {
                assert(out@ =~= indent_chars() + header_chars((x + 1) as nat));
            }
            x += 1;
        }
        push_char(&mut out, '\n');

        let ghost head = indent_chars() + header_chars(self@.size) + seq!['\n'];
        let mut y: usize = 0;
        while y < self.size
            invariant
                self.wf(),
                y <= self@.size,
                head == indent_chars() + header_chars(self@.size) + seq!['\n'],
                out@ == head + grid_chars(self@, y as nat),
            decreases self.size - y,
        {
            push_indent(&mut out);
            let border = if y == 0 {
                self.render_board_top()
            } else {
                self.render_board_row_sep()
            };
            out.append(border.as_str());
            push_char(&mut out, '\n');
            if y < 10 {
                push_char(&mut out, ' ');
                push_char(&mut out, ' ');
            } else if y < 100 {
                push_char(&mut out, ' ');
            }
            proof {
                lemma_dec_chars_len(y as nat);
            }
            let num = to_decimal(y);
            out.append(num.as_str());
            push_char(&mut out, ' ');
            let row = self.render_board_row(y);
            out.append(row.as_str());
            push_char(&mut out, '\n');
            proof {
                assert(out@ =~= head + grid_chars(self@, (y + 1) as nat));
            }
            y += 1;
        }

        push_indent(&mut out);
        let bottom = self.render_board_bottom();
        out.append(bottom.as_str());
        push_char(&mut out, '\n');
        proof {
            assert(out@ =~= full_render(self@));
        }
        out
    }
}

/// The opposite mark: `X` for `O` and `O` for `X`. `Clear` marks no player
/// and has no opposite.
pub open spec fn other_mark(m: RRRCell) -> RRRCell {
    match m {
        RRRCell::X => RRRCell::O,
        RRRCell::O => RRRCell::X,
        RRRCell::Clear => RRRCell::Clear,
    }
}

/// A game in progress: a board, the mark whose turn it is, and the outcome
/// once one is reached. After an outcome exists no further move is accepted;
/// the caller checks `over` before taking another turn.
pub struct RRRGame {
    pub board: RRRBoard,
    pub player: RRRCell,
    pub outcome: Option<RRROutcome>,
}

impl RRRGame {
    /// Well-formedness: the board is well-formed and an actual player holds
    /// the turn.
    pub open spec fn wf(self) -> bool {
        &&& self.board.wf()
        &&& self.player == RRRCell::X || self.player == RRRCell::O
    }

    /// Read access to the board, for rendering callers.
    pub fn get_board(&self) -> (r: &RRRBoard)
        ensures
            r == &self.board,
    {
        &self.board
    }

    /// The mark whose turn it is. Meaningful only while the game is not
    /// over; the caller checks `over` first.
    pub fn get_turn(&self) -> (r: RRRCell)
        ensures
            r == self.player,
    {
        self.player
    }

    /// Toggles the active player between `X` and `O` and returns the new
    /// active mark; reports `NoActivePlayer` when no mark holds the turn.
    pub fn next_player(&mut self) -> (r: Result<RRRCell, RRRError>)
        ensures
            final(self).board == old(self).board,
            final(self).outcome == old(self).outcome,
            old(self).player != RRRCell::Clear ==> {
                &&& final(self).player == other_mark(old(self).player)
                &&& r == Result::<RRRCell, RRRError>::Ok(final(self).player)
            },
            old(self).player == RRRCell::Clear ==> {
                &&& final(self).player == old(self).player
                &&& r == Result::<RRRCell, RRRError>::Err(RRRError::NoActivePlayer)
            },
    {
        match self.player {
            RRRCell::X => {
                self.player = RRRCell::O;
                Ok(self.player)
            },
            RRRCell::O => {
                self.player = RRRCell::X;
                Ok(self.player)
            },
            RRRCell::Clear => Err(RRRError::NoActivePlayer),
        }
    }

    /// Plays the active mark at `coord`. On success the outcome is
    /// recomputed from the board; while the game is not over the turn passes
    /// to the other player, and once it is over the mover keeps the turn.
    /// Returns the mark that just moved. On failure the whole game state is
    /// left unchanged and the board's error is surfaced.
    pub fn take_turn(&mut self, coord: &Coord) -> (r: Result<RRRCell, RRRError>)
        requires
            old(self).wf(),
            old(self).outcome is None,
        ensures
            final(self).wf(),
            final(self).board@.size == old(self).board@.size,
            !old(self).board@.coord_in_range(*coord) ==> {
                &&& r == Result::<RRRCell, RRRError>::Err(RRRError::InvalidCellPosition(*coord))
                &&& final(self).board@ == old(self).board@
                &&& final(self).player == old(self).player
                &&& final(self).outcome == old(self).outcome
            },
            old(self).board@.coord_in_range(*coord) && old(self).board@.cell_of(*coord)
                != RRRCell::Clear ==> {
                &&& r == Result::<RRRCell, RRRError>::Err(
                    RRRError::CellAlreadySet(*coord, old(self).board@.cell_of(*coord)),
                )
                &&& final(self).board@ == old(self).board@
                &&& final(self).player == old(self).player
                &&& final(self).outcome == old(self).outcome
            },
            old(self).board@.coord_in_range(*coord) && old(self).board@.cell_of(*coord)
                == RRRCell::Clear ==> {
                &&& final(self).board@.cells == old(self).board@.cells.update(
                    coord.y * old(self).board@.size + coord.x,
                    old(self).player,
                )
                &&& outcome_matches(final(self).outcome, final(self).board@.outcome_of())
                &&& (final(self).outcome is None ==> final(self).player == other_mark(
                    old(self).player,
                ))
                &&& (final(self).outcome is Some ==> final(self).player == old(self).player)
                &&& r == Result::<RRRCell, RRRError>::Ok(old(self).player)
            },
    {
        let mover = self.player;
        match self.board.make_move(coord, mover) {
            Ok(_) => {
                self.outcome = self.board.outcome();
                if !self.over() {
                    match self.next_player() {
                        Ok(_) => {},
                        Err(e) => {
                            return Err(e);
                        },
                    }
                }
                Ok(mover)
            },
            Err(e) => Err(e),
        }
    }

    /// Whether the game has reached an outcome.
    pub fn over(&self) -> (r: bool)
        ensures
            r == (self.outcome is Some),
    {
        self.outcome.is_some()
    }

    /// A fresh game of the given board size: an empty board, `X` to move,
    /// no outcome.
    pub fn new_anysize(size: usize) -> (r: Self)
        requires
            size * size <= usize::MAX,
        ensures
            r.wf(),
            r.board@.size == size,
            r.board@.all_clear(),
            r.player == RRRCell::X,
            r.outcome is None,
    {
        RRRGame { board: RRRBoard::new_anysize(size), player: RRRCell::X, outcome: None }
    }

    /// A fresh 3-by-3 game.
    pub fn new() -> (r: Self)
        ensures
            r.wf(),
            r.board@.size == 3,
            r.board@.all_clear(),
            r.player == RRRCell::X,
            r.outcome is None,
    {
        RRRGame::new_anysize(3)
    }
}

/// Law: evaluating the outcome is idempotent. The evaluation is a pure
/// function of the board state, so two results computed from the same board
/// without an intervening move agree.
pub proof fn lemma_outcome_idempotent(v: BoardView, r1: Option<RRROutcome>, r2: Option<RRROutcome>)
    requires
        outcome_matches(r1, v.outcome_of()),
        outcome_matches(r2, v.outcome_of()),
    ensures
        r1 is Some <==> r2 is Some,
        r1 matches Option::Some(o1) ==> (r2 matches Option::Some(o2) && o1@ == o2@),
{
}

/// Law: the outcome of a board is `None` exactly as long as no row, column,
/// or diagonal is uniformly marked by one player and some cell is still
/// empty.
pub proof fn lemma_outcome_none_iff(v: BoardView)
    ensures
        v.outcome_of() is None <==> (!v.some_line_won() && !v.full()),
{
    lemma_row_scan_none(v, 0);
    lemma_col_scan_none(v, 0);
    if v.outcome_of() is None {
    } else {
        if v.first_row_win_from(0) matches Option::Some(y) {
            lemma_row_scan_some(v, 0);
        } else if v.first_col_win_from(0) matches Option::Some(x) {
            lemma_col_scan_some(v, 0);
        }
    }
}

/// A won row found by the downward scan is indeed a won row of the board.
proof fn lemma_row_scan_some(v: BoardView, y0: int)
    ensures
        v.first_row_win_from(y0) matches Option::Some(y) ==> y0 <= y < v.size && v.line_won(
            row_coords(v.size, y),
        ),
    decreases v.size - y0,
{
    if y0 < v.size {
        lemma_row_scan_some(v, y0 + 1);
    }
}

/// A won column found by the rightward scan is indeed a won column.
proof fn lemma_col_scan_some(v: BoardView, x0: int)
    ensures
        v.first_col_win_from(x0) matches Option::Some(x) ==> x0 <= x < v.size && v.line_won(
            col_coords(v.size, x),
        ),
    decreases v.size - x0,
{
    if x0 < v.size {
        lemma_col_scan_some(v, x0 + 1);
    }
}

/// On a fully empty board the outcome is still open: no line is won and,
/// when the board has any cell at all, it is not full either.
pub proof fn lemma_all_clear_outcome(v: BoardView)
    requires
        v.wf(),
        v.all_clear(),
    ensures
        v.size > 0 ==> v.outcome_of() is None,
        v.size == 0 ==> v.outcome_of() == Option::Some(OutcomeView::Draw),
{
    lemma_size_fits(v);
    assert forall|y: int| 0 <= y < v.size implies !v.line_won(row_coords(v.size, y)) by {
        let c = row_coords(v.size, y)[0];
        assert(c.x == 0 && c.y == y);
        lemma_idx_in_range(v.size as int, 0, y);
        assert(v.cells[y * v.size] == RRRCell::Clear);
    }
    assert forall|x: int| 0 <= x < v.size implies !v.line_won(col_coords(v.size, x)) by {
        let c = col_coords(v.size, x)[0];
        assert(c.x == x && c.y == 0);
        lemma_idx_in_range(v.size as int, x, 0);
        assert(v.cells[x] == RRRCell::Clear);
    }
    if v.size == 0 {
        assert(v.first_row_win_from(0) is None);
        assert(v.first_col_win_from(0) is None);
        assert(diag_coords(v.size).len() == 0);
        assert(anti_diag_coords(v.size).len() == 0);
        assert(v.size * v.size == 0) by (nonlinear_arith)
            requires
                v.size == 0,
        ;
        assert(v.cells.len() == 0);
        assert(v.full());
    } else {
        let c = diag_coords(v.size)[0];
        assert(c.x == 0 && c.y == 0);
        let a = anti_diag_coords(v.size)[0];
        assert(a.x == v.size - 1 && a.y == 0);
        lemma_idx_in_range(v.size as int, v.size - 1, 0);
        assert(v.cells[0] == RRRCell::Clear);
        assert(v.cells[v.size - 1] == RRRCell::Clear);
        assert(!v.full());
    }
    lemma_outcome_none_iff(v);
}

/// A well-formed board's side length itself fits in `usize`.
proof fn lemma_size_fits(v: BoardView)
    requires
        v.size * v.size <= usize::MAX,
    ensures
        v.size <= usize::MAX,
{
    if v.size >= 1 {
        assert(v.size <= v.size * v.size) by (nonlinear_arith)
            requires
                v.size >= 1,
        ;
    }
}

} // verus!
