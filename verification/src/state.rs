//! Read-only board snapshots for rendering and transport: a rectangular
//! cell field and the per-board and per-pair state records built from it.

use vstd::prelude::*;

use crate::shape::grid_cols;
use crate::shape::rows_of;
use crate::shape::CellType;
use crate::tetris::clone_grid;
use crate::tetris::empty_grid;

verus! {

/// A rectangular grid of cells of fixed dimensions, as carried inside a
/// snapshot: read-only for consumers, with no back-reference to any live
/// board.
#[derive(Debug, Clone, PartialEq, Eq)]
pub struct Field {
    pub(crate) cells: Vec<Vec<CellType>>,
    pub(crate) cols: usize,
    pub(crate) rows: usize,
}

impl Field {
    /// The stored cells are exactly `cols` x `rows`.
    pub open(crate) spec fn wf(self) -> bool {
        &&& self.cells@.len() == self.rows
        &&& grid_cols(rows_of(self.cells@), self.cols as int)
    }

    pub open(crate) spec fn grid(self) -> Seq<Seq<CellType>> {
        rows_of(self.cells@)
    }

    pub open(crate) spec fn spec_cols(self) -> int {
        self.cols as int
    }

    pub open(crate) spec fn spec_rows(self) -> int {
        self.rows as int
    }

    /// An all-empty field of the given dimensions.
    pub fn new(cols: usize, rows: usize) -> (f: Field)
        ensures
            f.wf(),
            f.spec_cols() == cols,
            f.spec_rows() == rows,
            forall|y: int, x: int|
                0 <= y < rows && 0 <= x < cols ==> f.grid()[y][x] == CellType::Empty,
    {
        Field { cells: empty_grid(cols, rows), cols, rows }
    }

    /// A field holding a copy of the given `cols` x `rows` cell grid.
    pub fn from_grid(cells: &Vec<Vec<CellType>>, cols: usize, rows: usize) -> (f: Field)
        requires
            cells@.len() == rows,
            grid_cols(rows_of(cells@), cols as int),
        ensures
            f.wf(),
            f.spec_cols() == cols,
            f.spec_rows() == rows,
            f.grid() == rows_of(cells@),
    {
        Field { cells: clone_grid(cells), cols, rows }
    }

    pub fn cols(&self) -> (c: usize)
        ensures
            c == self.spec_cols(),
    {
        self.cols
    }

    pub fn rows(&self) -> (r: usize)
        ensures
            r == self.spec_rows(),
    {
        self.rows
    }

    /// The cell at column `x`, row `y`.
    pub fn get_cell(&self, x: usize, y: usize) -> (c: CellType)
        requires
            self.wf(),
            x < self.spec_cols(),
            y < self.spec_rows(),
        ensures
            c == self.grid()[y as int][x as int],
    {
        proof {
            assert(self.grid()[y as int] == self.cells@[y as int]@);
        }
        self.cells[y][x]
    }
}

/// One board's snapshot for external consumption: the well with the active
/// piece burned in, the preview, a display name, and the game-over flag.
pub struct TetrisState {
    pub well: Field,
    pub preview: Field,
    pub name: String,
    pub game_over: bool,
}

/// Both boards' snapshots, the reading player's own board first.
pub struct TetrisPairState {
    pub player: TetrisState,
    pub opponent: TetrisState,
}

} // verus!
