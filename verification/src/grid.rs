//! The grid model: board dimensions, per-cell static attributes, and the
//! component-wise clamp that keeps candidate coordinates on the board.

use vstd::prelude::*;

use crate::GameError;

verus! {

/// Height given to every cell of a fresh board, in thousandths of a
/// world unit (boards are flat: every cell half a unit high).
pub const DEFAULT_CELL_HEIGHT_MILLI: u64 = 500;

/// A pair of grid indices naming one cell of the board.
#[derive(Clone, Copy, Debug, PartialEq, Eq, Structural)]
pub struct GridCoordinate {
    pub row: usize,
    pub col: usize,
}

/// Static per-position attributes, immutable after board construction.
#[derive(Clone, Copy, Debug, PartialEq, Eq, Structural)]
pub struct Cell {
    /// Rendering offset of this cell, in thousandths of a world unit.
    pub height_milli: u64,
}

/// An ordered rows x cols container of cells, dimensions fixed for the
/// lifetime of a play session.
pub struct Board {
    rows: usize,
    cols: usize,
    cells: Vec<Vec<Cell>>,
}

/// Projects one index onto the valid range `[0, len)`: indices past the
/// end land on the last cell, everything else is left alone. (Candidate
/// indices are never negative: moves that would go below zero saturate
/// before clamping.)
pub open spec fn clamp_index(i: int, len: int) -> int {
    if i >= len {
        len - 1
    } else {
        i
    }
}

/// Law: clamping is stable — projecting an already clamped index again
/// changes nothing.
pub proof fn lemma_clamp_idempotent(i: int, len: int)
    requires
        1 <= len,
    ensures
        clamp_index(clamp_index(i, len), len) == clamp_index(i, len),
{
}

impl Board {
    /// The shape a board keeps for its whole lifetime: positive
    /// dimensions and a full rows x cols grid of cells.
    pub closed spec fn wf(self) -> bool {
        &&& 1 <= self.rows
        &&& 1 <= self.cols
        &&& self.cells@.len() == self.rows
        &&& forall|r: int|
            0 <= r < self.rows ==> (#[trigger] self.cells@[r])@.len() == self.cols
    }

    /// A well-formed board has at least one row and one column.
    pub proof fn lemma_dims(&self)
        requires
            self.wf(),
        ensures
            1 <= self.spec_rows(),
            1 <= self.spec_cols(),
    {
    }

    pub closed spec fn spec_rows(self) -> usize {
        self.rows
    }

    pub closed spec fn spec_cols(self) -> usize {
        self.cols
    }

    pub closed spec fn height_at(self, row: int, col: int) -> u64 {
        self.cells@[row]@[col].height_milli
    }

    /// True when the coordinate names a cell of this board.
    pub open spec fn contains(self, coord: GridCoordinate) -> bool {
        coord.row < self.spec_rows() && coord.col < self.spec_cols()
    }

    pub fn rows(&self) -> (r: usize)
        ensures
            r == self.spec_rows(),
    {
        self.rows
    }

    pub fn cols(&self) -> (r: usize)
        ensures
            r == self.spec_cols(),
    {
        self.cols
    }

    /// Projects a candidate coordinate onto the valid board range,
    /// component-wise, with no wraparound: the result always names a
    /// cell of the board.
    pub fn clamp(&self, row: usize, col: usize) -> (r: GridCoordinate)
        requires
            self.wf(),
        ensures
            r.row == clamp_index(row as int, self.spec_rows() as int),
            r.col == clamp_index(col as int, self.spec_cols() as int),
            self.contains(r),
    {
        let r = if row >= self.rows {
            self.rows - 1
        } else {
            row
        };
        let c = if col >= self.cols {
            self.cols - 1
        } else {
            col
        };
        GridCoordinate { row: r, col: c }
    }

    /// Reads one cell's height. Unlike `clamp`, this accessor does not
    /// repair a bad coordinate: it reports it.
    pub fn cell_height(&self, coord: GridCoordinate) -> (r: Result<u64, GameError>)
        requires
            self.wf(),
        ensures
            self.contains(coord) ==> r == Ok::<u64, GameError>(
                self.height_at(coord.row as int, coord.col as int),
            ),
            !self.contains(coord) ==> r == Err::<u64, GameError>(
                GameError::OutOfBoundsCoordinate,
            ),
    {
        if coord.row < self.rows && coord.col < self.cols {
            Ok(self.cells[coord.row][coord.col].height_milli)
        } else {
            Err(GameError::OutOfBoundsCoordinate)
        }
    }
}

/// Builds the board for a play session: a rows x cols grid with every
/// cell at the default height. Fails exactly when either dimension is
/// zero.
pub fn create_board(rows: usize, cols: usize) -> (r: Result<Board, GameError>)
    ensures
        (rows == 0 || cols == 0) ==> r == Err::<Board, GameError>(GameError::InvalidDimensions),
        (rows >= 1 && cols >= 1) ==> {
            &&& r matches Ok(b)
            &&& b.wf()
            &&& b.spec_rows() == rows
            &&& b.spec_cols() == cols
            &&& forall|i: int, j: int|
                0 <= i < rows && 0 <= j < cols ==> #[trigger] b.height_at(i, j)
                    == DEFAULT_CELL_HEIGHT_MILLI
        },
{
    if rows == 0 || cols == 0 {
        return Err(GameError::InvalidDimensions);
    }
    let mut cells: Vec<Vec<Cell>> = Vec::new();
    let mut i: usize = 0;
    while i < rows
        invariant
            i <= rows,
            cells@.len() == i,
            forall|r: int| 0 <= r < i ==> (#[trigger] cells@[r])@.len() == cols,
            forall|r: int, c: int|
                0 <= r < i && 0 <= c < cols ==> (#[trigger] cells@[r]@[c]).height_milli
                    == DEFAULT_CELL_HEIGHT_MILLI,
        decreases rows - i,
    {
        let mut row: Vec<Cell> = Vec::new();
        let mut j: usize = 0;
        while j < cols
            invariant
                j <= cols,
                row@.len() == j,
                forall|c: int|
                    0 <= c < j ==> (#[trigger] row@[c]).height_milli
                        == DEFAULT_CELL_HEIGHT_MILLI,
            decreases cols - j,
        {
            row.push(Cell { height_milli: DEFAULT_CELL_HEIGHT_MILLI });
            j = j + 1;
        }
        cells.push(row);
        i = i + 1;
    }
    Ok(Board { rows, cols, cells })
}

} // verus!
