//! The mathematical model of the puzzle: a grid of tile numbers together with
//! the position of the one cell that holds no tile.

use vstd::prelude::*;

verus! {

/// Number of rows of the grid.
pub const ROWS: usize = 3;

/// Number of columns of the grid.
pub const COLS: usize = 3;

/// The value stored in the cell that holds no tile.
pub const STATE_CELL_EMPTY: u32 = 0;

/// The state of a puzzle as a mathematical value.
///
/// `grid[r][c]` is the number of the tile in row `r`, column `c`, or `0` where
/// no tile lies; `(empty_row, empty_col)` is the coordinate the puzzle keeps
/// for its empty cell.
#[verifier::ext_equal]
pub struct Board {
    pub grid: Seq<Seq<nat>>,
    pub empty_row: int,
    pub empty_col: int,
}

/// Whether `(r, c)` names a cell of the grid.
pub open spec fn in_bounds(r: int, c: int) -> bool {
    0 <= r < ROWS && 0 <= c < COLS
}

/// The tile that lies at `(r, c)` once the puzzle is solved: the cells count
/// up from `1` row by row, and the last cell is the empty one.
pub open spec fn solved_value(r: int, c: int) -> nat {
    if r == ROWS - 1 && c == COLS - 1 {
        0
    } else {
        (r * COLS + c + 1) as nat
    }
}

impl Board {
    /// The solved configuration.
    pub open spec fn solved() -> Board {
        Board {
            grid: Seq::new(
                ROWS as nat,
                |r: int| Seq::new(COLS as nat, |c: int| solved_value(r, c)),
            ),
            empty_row: ROWS - 1,
            empty_col: COLS - 1,
        }
    }

    /// The grid has `ROWS` rows of `COLS` cells each.
    pub open spec fn has_shape(self) -> bool {
        &&& self.grid.len() == ROWS
        &&& forall|r: int| 0 <= r < ROWS ==> (#[trigger] self.grid[r]).len() == COLS
    }

    /// The invariant of every puzzle: the grid has its fixed shape, the kept
    /// coordinate addresses a cell that holds `0`, every cell holds a number
    /// below `ROWS * COLS`, and no number lies in two cells.
    pub open spec fn wf(self) -> bool {
        &&& self.has_shape()
        &&& in_bounds(self.empty_row, self.empty_col)
        &&& self.grid[self.empty_row][self.empty_col] == 0
        &&& forall|r: int, c: int| in_bounds(r, c) ==> #[trigger] self.grid[r][c] < ROWS * COLS
        &&& forall|r1: int, c1: int, r2: int, c2: int|
            in_bounds(r1, c1) && in_bounds(r2, c2) && !(r1 == r2 && c1 == c2)
                ==> #[trigger] self.grid[r1][c1] != #[trigger] self.grid[r2][c2]
    }

    /// The cells in row-major order.
    pub open spec fn cells(self) -> Seq<nat> {
        Seq::new((ROWS * COLS) as nat, |k: int| self.grid[k / (COLS as int)][k % (COLS as int)])
    }

    /// The board after the tile at `(r, c)` has slid into the empty cell: the
    /// empty cell takes that tile's number, `(r, c)` becomes `0` and is the new
    /// empty cell; no other cell changes.
    pub open spec fn slide_from(self, r: int, c: int) -> Board {
        Board {
            grid: Seq::new(
                ROWS as nat,
                |i: int|
                    Seq::new(
                        COLS as nat,
                        |j: int|
                            if i == r && j == c {
                                0
                            } else if i == self.empty_row && j == self.empty_col {
                                self.grid[r][c]
                            } else {
                                self.grid[i][j]
                            },
                    ),
            ),
            empty_row: r,
            empty_col: c,
        }
    }

    /// Slides the tile below the empty cell up; nothing changes where the
    /// empty cell is in the last row.
    pub open spec fn move_up(self) -> Board {
        if self.empty_row + 1 < ROWS {
            self.slide_from(self.empty_row + 1, self.empty_col)
        } else {
            self
        }
    }

    /// Slides the tile above the empty cell down; nothing changes where the
    /// empty cell is in the first row.
    pub open spec fn move_down(self) -> Board {
        if self.empty_row > 0 {
            self.slide_from(self.empty_row - 1, self.empty_col)
        } else {
            self
        }
    }

    /// Slides the tile right of the empty cell to the left; nothing changes
    /// where the empty cell is in the last column.
    pub open spec fn move_left(self) -> Board {
        if self.empty_col + 1 < COLS {
            self.slide_from(self.empty_row, self.empty_col + 1)
        } else {
            self
        }
    }

    /// Slides the tile left of the empty cell to the right; nothing changes
    /// where the empty cell is in the first column.
    pub open spec fn move_right(self) -> Board {
        if self.empty_col > 0 {
            self.slide_from(self.empty_row, self.empty_col - 1)
        } else {
            self
        }
    }

    /// The move that a drawn number selects, by its remainder modulo four:
    /// up, left, right, down.
    pub open spec fn step(self, draw: u32) -> Board {
        if draw % 4 == 0 {
            self.move_up()
        } else if draw % 4 == 1 {
            self.move_left()
        } else if draw % 4 == 2 {
            self.move_right()
        } else {
            self.move_down()
        }
    }

    /// The board after the moves that `draws` selects, first to last.
    pub open spec fn run(self, draws: Seq<u32>) -> Board
        decreases draws.len(),
    {
        if draws.len() == 0 {
            self
        } else {
            self.run(draws.drop_last()).step(draws.last())
        }
    }

    /// Every cell that holds a tile holds the tile of the solved
    /// configuration.
    pub open spec fn is_complete(self) -> bool {
        forall|r: int, c: int|
            in_bounds(r, c) && #[trigger] self.grid[r][c] != 0 ==> self.grid[r][c] == r * COLS + c
                + 1
    }
}

} // verus!
