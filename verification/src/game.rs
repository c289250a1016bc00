//! The puzzle engine: the grid, the empty cell it keeps track of, the four
//! moves, the shuffle and the completion check.

use crate::board::{in_bounds, Board, COLS, ROWS, STATE_CELL_EMPTY};
use crate::laws::{lemma_complete_iff_solved, lemma_exactly_one_empty, lemma_slide_preserves_wf};
use crate::random::{next_draw, thread_generator};
use vstd::prelude::*;

verus! {

/// A sliding-tile puzzle on a grid of `ROWS` by `COLS` cells.
///
/// Every value of this type is a well-formed board: see [`Board::wf`].
pub struct SlidingPuzzle {
    state: [[u32; COLS]; ROWS],
    empty_cell: (usize, usize),
}

/// The board that a grid and a coordinate stand for.
pub closed spec fn board_of(state: [[u32; COLS]; ROWS], empty_cell: (usize, usize)) -> Board {
    Board {
        grid: Seq::new(
            ROWS as nat,
            |r: int| Seq::new(COLS as nat, |c: int| state[r][c] as nat),
        ),
        empty_row: empty_cell.0 as int,
        empty_col: empty_cell.1 as int,
    }
}

impl View for SlidingPuzzle {
    type V = Board;

    closed spec fn view(&self) -> Board {
        board_of(self.state, self.empty_cell)
    }
}

/// Moves the tile at `source` into the empty cell, which makes `source` the
/// empty cell.
fn slide(state: &mut [[u32; COLS]; ROWS], empty_cell: &mut (usize, usize), source: (usize, usize))
    requires
        in_bounds(old(empty_cell).0 as int, old(empty_cell).1 as int),
        in_bounds(source.0 as int, source.1 as int),
    ensures
        board_of(*final(state), *final(empty_cell)) == board_of(
            *old(state),
            *old(empty_cell),
        ).slide_from(source.0 as int, source.1 as int),
    no_unwind
{
    state[empty_cell.0][empty_cell.1] = state[source.0][source.1];
    state[source.0][source.1] = STATE_CELL_EMPTY;
    *empty_cell = source;
    proof {
        assert(board_of(*state, *empty_cell) =~~= board_of(*old(state), *old(empty_cell)).slide_from(
            source.0 as int,
            source.1 as int,
        ));
    }
}

impl SlidingPuzzle {
    /// The type's invariant: the board that a puzzle stands for is
    /// well-formed.
    #[verifier::type_invariant]
    pub open spec fn inv(&self) -> bool {
        self@.wf()
    }

    /// The puzzle in its solved configuration.
    pub fn solved() -> (puzzle: SlidingPuzzle)
        ensures
            puzzle@ == Board::solved(),
            puzzle@.wf(),
    {
        let mut state = [[0u32; COLS]; ROWS];
        for i in 0..ROWS
            invariant
                forall|r: int, c: int|
                    0 <= r < i && 0 <= c < COLS ==> #[trigger] state[r][c] == r * COLS + c + 1,
        {
            for j in 0..COLS
                invariant
                    i < ROWS,
                    forall|r: int, c: int|
                        0 <= r < i && 0 <= c < COLS ==> #[trigger] state[r][c] == r * COLS + c + 1,
                    forall|c: int| 0 <= c < j ==> #[trigger] state[i as int][c] == i * COLS + c + 1,
            {
                state[i][j] = (i * COLS + j + 1) as u32;
            }
        }
        state[ROWS - 1][COLS - 1] = STATE_CELL_EMPTY;
        let puzzle = SlidingPuzzle { state, empty_cell: (ROWS - 1, COLS - 1) };
        proof {
            assert(puzzle@ =~~= Board::solved());
        }
        puzzle
    }

    /// A freshly shuffled puzzle: the solved configuration after
    /// `(ROWS * COLS)^2` moves, each chosen by a random draw.
    pub fn new() -> (puzzle: SlidingPuzzle)
        ensures
            puzzle@.wf(),
            exists|draws: Seq<u32>|
                draws.len() == ROWS * COLS * ROWS * COLS && puzzle@ == Board::solved().run(draws),
    {
        let mut game = SlidingPuzzle::solved();
        let shuffle_count: usize = ROWS * COLS * ROWS * COLS;
        game.shuffle(shuffle_count);
        game
    }

    /// The dimensions of the grid: rows, then columns.
    pub fn get_size(&self) -> (size: (usize, usize))
        ensures
            size == (ROWS, COLS),
    {
        (ROWS, COLS)
    }

    /// The coordinate of the empty cell: row, then column.
    pub fn empty_cell(&self) -> (at: (usize, usize))
        ensures
            at.0 == self@.empty_row,
            at.1 == self@.empty_col,
            in_bounds(at.0 as int, at.1 as int),
    {
        proof {
            use_type_invariant(self);
        }
        self.empty_cell
    }

    /// The number in the cell at `(r, c)`, and whether that cell is the empty
    /// one.
    pub fn get_state(&self, r: usize, c: usize) -> (cell: (u32, bool))
        requires
            r < ROWS,
            c < COLS,
        ensures
            cell.0 == self@.grid[r as int][c as int],
            cell.1 <==> cell.0 == 0,
            cell.1 <==> r == self@.empty_row && c == self@.empty_col,
    {
        proof {
            use_type_invariant(self);
            lemma_exactly_one_empty(self@);
        }
        (self.state[r][c], (self.state[r][c] == STATE_CELL_EMPTY))
    }

    /// Applies `count` moves, each selected by a number drawn from the
    /// thread's random generator.
    fn shuffle(&mut self, count: usize)
        ensures
            final(self)@.wf(),
            exists|draws: Seq<u32>| draws.len() == count && final(self)@ == old(self)@.run(draws),
    {
        proof {
            use_type_invariant(&*self);
        }
        let mut rng = thread_generator();
        let ghost mut draws: Seq<u32> = Seq::empty();
        for i in 0..count
            invariant
                draws.len() == i,
                self@ == old(self)@.run(draws),
                self@.wf(),
        {
            let num: u32 = next_draw(&mut rng);
            self.apply_draw(num);
            proof {
                assert(draws.push(num).drop_last() =~= draws);
                draws = draws.push(num);
            }
        }
    }

    /// Applies the move that the drawn number selects by its remainder modulo
    /// four: `0` up, `1` left, `2` right, `3` down.
    pub fn apply_draw(&mut self, draw: u32)
        ensures
            final(self)@ == old(self)@.step(draw),
            final(self)@.wf(),
    {
        proof {
            use_type_invariant(&*self);
        }
        match draw % 4 {
            0 => self.move_up(),
            1 => self.move_left(),
            2 => self.move_right(),
            3 => self.move_down(),
            _ => (),
        }
    }

    /// Slides the tile below the empty cell up into it. Does nothing where the
    /// empty cell is in the last row.
    pub fn move_up(&mut self)
        ensures
            final(self)@ == old(self)@.move_up(),
            final(self)@.wf(),
            old(self)@.empty_row == ROWS - 1 ==> final(self)@ == old(self)@,
    {
        proof {
            use_type_invariant(&*self);
        }
        let (empty_r, empty_c) = self.empty_cell;
        if empty_r + 1 < ROWS {
            proof {
                lemma_slide_preserves_wf(self@, empty_r + 1, empty_c as int);
            }
            slide(&mut self.state, &mut self.empty_cell, (empty_r + 1, empty_c));
        }
    }

    /// Slides the tile right of the empty cell left into it. Does nothing
    /// where the empty cell is in the last column.
    pub fn move_left(&mut self)
        ensures
            final(self)@ == old(self)@.move_left(),
            final(self)@.wf(),
            old(self)@.empty_col == COLS - 1 ==> final(self)@ == old(self)@,
    {
        proof {
            use_type_invariant(&*self);
        }
        let (empty_r, empty_c) = self.empty_cell;
        if empty_c + 1 < COLS {
            proof {
                lemma_slide_preserves_wf(self@, empty_r as int, empty_c + 1);
            }
            slide(&mut self.state, &mut self.empty_cell, (empty_r, empty_c + 1));
        }
    }

    /// Slides the tile left of the empty cell right into it. Does nothing
    /// where the empty cell is in the first column.
    pub fn move_right(&mut self)
        ensures
            final(self)@ == old(self)@.move_right(),
            final(self)@.wf(),
            old(self)@.empty_col == 0 ==> final(self)@ == old(self)@,
    {
        proof {
            use_type_invariant(&*self);
        }
        let (empty_r, empty_c) = self.empty_cell;
        if empty_c > 0 {
            proof {
                lemma_slide_preserves_wf(self@, empty_r as int, empty_c - 1);
            }
            slide(&mut self.state, &mut self.empty_cell, (empty_r, empty_c - 1));
        }
    }

    /// Slides the tile above the empty cell down into it. Does nothing where
    /// the empty cell is in the first row.
    pub fn move_down(&mut self)
        ensures
            final(self)@ == old(self)@.move_down(),
            final(self)@.wf(),
            old(self)@.empty_row == 0 ==> final(self)@ == old(self)@,
    {
        proof {
            use_type_invariant(&*self);
        }
        let (empty_r, empty_c) = self.empty_cell;
        if empty_r > 0 {
            proof {
                lemma_slide_preserves_wf(self@, empty_r - 1, empty_c as int);
            }
            slide(&mut self.state, &mut self.empty_cell, (empty_r - 1, empty_c));
        }
    }

    /// Whether the puzzle is solved.
    pub fn is_complete(&self) -> (complete: bool)
        ensures
            complete <==> self@.is_complete(),
            complete <==> self@ == Board::solved(),
    {
        proof {
            use_type_invariant(self);
            lemma_complete_iff_solved(self@);
        }
        for i in 0..ROWS
            invariant
                forall|r: int, c: int|
                    0 <= r < i && 0 <= c < COLS && #[trigger] self@.grid[r][c] != 0
                        ==> self@.grid[r][c] == r * COLS + c + 1,
        {
            for j in 0..COLS
                invariant
                    i < ROWS,
                    forall|r: int, c: int|
                        0 <= r < i && 0 <= c < COLS && #[trigger] self@.grid[r][c] != 0
                            ==> self@.grid[r][c] == r * COLS + c + 1,
                    forall|c: int|
                        0 <= c < j && #[trigger] self@.grid[i as int][c] != 0 ==> self@.grid[i as int][c]
                            == i * COLS + c + 1,
            {
                if self.state[i][j] != STATE_CELL_EMPTY && self.state[i][j] != (i * COLS + j
                    + 1) as u32 {
                    proof {
                        assert(in_bounds(i as int, j as int));
                        assert(self@.grid[i as int][j as int] != 0);
                    }
                    return false;
                }
            }
        }
        true
    }
}

} // verus!
