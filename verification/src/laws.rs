//! What holds of every well-formed board: the laws that relate the moves, the
//! empty cell, the tiles and the solved configuration.

use crate::board::{in_bounds, Board, COLS, ROWS};
use vstd::prelude::*;

verus! {

/// The solved configuration is well-formed.
pub proof fn lemma_solved_wf()
    ensures
        Board::solved().wf(),
{
}

/// Sliding any tile but the empty cell itself into the empty cell keeps the
/// board well-formed.
pub proof fn lemma_slide_preserves_wf(b: Board, r: int, c: int)
    requires
        b.wf(),
        in_bounds(r, c),
        !(r == b.empty_row && c == b.empty_col),
    ensures
        b.slide_from(r, c).wf(),
{
}

/// Every move keeps a well-formed board well-formed.
pub proof fn lemma_moves_preserve_wf(b: Board)
    requires
        b.wf(),
    ensures
        b.move_up().wf(),
        b.move_down().wf(),
        b.move_left().wf(),
        b.move_right().wf(),
{
    if b.empty_row + 1 < ROWS {
        lemma_slide_preserves_wf(b, b.empty_row + 1, b.empty_col);
    }
    if b.empty_row > 0 {
        lemma_slide_preserves_wf(b, b.empty_row - 1, b.empty_col);
    }
    if b.empty_col + 1 < COLS {
        lemma_slide_preserves_wf(b, b.empty_row, b.empty_col + 1);
    }
    if b.empty_col > 0 {
        lemma_slide_preserves_wf(b, b.empty_row, b.empty_col - 1);
    }
}

/// Whatever numbers are drawn, the moves they select keep a well-formed board
/// well-formed.
pub proof fn lemma_run_preserves_wf(b: Board, draws: Seq<u32>)
    requires
        b.wf(),
    ensures
        b.run(draws).wf(),
    decreases draws.len(),
{
    if draws.len() > 0 {
        lemma_run_preserves_wf(b, draws.drop_last());
        lemma_moves_preserve_wf(b.run(draws.drop_last()));
    }
}

/// Exactly one cell of a well-formed board holds `0`: the one at the kept
/// coordinate.
pub proof fn lemma_exactly_one_empty(b: Board)
    requires
        b.wf(),
    ensures
        forall|r: int, c: int|
            in_bounds(r, c) ==> (#[trigger] b.grid[r][c] == 0 <==> r == b.empty_row && c
                == b.empty_col),
{
}

/// The cells of a well-formed board hold the numbers `0` to
/// `ROWS * COLS - 1`, each of them exactly once.
pub proof fn lemma_cells_are_permutation(b: Board)
    requires
        b.wf(),
    ensures
        b.cells().len() == ROWS * COLS,
        forall|v: nat|
            #[trigger] b.cells().to_multiset().count(v) == (if v < ROWS * COLS {
                1nat
            } else {
                0nat
            }),
{
    let s = b.cells();
    let n = (ROWS * COLS) as nat;
    assert forall|i: int, j: int| 0 <= i < s.len() && 0 <= j < s.len() && i != j implies s[i]
        != s[j] by {
        let (ri, ci) = (i / (COLS as int), i % (COLS as int));
        let (rj, cj) = (j / (COLS as int), j % (COLS as int));
        assert(b.grid[ri][ci] != b.grid[rj][cj]);
    }
    let below = Set::<nat>::range(0, n);
    vstd::set_lib::range_set_properties::<nat>(0, n);
    vstd::seq_lib::seq_to_set_is_finite(s);
    s.unique_seq_to_set();
    assert forall|v: nat| s.to_set().contains(v) implies below.contains(v) by {
        let i = choose|i: int| 0 <= i < s.len() && s[i] == v;
        assert(in_bounds(i / (COLS as int), i % (COLS as int)));
    }
    vstd::set_lib::lemma_subset_equality(s.to_set(), below);
    s.lemma_multiset_has_no_duplicates();
    assert forall|v: nat|
        #[trigger] s.to_multiset().count(v) == (if v < ROWS * COLS {
            1nat
        } else {
            0nat
        }) by {
        vstd::seq_lib::to_multiset_contains(s, v);
        if v < n {
            assert(s.to_set().contains(v));
        } else {
            assert(!s.to_set().contains(v));
        }
    }
}

/// A move only rearranges the tiles: the cells hold after it what they held
/// before it, each number as often.
pub proof fn lemma_moves_keep_tiles(b: Board)
    requires
        b.wf(),
    ensures
        b.move_up().cells().to_multiset() == b.cells().to_multiset(),
        b.move_down().cells().to_multiset() == b.cells().to_multiset(),
        b.move_left().cells().to_multiset() == b.cells().to_multiset(),
        b.move_right().cells().to_multiset() == b.cells().to_multiset(),
{
    lemma_moves_preserve_wf(b);
    lemma_cells_are_permutation(b);
    lemma_cells_are_permutation(b.move_up());
    lemma_cells_are_permutation(b.move_down());
    lemma_cells_are_permutation(b.move_left());
    lemma_cells_are_permutation(b.move_right());
    assert(b.move_up().cells().to_multiset() =~= b.cells().to_multiset());
    assert(b.move_down().cells().to_multiset() =~= b.cells().to_multiset());
    assert(b.move_left().cells().to_multiset() =~= b.cells().to_multiset());
    assert(b.move_right().cells().to_multiset() =~= b.cells().to_multiset());
}

/// A move that would push the empty cell off the grid changes nothing.
pub proof fn lemma_illegal_move_changes_nothing(b: Board)
    ensures
        b.empty_row == ROWS - 1 ==> b.move_up() == b,
        b.empty_row == 0 ==> b.move_down() == b,
        b.empty_col == COLS - 1 ==> b.move_left() == b,
        b.empty_col == 0 ==> b.move_right() == b,
{
}

/// Where the empty cell is not in the last row, moving up and then down gives
/// back the board as it was.
pub proof fn lemma_up_then_down(b: Board)
    requires
        b.wf(),
        b.empty_row + 1 < ROWS,
    ensures
        b.move_up().move_down() == b,
{
    assert(b.move_up().move_down() =~~= b);
}

/// Where the empty cell is not in the first row, moving down and then up gives
/// back the board as it was.
pub proof fn lemma_down_then_up(b: Board)
    requires
        b.wf(),
        b.empty_row > 0,
    ensures
        b.move_down().move_up() == b,
{
    assert(b.move_down().move_up() =~~= b);
}

/// Where the empty cell is not in the last column, moving left and then right
/// gives back the board as it was.
pub proof fn lemma_left_then_right(b: Board)
    requires
        b.wf(),
        b.empty_col + 1 < COLS,
    ensures
        b.move_left().move_right() == b,
{
    assert(b.move_left().move_right() =~~= b);
}

/// Where the empty cell is not in the first column, moving right and then left
/// gives back the board as it was.
pub proof fn lemma_right_then_left(b: Board)
    requires
        b.wf(),
        b.empty_col > 0,
    ensures
        b.move_right().move_left() == b,
{
    assert(b.move_right().move_left() =~~= b);
}

/// A well-formed board is complete exactly when it is the solved
/// configuration.
pub proof fn lemma_complete_iff_solved(b: Board)
    requires
        b.wf(),
    ensures
        b.is_complete() <==> b == Board::solved(),
{
    if b.is_complete() {
        // The last cell cannot hold a tile: its solved number would be
        // ROWS * COLS, which no cell holds.
        let last = b.grid[ROWS - 1][COLS - 1];
        assert(last == 0);
        lemma_exactly_one_empty(b);
        assert(b =~~= Board::solved());
    }
}

} // verus!
