//! What holds of the model for every board: the laws that the operations of
//! the game obey, each proved from the definitions.

use vstd::prelude::*;
use crate::life::{
    Grid, rectangular, in_bounds, live, live_neighbors, next_generation, toggled, blank, all_dead,
    cell_count, generations,
};

verus! {

/// A board of `ncols` columns and `nrows` rows has exactly `ncols * nrows`
/// cells.
pub proof fn lemma_cell_count(g: Grid, ncols: nat, nrows: nat)
    requires
        rectangular(g, ncols, nrows),
    ensures
        cell_count(g) == ncols * nrows,
    decreases ncols,
{
    if ncols > 0 {
        lemma_cell_count(g.drop_last(), (ncols - 1) as nat, nrows);
        assert((ncols - 1) * nrows + nrows == ncols * nrows) by (nonlinear_arith);
    }
}

/// The blank board has the dimensions asked for, that many cells, and none
/// of them alive.
pub proof fn lemma_blank(ncols: nat, nrows: nat)
    ensures
        rectangular(blank(ncols, nrows), ncols, nrows),
        cell_count(blank(ncols, nrows)) == ncols * nrows,
        all_dead(blank(ncols, nrows)),
{
    lemma_cell_count(blank(ncols, nrows), ncols, nrows);
}

/// Flipping the same position twice gives the board back, wherever the
/// position lies.
pub proof fn lemma_toggle_twice(g: Grid, x: int, y: int)
    ensures
        toggled(toggled(g, x, y), x, y) == g,
{
    if in_bounds(g, x, y) {
        let once = toggled(g, x, y);
        assert(once[x] =~= g[x].update(y, !g[x][y]));
        assert(once[x].update(y, !once[x][y]) =~= g[x]);
        assert(toggled(once, x, y) =~= g);
    }
}

/// Flipping a position beyond the edge changes nothing.
pub proof fn lemma_toggle_outside(g: Grid, x: int, y: int)
    requires
        !in_bounds(g, x, y),
    ensures
        toggled(g, x, y) == g,
{
}

/// Flipping a cell changes that cell and no other, and keeps the dimensions.
pub proof fn lemma_toggle_one_cell(g: Grid, x: int, y: int, ncols: nat, nrows: nat)
    requires
        rectangular(g, ncols, nrows),
        in_bounds(g, x, y),
    ensures
        rectangular(toggled(g, x, y), ncols, nrows),
        toggled(g, x, y)[x][y] == !g[x][y],
        forall|i: int, j: int|
            in_bounds(g, i, j) && (i != x || j != y) ==> #[trigger] toggled(g, x, y)[i][j]
                == g[i][j],
{
}

/// The next generation has the dimensions of the one before.
pub proof fn lemma_next_generation_shape(g: Grid, ncols: nat, nrows: nat)
    requires
        rectangular(g, ncols, nrows),
    ensures
        rectangular(next_generation(g), ncols, nrows),
{
}

/// A position beyond the edge adds nothing to any neighbour count.
pub proof fn lemma_outside_adds_nothing(g: Grid, x: int, y: int)
    requires
        !in_bounds(g, x, y),
    ensures
        live(g, x, y) == 0,
{
}

/// No position has more than eight live neighbours.
pub proof fn lemma_neighbors_at_most_eight(g: Grid, x: int, y: int)
    ensures
        live_neighbors(g, x, y) <= 8,
{
}

/// A cell in a corner of the board has three neighbours on the board, and its
/// neighbour count is the number of live cells among those three: nothing
/// beyond the edge is counted.
pub proof fn lemma_corner_neighbors(g: Grid, ncols: nat, nrows: nat)
    requires
        rectangular(g, ncols, nrows),
        ncols >= 1,
        nrows >= 1,
    ensures
        live_neighbors(g, 0, 0) == live(g, 1, 0) + live(g, 0, 1) + live(g, 1, 1),
        live_neighbors(g, 0, nrows - 1) == live(g, 1, nrows - 1) + live(g, 0, nrows - 2) + live(
            g,
            1,
            nrows - 2,
        ),
        live_neighbors(g, ncols - 1, 0) == live(g, ncols - 2, 0) + live(g, ncols - 1, 1) + live(
            g,
            ncols - 2,
            1,
        ),
        live_neighbors(g, ncols - 1, nrows - 1) == live(g, ncols - 2, nrows - 1) + live(
            g,
            ncols - 1,
            nrows - 2,
        ) + live(g, ncols - 2, nrows - 2),
        live_neighbors(g, 0, 0) <= 3,
        live_neighbors(g, 0, nrows - 1) <= 3,
        live_neighbors(g, ncols - 1, 0) <= 3,
        live_neighbors(g, ncols - 1, nrows - 1) <= 3,
{
}

/// A cell on an edge of the board has at most five live neighbours: the three
/// positions beyond the edge are not counted.
pub proof fn lemma_edge_neighbors(g: Grid, ncols: nat, nrows: nat, x: int, y: int)
    requires
        rectangular(g, ncols, nrows),
        in_bounds(g, x, y),
        x == 0 || y == 0 || x == ncols - 1 || y == nrows - 1,
    ensures
        live_neighbors(g, x, y) <= 5,
{
}

/// On a board without live cells no cell has a live neighbour.
pub proof fn lemma_dead_board_has_no_neighbors(g: Grid, x: int, y: int)
    requires
        all_dead(g),
    ensures
        live_neighbors(g, x, y) == 0,
{
}

/// A board without live cells is its own next generation.
pub proof fn lemma_dead_board_is_stable(g: Grid)
    requires
        all_dead(g),
    ensures
        next_generation(g) == g,
{
    let next = next_generation(g);
    assert forall|x: int| 0 <= x < g.len() implies #[trigger] next[x] == g[x] by {
        assert forall|y: int| 0 <= y < g[x].len() implies #[trigger] next[x][y] == g[x][y] by {
            lemma_dead_board_has_no_neighbors(g, x, y);
            assert(in_bounds(g, x, y));
        }
        assert(next[x] =~= g[x]);
    }
    assert(next =~= g);
}

/// A board without live cells stays as it is through any number of
/// generations.
pub proof fn lemma_dead_board_stays_dead(g: Grid, n: nat)
    requires
        all_dead(g),
    ensures
        generations(g, n) == g,
        all_dead(generations(g, n)),
    decreases n,
{
    if n > 0 {
        lemma_dead_board_stays_dead(g, (n - 1) as nat);
        lemma_dead_board_is_stable(g);
    }
}

} // verus!
