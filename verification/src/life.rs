//! The mathematical model of the automaton.
//!
//! A board is a sequence of columns, each a sequence of cells; `g[x][y]` is the
//! cell in column `x` and row `y`, and `true` means alive. Everything the
//! executable code promises is stated over the functions of this module.

use vstd::prelude::*;

verus! {

/// A board as a value: `g[x][y]` is the state of the cell at `(x, y)`.
pub type Grid = Seq<Seq<bool>>;

/// `g` has `ncols` columns of `nrows` cells each.
pub open spec fn rectangular(g: Grid, ncols: nat, nrows: nat) -> bool {
    &&& g.len() == ncols
    &&& forall|x: int| 0 <= x < g.len() ==> (#[trigger] g[x]).len() == nrows
}

/// The position `(x, y)` names a cell of `g`.
pub open spec fn in_bounds(g: Grid, x: int, y: int) -> bool {
    0 <= x < g.len() && 0 <= y < g[x].len()
}

/// The position `(x, y)` names a cell of `g` and that cell is alive.
/// Positions beyond the edge hold no cell, so they are never alive.
pub open spec fn alive(g: Grid, x: int, y: int) -> bool {
    in_bounds(g, x, y) && g[x][y]
}

/// What the position `(x, y)` adds to a neighbour count: one if a live cell
/// is there, nothing otherwise.
pub open spec fn live(g: Grid, x: int, y: int) -> nat {
    if alive(g, x, y) {
        1
    } else {
        0
    }
}

/// The number of live cells among the eight positions that surround `(x, y)`.
/// The position itself is not counted, and positions beyond the edge add
/// nothing: the board does not wrap around.
pub open spec fn live_neighbors(g: Grid, x: int, y: int) -> nat {
    live(g, x - 1, y - 1) + live(g, x - 1, y) + live(g, x - 1, y + 1)
        + live(g, x, y - 1) + live(g, x, y + 1)
        + live(g, x + 1, y - 1) + live(g, x + 1, y) + live(g, x + 1, y + 1)
}

/// The rule of the game: whether a cell is alive in the next generation, given
/// its state now and the number of its live neighbours. A live cell stays
/// alive with two or three live neighbours; a dead cell comes alive with
/// exactly three.
pub open spec fn survives(alive: bool, neighbors: nat) -> bool {
    (alive && (neighbors == 2 || neighbors == 3)) || (!alive && neighbors == 3)
}

/// The generation that follows `g`: the rule applied to every cell at once,
/// each against the neighbours it has in `g`.
pub open spec fn next_generation(g: Grid) -> Grid {
    Seq::new(
        g.len(),
        |x: int| Seq::new(g[x].len(), |y: int| survives(g[x][y], live_neighbors(g, x, y))),
    )
}

/// The board `g` with the cell at `(x, y)` flipped. A position beyond the edge
/// names no cell, and the board is then `g` itself.
pub open spec fn toggled(g: Grid, x: int, y: int) -> Grid {
    if in_bounds(g, x, y) {
        g.update(x, g[x].update(y, !g[x][y]))
    } else {
        g
    }
}

/// The board of `ncols` by `nrows` cells in which every cell is dead.
pub open spec fn blank(ncols: nat, nrows: nat) -> Grid {
    Seq::new(ncols, |x: int| Seq::new(nrows, |y: int| false))
}

/// The board of `ncols` by `nrows` cells that a run of draws fills, column by
/// column and within a column row by row: the cell at `(x, y)` holds draw
/// number `x * nrows + y`, so every cell has a draw of its own.
pub open spec fn board_of_draws(draws: Seq<bool>, ncols: nat, nrows: nat) -> Grid {
    Seq::new(ncols, |x: int| Seq::new(nrows, |y: int| draws[x * (nrows as int) + y]))
}

/// No cell of `g` is alive.
pub open spec fn all_dead(g: Grid) -> bool {
    forall|x: int, y: int| in_bounds(g, x, y) ==> !(#[trigger] g[x][y])
}

/// The number of cells of `g`, column by column.
pub open spec fn cell_count(g: Grid) -> nat
    decreases g.len(),
{
    if g.len() == 0 {
        0
    } else {
        cell_count(g.drop_last()) + g.last().len()
    }
}

/// The board `n` generations after `g`.
pub open spec fn generations(g: Grid, n: nat) -> Grid
    decreases n,
{
    if n == 0 {
        g
    } else {
        next_generation(generations(g, (n - 1) as nat))
    }
}

} // verus!
