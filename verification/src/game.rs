//! The board of the automaton and the operations on it.

use vstd::prelude::*;
use crate::laws::lemma_blank;
use crate::life::{
    Grid, rectangular, in_bounds, blank, board_of_draws, all_dead, cell_count, live,
    live_neighbors, survives, next_generation, toggled,
};

verus! {

/// The state of one game: a board of fixed dimensions.
pub struct Game {
    cells: Vec<Vec<bool>>,
    ncols: usize,
    nrows: usize,
}

impl View for Game {
    type V = Grid;

    /// The board as a value of the model.
    closed spec fn view(&self) -> Grid {
        self.cells.deep_view()
    }
}

impl Game {
    /// The number of columns the board was made with.
    pub closed spec fn cols(&self) -> nat {
        self.ncols as nat
    }

    /// The number of rows the board was made with.
    pub closed spec fn rows(&self) -> nat {
        self.nrows as nat
    }

    /// The board has the dimensions it was made with.
    pub open spec fn wf(&self) -> bool {
        rectangular(self@, self.cols(), self.rows())
    }

    /// Holds of every game that executable code can get hold of.
    #[verifier::type_invariant]
    pub open spec fn inv(&self) -> bool {
        self.wf()
    }

    /// Creates a game of `ncols` columns and `nrows` rows in which every cell
    /// is dead.
    pub fn new(ncols: usize, nrows: usize) -> (game: Game)
        ensures
            game.wf(),
            game.cols() == ncols,
            game.rows() == nrows,
            game@ == blank(ncols as nat, nrows as nat),
            cell_count(game@) == ncols * nrows,
            all_dead(game@),
    {
        let mut cells: Vec<Vec<bool>> = Vec::new();
        for x in 0..ncols
            invariant
                cells@.len() == x,
                forall|i: int| 0 <= i < x ==> (#[trigger] cells@[i])@ == Seq::new(nrows as nat, |j: int| false),
        {
            let mut column: Vec<bool> = Vec::new();
            for y in 0..nrows
                invariant
                    column@ == Seq::new(y as nat, |j: int| false),
            {
                column.push(false);
            }
            cells.push(column);
        }
        proof {
            lemma_columns(cells);
            assert(cells.deep_view() =~= blank(ncols as nat, nrows as nat));
            lemma_blank(ncols as nat, nrows as nat);
        }
        Game { cells, ncols, nrows }
    }

    /// Creates a game of `ncols` columns and `nrows` rows in which every cell
    /// is drawn at random, each on its own. Which cells are alive is not
    /// determined; the dimensions are.
    pub fn new_random(ncols: usize, nrows: usize) -> (game: Game)
        ensures
            game.wf(),
            game.cols() == ncols,
            game.rows() == nrows,
    {
        let draws = random_draws(ncols, nrows);
        let cells = cells_from_draws(ncols, nrows, &draws);
        Game { cells, ncols, nrows }
    }

    /// The board as it stands, for reading: column `x` of the result is column
    /// `x` of the board. Nothing can be changed through it.
    pub fn snapshot(&self) -> (cells: &Vec<Vec<bool>>)
        ensures
            cells.deep_view() == self@,
    {
        &self.cells
    }

    /// Puts `cells` in place of the board, where `cells[x][y]` is the state of
    /// the cell at `(x, y)`. The new cells are accepted only if they have the
    /// dimensions of the game: as many columns, and in each column as many
    /// rows. Otherwise the board stays as it is. Returns whether the cells
    /// were accepted.
    pub fn set_cells(&mut self, cells: Vec<Vec<bool>>) -> (accepted: bool)
        ensures
            final(self).wf(),
            final(self).cols() == old(self).cols(),
            final(self).rows() == old(self).rows(),
            accepted == rectangular(cells.deep_view(), old(self).cols(), old(self).rows()),
            accepted ==> final(self)@ == cells.deep_view(),
            !accepted ==> final(self)@ == old(self)@,
    {
        proof {
            use_type_invariant(&*self);
            lemma_columns(cells);
        }
        if cells.len() != self.ncols {
            return false;
        }
        for x in 0..cells.len()
            invariant
                cells@.len() == self.ncols,
                cells.deep_view().len() == cells@.len(),
                forall|i: int|
                    0 <= i < cells@.len() ==> #[trigger] cells.deep_view()[i] == cells@[i]@,
                forall|i: int| 0 <= i < x ==> (#[trigger] cells.deep_view()[i]).len() == self.nrows,
                *self == *old(self),
                self.wf(),
        {
            if cells[x].len() != self.nrows {
                assert(cells.deep_view()[x as int].len() != self.nrows);
                return false;
            }
        }
        self.cells = cells;
        true
    }

    /// Replaces every cell by a fresh random draw. The dimensions stay; which
    /// cells are alive afterwards is not determined.
    pub fn randomize(&mut self)
        ensures
            final(self).wf(),
            final(self).cols() == old(self).cols(),
            final(self).rows() == old(self).rows(),
    {
        let draws = random_draws(self.ncols, self.nrows);
        self.cells = cells_from_draws(self.ncols, self.nrows, &draws);
    }

    /// Flips the cell at `(x, y)` from dead to alive or back. A position beyond
    /// the edge is ignored: the board stays as it is.
    pub fn toggle_cell_state(&mut self, x: usize, y: usize)
        ensures
            final(self).wf(),
            final(self).cols() == old(self).cols(),
            final(self).rows() == old(self).rows(),
            final(self)@ == toggled(old(self)@, x as int, y as int),
    {
        proof {
            use_type_invariant(&*self);
            lemma_columns(self.cells);
        }
        if x < self.ncols && y < self.nrows {
            flip(&mut self.cells, x, y);
        }
    }

    /// Replaces the board by its next generation. Every cell is judged
    /// against the board as it was before the call; the new board takes its
    /// place only when all of it has been computed.
    pub fn update(&mut self)
        ensures
            final(self).wf(),
            final(self).cols() == old(self).cols(),
            final(self).rows() == old(self).rows(),
            final(self)@ == next_generation(old(self)@),
    {
        proof {
            use_type_invariant(&*self);
            lemma_columns(self.cells);
        }
        let mut next_cells: Vec<Vec<bool>> = Vec::new();
        for x in 0..self.ncols
            invariant
                self.wf(),
                next_cells@.len() == x,
                forall|i: int|
                    0 <= i < x ==> (#[trigger] next_cells@[i])@ == next_generation(self@)[i],
        {
            proof {
                lemma_columns(self.cells);
                assert(self@[x as int] == self.cells@[x as int]@);
            }
            let mut column: Vec<bool> = Vec::new();
            for y in 0..self.nrows
                invariant
                    self.wf(),
                    0 <= x < self.ncols,
                    self@[x as int] == self.cells@[x as int]@,
                    self.cells@.len() == self.ncols,
                    column@ == Seq::new(
                        y as nat,
                        |j: int|
                            survives(
                                self@[x as int][j],
                                live_neighbors(self@, x as int, j),
                            ),
                    ),
            {
                let cell = self.cells[x][y];
                let neighbors = self.live_around(x as i128, y as i128);
                let next = if cell {
                    neighbors == 2 || neighbors == 3
                } else {
                    neighbors == 3
                };
                column.push(next);
            }
            next_cells.push(column);
        }
        proof {
            lemma_columns(next_cells);
            assert(next_cells.deep_view() =~= next_generation(self@));
        }
        self.cells = next_cells;
    }

    /// Counts the live cells among the eight neighbours of `(x, y)`. The
    /// position need not lie on the board; neighbours beyond the edge count
    /// as dead.
    pub fn count_neighbors(&self, x: i32, y: i32) -> (count: usize)
        ensures
            count == live_neighbors(self@, x as int, y as int),
            count <= 8,
    {
        self.live_around(x as i128, y as i128)
    }

    /// The neighbour count around a position given in a type wide enough for
    /// every column and row index and for the positions next to them.
    fn live_around(&self, x: i128, y: i128) -> (count: usize)
        requires
            i128::MIN < x < i128::MAX,
            i128::MIN < y < i128::MAX,
        ensures
            count == live_neighbors(self@, x as int, y as int),
            count <= 8,
    {
        proof {
            use_type_invariant(self);
            lemma_columns(self.cells);
        }
        let mut count: usize = 0;
        let mut dx: i128 = -1;
        while dx <= 1
            invariant
                -1 <= dx <= 2,
                i128::MIN < x < i128::MAX,
                i128::MIN < y < i128::MAX,
                self.wf(),
                count == live_in_columns(self@, x as int, y as int, dx as int),
                count <= 3 * (dx + 1),
            decreases 2 - dx,
        {
            let nx = x + dx;
            if 0 <= nx && nx < self.ncols as i128 {
                let ghost before = count;
                let mut dy: i128 = -1;
                while dy <= 1
                    invariant
                        -1 <= dy <= 2,
                        -1 <= dx <= 1,
                        nx == x + dx,
                        0 <= nx < self.ncols,
                        i128::MIN < y < i128::MAX,
                        self.wf(),
                        before <= 3 * (dx + 1),
                        count == before + live_in_column(
                            self@,
                            x as int,
                            y as int,
                            dx as int,
                            dy as int,
                        ),
                        count <= before + (dy + 1),
                    decreases 2 - dy,
                {
                    proof {
                        lemma_columns(self.cells);
                        assert(self@[nx as int] == self.cells@[nx as int]@);
                    }
                    let ny = y + dy;
                    if 0 <= ny && ny < self.nrows as i128 && !(dx == 0 && dy == 0)
                        && self.cells[nx as usize][ny as usize] {
                        count += 1;
                    }
                    dy += 1;
                }
            }
            dx += 1;
        }
        count
    }
}

/// What the position at offset `(dx, dy)` from `(x, y)` adds to the neighbour
/// count of `(x, y)`: the centre itself adds nothing.
spec fn share(g: Grid, x: int, y: int, dx: int, dy: int) -> nat {
    if dx == 0 && dy == 0 {
        0
    } else {
        live(g, x + dx, y + dy)
    }
}

/// The part of the neighbour count of `(x, y)` that comes from column
/// `x + dx`, rows `y - 1` up to but not including `y + dy`.
spec fn live_in_column(g: Grid, x: int, y: int, dx: int, dy: int) -> nat {
    (if dy > -1 { share(g, x, y, dx, -1) } else { 0 })
        + (if dy > 0 { share(g, x, y, dx, 0) } else { 0 })
        + (if dy > 1 { share(g, x, y, dx, 1) } else { 0 })
}

/// The part of the neighbour count of `(x, y)` that comes from the columns
/// `x - 1` up to but not including `x + dx`.
spec fn live_in_columns(g: Grid, x: int, y: int, dx: int) -> nat {
    (if dx > -1 { live_in_column(g, x, y, -1, 2) } else { 0 })
        + (if dx > 0 { live_in_column(g, x, y, 0, 2) } else { 0 })
        + (if dx > 1 { live_in_column(g, x, y, 1, 2) } else { 0 })
}

/// One random boolean from `rand::random`, which draws it from the generator
/// of the calling thread. Nothing is claimed of the value: two calls may
/// differ, and either outcome may come at any call.
#[verifier::external_body]
fn random_bool() -> bool {
    ::rand::random()
}

/// As many random draws as a board of `ncols` by `nrows` cells has cells, in
/// the order in which they were drawn.
fn random_draws(ncols: usize, nrows: usize) -> (draws: Vec<bool>)
    ensures
        draws@.len() == ncols * nrows,
{
    let mut draws: Vec<bool> = Vec::new();
    assert(0 * nrows == 0) by (nonlinear_arith);
    for x in 0..ncols
        invariant
            draws@.len() == x * nrows,
    {
        for y in 0..nrows
            invariant
                draws@.len() == x * nrows + y,
        {
            draws.push(random_bool());
        }
        assert((x + 1) * nrows == x * nrows + nrows) by (nonlinear_arith);
    }
    draws
}

/// Lays a run of draws out as the columns of a board of `ncols` by `nrows`
/// cells: the cell at `(x, y)` takes draw number `x * nrows + y`, and no
/// draw is used twice.
pub fn cells_from_draws(ncols: usize, nrows: usize, draws: &Vec<bool>) -> (cells: Vec<Vec<bool>>)
    requires
        draws@.len() == ncols * nrows,
    ensures
        cells.deep_view() == board_of_draws(draws@, ncols as nat, nrows as nat),
{
    let mut cells: Vec<Vec<bool>> = Vec::new();
    let mut next: usize = 0;
    assert(0 * nrows == 0) by (nonlinear_arith);
    assert(draws@.len() == draws.len());
    for x in 0..ncols
        invariant
            draws@.len() == ncols * nrows,
            draws@.len() <= usize::MAX,
            next == x * nrows,
            cells@.len() == x,
            forall|i: int|
                0 <= i < x ==> (#[trigger] cells@[i])@ == board_of_draws(
                    draws@,
                    ncols as nat,
                    nrows as nat,
                )[i],
    {
        assert((x + 1) * nrows <= ncols * nrows) by (nonlinear_arith)
            requires
                x + 1 <= ncols,
        ;
        assert((x + 1) * nrows == x * nrows + nrows) by (nonlinear_arith);
        let mut column: Vec<bool> = Vec::new();
        for y in 0..nrows
            invariant
                draws@.len() == ncols * nrows,
                draws@.len() <= usize::MAX,
                x * nrows + nrows <= ncols * nrows,
                next == x * nrows + y,
                column@ == Seq::new(y as nat, |j: int| draws@[x * (nrows as int) + j]),
        {
            column.push(draws[next]);
            next += 1;
        }
        cells.push(column);
    }
    proof {
        lemma_columns(cells);
        assert(cells.deep_view() =~= board_of_draws(draws@, ncols as nat, nrows as nat));
    }
    cells
}

/// Flips the cell in row `y` of column `x` and leaves every other cell alone.
fn flip(cells: &mut Vec<Vec<bool>>, x: usize, y: usize)
    requires
        in_bounds(old(cells).deep_view(), x as int, y as int),
    ensures
        final(cells).deep_view() == toggled(old(cells).deep_view(), x as int, y as int),
        forall|ncols: nat, nrows: nat|
            rectangular(old(cells).deep_view(), ncols, nrows) ==> #[trigger] rectangular(
                final(cells).deep_view(),
                ncols,
                nrows,
            ),
    no_unwind
{
    proof {
        lemma_columns(*cells);
    }
    cells[x][y] = !cells[x][y];
    proof {
        lemma_columns(*cells);
        assert(cells.deep_view() =~= toggled(old(cells).deep_view(), x as int, y as int));
    }
}

/// The model of a vector of columns, column by column.
proof fn lemma_columns(cells: Vec<Vec<bool>>)
    ensures
        cells.deep_view().len() == cells@.len(),
        forall|x: int| 0 <= x < cells@.len() ==> #[trigger] cells.deep_view()[x] == cells@[x]@,
{
    assert forall|x: int| 0 <= x < cells@.len() implies #[trigger] cells.deep_view()[x]
        == cells@[x]@ by {
        assert(cells@[x].deep_view() =~= cells@[x]@);
    }
}

} // verus!
