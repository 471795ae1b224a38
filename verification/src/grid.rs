//! The pixel grid and its recomputation.
//!
//! A cell holds `None` for a point whose orbit stayed bounded for the whole
//! iteration budget, and `Some(used)` for one that escaped after `used`
//! iterations. The colour of an escaped cell is a function of `used`, which
//! the presentation applies when it draws.

use crate::fractal::Fractal;
use rayon::iter::IndexedParallelIterator;
use rayon::iter::IntoParallelRefMutIterator;
use rayon::iter::ParallelIterator;
use vstd::prelude::*;

verus! {

/// One cell of the grid.
pub type Cell = Option<i32>;

/// How the columns of a grid are worked through.
#[derive(Clone, Copy, Debug, PartialEq, Eq, Structural)]
pub enum Strategy {
    /// One column after the other, on the calling thread.
    Sequential,
    /// Every column as a task of its own on the worker pool.
    Parallel,
}

/// The cell for an orbit that used `used` iterations of a budget of
/// `iterations`.
pub open spec fn cell_of(used: i32, iterations: i32) -> Cell {
    if used == iterations {
        None
    } else {
        Some(used)
    }
}

/// `cell` is what recomputation may leave at `(col, row)`: the cell for some
/// result of `escape` on that position.
pub open spec fn cell_computed<F: Fn(Fractal, usize, usize, i32) -> i32>(
    escape: &F,
    fractal: Fractal,
    iterations: i32,
    col: usize,
    row: usize,
    cell: Cell,
) -> bool {
    exists|used: i32|
        #[trigger] escape.ensures((fractal, col, row, iterations), used) && cell == cell_of(
            used,
            iterations,
        )
}

/// Every cell of `column`, the column at index `col`, is computed.
pub open spec fn column_computed<F: Fn(Fractal, usize, usize, i32) -> i32>(
    escape: &F,
    fractal: Fractal,
    iterations: i32,
    col: usize,
    column: Seq<Cell>,
) -> bool {
    forall|row: usize|
        row < column.len() ==> cell_computed(
            escape,
            fractal,
            iterations,
            col,
            row,
            #[trigger] column[row as int],
        )
}

/// Every cell of `columns` is computed.
pub open spec fn recomputed<F: Fn(Fractal, usize, usize, i32) -> i32>(
    escape: &F,
    fractal: Fractal,
    iterations: i32,
    columns: Seq<Seq<Cell>>,
) -> bool {
    forall|col: usize|
        col < columns.len() ==> column_computed(
            escape,
            fractal,
            iterations,
            col,
            #[trigger] columns[col as int],
        )
}

/// `escape` may be called on every position of a grid of `width` columns and
/// `height` rows.
pub open spec fn callable_on<F: Fn(Fractal, usize, usize, i32) -> i32>(
    escape: &F,
    fractal: Fractal,
    iterations: i32,
    width: nat,
    height: nat,
) -> bool {
    forall|col: usize, row: usize|
        col < width && row < height ==> #[trigger] escape.requires(
            (fractal, col, row, iterations),
        )
}

/// `escape` has at most one result on every position.
pub open spec fn single_valued<F: Fn(Fractal, usize, usize, i32) -> i32>(
    escape: &F,
    fractal: Fractal,
    iterations: i32,
) -> bool {
    forall|col: usize, row: usize, a: i32, b: i32|
        #![trigger escape.ensures((fractal, col, row, iterations), a), escape.ensures((fractal, col, row, iterations), b)]
        escape.ensures((fractal, col, row, iterations), a) && escape.ensures(
            (fractal, col, row, iterations),
            b,
        ) ==> a == b
}

/// The columns of a grid as sequences.
pub open spec fn columns_view(columns: Seq<Vec<Cell>>) -> Seq<Seq<Cell>> {
    Seq::new(columns.len(), |col: int| columns[col]@)
}

/// Turns the result of an evaluator into a cell: `None` if the whole budget was
/// used, the result otherwise.
pub fn classify(used: i32, iterations: i32) -> (cell: Cell)
    ensures
        cell == cell_of(used, iterations),
{
    if used != iterations {
        Some(used)
    } else {
        None
    }
}

/// Overwrites every cell of the column at index `col`.
pub fn fill_column<F: Fn(Fractal, usize, usize, i32) -> i32>(
    column: &mut Vec<Cell>,
    col: usize,
    fractal: Fractal,
    iterations: i32,
    escape: &F,
)
    requires
        forall|row: usize|
            row < old(column).len() ==> #[trigger] escape.requires(
                (fractal, col, row, iterations),
            ),
    ensures
        final(column).len() == old(column).len(),
        column_computed(escape, fractal, iterations, col, final(column)@),
{
    let height: usize = column.len();
    let mut row: usize = 0;
    while row < height
        invariant
            row <= height,
            column.len() == height,
            forall|r: usize|
                r < height ==> #[trigger] escape.requires((fractal, col, r, iterations)),
            forall|r: usize|
                r < row ==> cell_computed(
                    escape,
                    fractal,
                    iterations,
                    col,
                    r,
                    #[trigger] column[r as int],
                ),
        decreases height - row,
    {
        let used: i32 = escape(fractal, col, row, iterations);
        let cell = classify(used, iterations);
        column.set(row, cell);
        row = row + 1;
    }
}

/// Overwrites every cell of `columns`, column by column.
fn fill_in_sequence<F: Fn(Fractal, usize, usize, i32) -> i32>(
    columns: &mut Vec<Vec<Cell>>,
    fractal: Fractal,
    iterations: i32,
    escape: &F,
)
    requires
        forall|col: usize, row: usize|
            col < old(columns).len() && row < old(columns)[col as int].len()
                ==> #[trigger] escape.requires((fractal, col, row, iterations)),
    ensures
        final(columns).len() == old(columns).len(),
        forall|col: int|
            0 <= col < final(columns).len() ==> (#[trigger] final(columns)[col]).len() == old(
                columns,
            )[col].len(),
        recomputed(escape, fractal, iterations, columns_view(final(columns)@)),
{
    let width: usize = columns.len();
    let mut col: usize = 0;
    while col < width
        invariant
            col <= width,
            columns.len() == width,
            width == old(columns).len(),
            forall|c: int|
                0 <= c < width ==> (#[trigger] columns[c]).len() == old(columns)[c].len(),
            forall|c: usize, r: usize|
                c < width && r < old(columns)[c as int].len() ==> #[trigger] escape.requires(
                    (fractal, c, r, iterations),
                ),
            forall|c: usize|
                c < col ==> column_computed(
                    escape,
                    fractal,
                    iterations,
                    c,
                    (#[trigger] columns[c as int])@,
                ),
        decreases width - col,
    {
        fill_column(&mut columns[col], col, fractal, iterations, escape);
        col = col + 1;
    }
    assert forall|c: usize| c < width implies column_computed(
        escape,
        fractal,
        iterations,
        c,
        #[trigger] columns_view(columns@)[c as int],
    ) by {
        assert(columns_view(columns@)[c as int] == columns[c as int]@);
    }
}

/// Overwrites every cell of `columns`, each column as a task of its own.
///
/// Calls rayon's `par_iter_mut`, `enumerate` and `for_each` on the columns:
/// `for_each` runs the closure once on each column together with its index and
/// returns when all of them are done. The closure is one call of
/// `fill_column`, so the contract repeats for every column what `fill_column`
/// ensures for one. Not proved: that rayon hands out each column exactly once,
/// with its own index.
#[verifier::external_body]
fn fill_in_parallel<F: Fn(Fractal, usize, usize, i32) -> i32 + Sync>(
    columns: &mut Vec<Vec<Cell>>,
    fractal: Fractal,
    iterations: i32,
    escape: &F,
)
    requires
        forall|col: usize, row: usize|
            col < old(columns).len() && row < old(columns)[col as int].len()
                ==> #[trigger] escape.requires((fractal, col, row, iterations)),
    ensures
        final(columns).len() == old(columns).len(),
        forall|col: int|
            0 <= col < final(columns).len() ==> (#[trigger] final(columns)[col]).len() == old(
                columns,
            )[col].len(),
        recomputed(escape, fractal, iterations, columns_view(final(columns)@)),
{
    columns.par_iter_mut().enumerate().for_each(
        |(col, column)| fill_column(column, col, fractal, iterations, escape),
    );
}

/// A grid of `width` columns and `height` rows in which no cell has escaped.
pub open spec fn cleared(width: nat, height: nat) -> Seq<Seq<Cell>> {
    Seq::new(width, |col: int| Seq::new(height, |row: int| None::<i32>))
}

/// A column of `height` cells, none of which has escaped.
fn cleared_column(height: usize) -> (column: Vec<Cell>)
    ensures
        column@ == Seq::new(height as nat, |row: int| None::<i32>),
{
    let mut column: Vec<Cell> = Vec::new();
    let mut row: usize = 0;
    while row < height
        invariant
            row <= height,
            column.len() == row,
            forall|r: int| 0 <= r < row ==> #[trigger] column[r] == None::<i32>,
        decreases height - row,
    {
        column.push(None);
        row = row + 1;
    }
    assert(column@ =~= Seq::new(height as nat, |row: int| None::<i32>));
    column
}

/// The cells of one frame, indexed by column and then by row.
pub struct PixelGrid {
    columns: Vec<Vec<Cell>>,
    height: usize,
}

impl View for PixelGrid {
    type V = Seq<Seq<Cell>>;

    /// The columns of the grid, each a sequence of cells from the top row down.
    closed spec fn view(&self) -> Seq<Seq<Cell>> {
        columns_view(self.columns@)
    }
}

impl PixelGrid {
    /// The number of rows; it is kept apart from the columns so that a grid
    /// without columns still has a height.
    pub closed spec fn rows(&self) -> nat {
        self.height as nat
    }

    /// The grid is a rectangle: every column has `rows()` cells, and both
    /// dimensions fit a `usize`.
    pub open spec fn wf(&self) -> bool {
        &&& self@.len() <= usize::MAX
        &&& self.rows() <= usize::MAX
        &&& forall|col: int| 0 <= col < self@.len() ==> (#[trigger] self@[col]).len() == self.rows()
    }

    /// What `wf` says of the columns as they are held.
    proof fn lemma_held_columns(&self)
        ensures
            self@.len() == self.columns.len(),
            self.wf() <==> (forall|col: int|
                0 <= col < self.columns.len() ==> (#[trigger] self.columns[col]).len()
                    == self.height),
    {
        assert(self.columns@.len() == self.columns.len());
        if self.wf() {
            assert forall|col: int| 0 <= col < self.columns.len() implies (
            #[trigger] self.columns[col]).len() == self.height by {
                assert(self@[col] == self.columns[col]@);
            }
        }
        if forall|col: int|
            0 <= col < self.columns.len() ==> (#[trigger] self.columns[col]).len() == self.height {
            assert forall|col: int| 0 <= col < self@.len() implies (#[trigger] self@[col]).len()
                == self.rows() by {
                assert(self@[col] == self.columns[col]@);
            }
        }
    }

    /// A grid of the given dimensions with every cell cleared.
    pub fn new(width: usize, height: usize) -> (grid: PixelGrid)
        ensures
            grid.wf(),
            grid.rows() == height,
            grid@ == cleared(width as nat, height as nat),
    {
        let mut columns: Vec<Vec<Cell>> = Vec::new();
        let mut col: usize = 0;
        while col < width
            invariant
                col <= width,
                columns.len() == col,
                forall|c: int|
                    0 <= c < col ==> (#[trigger] columns[c])@ == Seq::new(
                        height as nat,
                        |row: int| None::<i32>,
                    ),
            decreases width - col,
        {
            columns.push(cleared_column(height));
            col = col + 1;
        }
        let grid = PixelGrid { columns, height };
        assert(grid@ =~= cleared(width as nat, height as nat));
        grid
    }

    /// The number of columns.
    pub fn width(&self) -> (width: usize)
        ensures
            width == self@.len(),
    {
        self.columns.len()
    }

    /// The number of rows.
    pub fn height(&self) -> (height: usize)
        ensures
            height == self.rows(),
    {
        self.height
    }

    /// The cell at `(col, row)`.
    pub fn cell(&self, col: usize, row: usize) -> (cell: Cell)
        requires
            self.wf(),
            col < self@.len(),
            row < self.rows(),
        ensures
            cell == self@[col as int][row as int],
    {
        proof {
            self.lemma_held_columns();
        }
        self.columns[col][row]
    }

    /// The columns, for reading.
    pub fn columns(&self) -> (columns: &Vec<Vec<Cell>>)
        ensures
            columns_view(columns@) == self@,
    {
        &self.columns
    }

    /// Overwrites every cell with the cell for what `escape` returns on its
    /// position, whatever the cell held before. Both strategies leave the same
    /// contract; they differ in the threads that do the work.
    pub fn recompute<F: Fn(Fractal, usize, usize, i32) -> i32 + Sync>(
        &mut self,
        strategy: Strategy,
        fractal: Fractal,
        iterations: i32,
        escape: &F,
    )
        requires
            old(self).wf(),
            callable_on(escape, fractal, iterations, old(self)@.len(), old(self).rows()),
        ensures
            final(self).wf(),
            final(self)@.len() == old(self)@.len(),
            final(self).rows() == old(self).rows(),
            recomputed(escape, fractal, iterations, final(self)@),
    {
        proof {
            self.lemma_held_columns();
        }
        match strategy {
            Strategy::Sequential => fill_in_sequence(
                &mut self.columns,
                fractal,
                iterations,
                escape,
            ),
            Strategy::Parallel => fill_in_parallel(&mut self.columns, fractal, iterations, escape),
        }
        proof {
            self.lemma_held_columns();
        }
    }
}

/// Recomputation is determined cell by cell: two grids of the same dimensions
/// that were both recomputed with an evaluator that has one result for each
/// position hold the same cells, in whatever order, on whatever threads and
/// from whatever earlier contents they were filled.
pub proof fn lemma_recomputation_is_determined<F: Fn(Fractal, usize, usize, i32) -> i32>(
    escape: &F,
    fractal: Fractal,
    iterations: i32,
    a: PixelGrid,
    b: PixelGrid,
)
    requires
        a.wf(),
        b.wf(),
        a@.len() == b@.len(),
        a.rows() == b.rows(),
        single_valued(escape, fractal, iterations),
        recomputed(escape, fractal, iterations, a@),
        recomputed(escape, fractal, iterations, b@),
    ensures
        a@ == b@,
{
    assert forall|col: int| 0 <= col < a@.len() implies #[trigger] a@[col] == b@[col] by {
        let c = col as usize;
        assert(column_computed(escape, fractal, iterations, c, a@[c as int]));
        assert(column_computed(escape, fractal, iterations, c, b@[c as int]));
        assert forall|row: int| 0 <= row < a@[col].len() implies #[trigger] a@[col][row]
            == b@[col][row] by {
            let r = row as usize;
            assert(cell_computed(escape, fractal, iterations, c, r, a@[c as int][r as int]));
            assert(cell_computed(escape, fractal, iterations, c, r, b@[c as int][r as int]));
        }
        assert(a@[col] =~= b@[col]);
    }
    assert(a@ =~= b@);
}

} // verus!
