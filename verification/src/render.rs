//! What a frame draws: one square for every cell that escaped.

use crate::app::{App, AppView};
use crate::grid::Cell;
use vstd::prelude::*;

verus! {

/// A filled square of the frame, in window pixels. Its colour follows from
/// `iterations_used`.
#[derive(Clone, Copy, Debug, PartialEq, Eq, Structural)]
pub struct Square {
    /// The distance of the square's left edge from the window's.
    pub x: i32,
    /// The distance of the square's top edge from the window's.
    pub y: i32,
    /// The length of the square's side.
    pub size: i32,
    /// The iterations after which the orbit of the cell escaped.
    pub iterations_used: i32,
}

/// The square for the cell at `(col, row)`: none for a cell that did not
/// escape, and otherwise a square of one cell's size, as many cells from the
/// left and from the top as the cell is.
pub open spec fn square_of(cell: Cell, col: int, row: int, pixel_size: int) -> Option<Square> {
    match cell {
        Some(used) => Some(
            Square {
                x: (col * pixel_size) as i32,
                y: (row * pixel_size) as i32,
                size: pixel_size as i32,
                iterations_used: used,
            },
        ),
        None => None,
    }
}

/// The squares of one column, from the top row down.
pub open spec fn column_squares(column: Seq<Cell>, col: int, pixel_size: int) -> Seq<Square> {
    Seq::new(column.len(), |row: int| row).filter_map(
        |row: int| square_of(column[row], col, row, pixel_size),
    )
}

/// The squares of a frame: those of its columns, from the left column to the
/// right one.
pub open spec fn squares_of(view: AppView) -> Seq<Square> {
    Seq::new(view.pixel_data.len(), |col: int| col).flat_map(
        |col: int| column_squares(view.pixel_data[col], col, view.pixel_size),
    )
}

/// A cell's offset in pixels stays inside the window.
proof fn lemma_offset_in_window(index: int, pixel_size: int, window: int)
    requires
        1 <= pixel_size,
        0 <= window,
        0 <= index < window / pixel_size,
    ensures
        0 <= index * pixel_size <= window,
{
    assert(0 <= index * pixel_size <= window) by (nonlinear_arith)
        requires
            1 <= pixel_size,
            0 <= window,
            0 <= index,
            index + 1 <= window / pixel_size,
    {
        assert((window / pixel_size) * pixel_size <= window);
        assert(index * pixel_size <= (window / pixel_size) * pixel_size);
    }
}

impl App {
    /// The squares that the current frame draws, column by column from the
    /// left and within a column from the top.
    pub fn squares(&self) -> (squares: Vec<Square>)
        requires
            self.wf(),
        ensures
            squares@ == squares_of(self@),
    {
        let grid = self.pixel_data();
        let pixel_size: i32 = self.pixel_size();
        let width: usize = grid.width();
        let height: usize = grid.height();
        let ghost view = self@;
        let ghost cols = Seq::new(view.pixel_data.len(), |col: int| col);
        let ghost per_column = |col: int| column_squares(view.pixel_data[col], col, view.pixel_size);
        let mut squares: Vec<Square> = Vec::new();
        let mut col: usize = 0;
        assert(cols.take(0).flat_map(per_column) =~= Seq::<Square>::empty());
        while col < width
            invariant
                col <= width,
                view == self@,
                view.wf(),
                grid.wf(),
                grid@ == view.pixel_data,
                grid.rows() == view.grid_height(),
                width == view.pixel_data.len(),
                height == view.grid_height(),
                pixel_size == view.pixel_size,
                cols == Seq::new(view.pixel_data.len(), |col: int| col),
                per_column == |col: int|
                    column_squares(view.pixel_data[col], col, view.pixel_size),
                squares@ == cols.take(col as int).flat_map(per_column),
            decreases width - col,
        {
            let ghost column = view.pixel_data[col as int];
            let ghost rows = Seq::new(column.len(), |row: int| row);
            let ghost per_row = |row: int| square_of(column[row], col as int, row, view.pixel_size);
            let ghost before = squares@;
            let mut row: usize = 0;
            assert(rows.take(0).filter_map(per_row) =~= Seq::<Square>::empty());
            while row < height
                invariant
                    row <= height,
                    col < width,
                    view.wf(),
                    grid.wf(),
                    grid@ == view.pixel_data,
                    grid.rows() == view.grid_height(),
                    width == view.pixel_data.len(),
                    height == view.grid_height(),
                    pixel_size == view.pixel_size,
                    column == view.pixel_data[col as int],
                    column.len() == height,
                    rows == Seq::new(column.len(), |row: int| row),
                    per_row == |row: int| square_of(column[row], col as int, row, view.pixel_size),
                    squares@ == before + rows.take(row as int).filter_map(per_row),
                decreases height - row,
            {
                proof {
                    rows.lemma_filter_map_take_succ(per_row, row as int);
                    lemma_offset_in_window(col as int, view.pixel_size, view.window_width);
                    lemma_offset_in_window(row as int, view.pixel_size, view.window_height);
                }
                match grid.cell(col, row) {
                    Some(used) => {
                        squares.push(
                            Square {
                                x: col as i32 * pixel_size,
                                y: row as i32 * pixel_size,
                                size: pixel_size,
                                iterations_used: used,
                            },
                        );
                    },
                    None => {},
                }
                row = row + 1;
            }
            proof {
                assert(rows.take(height as int) =~= rows);
                cols.lemma_flat_map_take_append(per_column, col as int);
            }
            col = col + 1;
        }
        assert(cols.take(width as int) =~= cols);
        squares
    }
}

} // verus!
