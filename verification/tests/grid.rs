use fractals::fractal::{escape_time, Fractal};
use fractals::grid::{classify, fill_column, PixelGrid, Strategy};

fn escaped(z: (f64, f64)) -> bool {
    z.0 * z.0 + z.1 * z.1 > 4.0
}

fn mandelbrot_at(x0: f64, y0: f64, max_iterations: i32) -> i32 {
    escape_time(
        (0.0, 0.0),
        &|z: (f64, f64)| (z.0 * z.0 - z.1 * z.1 + x0, 2.0 * z.0 * z.1 + y0),
        &escaped,
        max_iterations,
    )
}

fn plane_point(col: usize, row: usize, width: usize, height: usize) -> (f64, f64) {
    let (x_start, x_end, y_start, y_end) = (-2.0, 1.0, -1.0, 1.0);
    let x = (col as f64) / (width as f64) * (x_end - x_start) + x_start;
    let y = ((height - row) as f64) / (height as f64) * (y_end - y_start) + y_start;
    (x, y)
}

fn cells_of(grid: &PixelGrid) -> Vec<Vec<Option<i32>>> {
    grid.columns().clone()
}

#[test]
fn classify_turns_the_full_budget_into_none() {
    assert_eq!(classify(50, 50), None);
    assert_eq!(classify(1, 1), None);
    assert_eq!(classify(0, 0), None);
}

#[test]
fn classify_keeps_an_escape_count() {
    assert_eq!(classify(0, 50), Some(0));
    assert_eq!(classify(49, 50), Some(49));
    assert_eq!(classify(51, 50), Some(51));
    assert_eq!(classify(-1, 50), Some(-1));
}

#[test]
fn new_grid_is_cleared() {
    let grid = PixelGrid::new(3, 2);
    assert_eq!(grid.width(), 3);
    assert_eq!(grid.height(), 2);
    assert_eq!(cells_of(&grid), vec![vec![None, None]; 3]);
    for col in 0..3 {
        for row in 0..2 {
            assert_eq!(grid.cell(col, row), None);
        }
    }
}

#[test]
fn new_grid_without_cells_keeps_its_dimensions() {
    let no_columns = PixelGrid::new(0, 5);
    assert_eq!(no_columns.width(), 0);
    assert_eq!(no_columns.height(), 5);
    assert!(no_columns.columns().is_empty());
    let no_rows = PixelGrid::new(4, 0);
    assert_eq!(no_rows.width(), 4);
    assert_eq!(no_rows.height(), 0);
    assert_eq!(cells_of(&no_rows), vec![Vec::<Option<i32>>::new(); 4]);
}

#[test]
fn fill_column_overwrites_every_cell() {
    let mut column = vec![Some(7), None, Some(9), None];
    fill_column(
        &mut column,
        5,
        Fractal::Julia,
        3,
        &|_kind: Fractal, col: usize, row: usize, _n: i32| (col + row) as i32 - 4,
    );
    assert_eq!(column, vec![Some(1), Some(2), None, Some(4)]);
}

#[test]
fn fill_column_hands_the_settings_to_the_evaluator() {
    let mut column = vec![None; 3];
    fill_column(
        &mut column,
        2,
        Fractal::BurningShip,
        90,
        &|kind: Fractal, col: usize, row: usize, n: i32| {
            if kind == Fractal::BurningShip && col == 2 {
                n - row as i32
            } else {
                -1
            }
        },
    );
    assert_eq!(column, vec![None, Some(89), Some(88)]);
}

#[test]
fn recompute_in_sequence_applies_the_formula_to_each_cell() {
    let mut grid = PixelGrid::new(3, 2);
    grid.recompute(
        Strategy::Sequential,
        Fractal::Mandelbrot,
        11,
        &|_kind: Fractal, col: usize, row: usize, _n: i32| (10 * col + row) as i32,
    );
    assert_eq!(
        cells_of(&grid),
        vec![
            vec![Some(0), Some(1)],
            vec![Some(10), None],
            vec![Some(20), Some(21)],
        ]
    );
    assert_eq!(grid.width(), 3);
    assert_eq!(grid.height(), 2);
}

#[test]
fn recompute_in_parallel_applies_the_formula_to_each_cell() {
    let mut grid = PixelGrid::new(3, 2);
    grid.recompute(
        Strategy::Parallel,
        Fractal::Mandelbrot,
        11,
        &|_kind: Fractal, col: usize, row: usize, _n: i32| (10 * col + row) as i32,
    );
    assert_eq!(
        cells_of(&grid),
        vec![
            vec![Some(0), Some(1)],
            vec![Some(10), None],
            vec![Some(20), Some(21)],
        ]
    );
    assert_eq!(grid.cell(2, 1), Some(21));
    assert_eq!(grid.cell(1, 1), None);
}

#[test]
fn recompute_forgets_what_the_cells_held() {
    for strategy in [Strategy::Sequential, Strategy::Parallel] {
        let mut grid = PixelGrid::new(4, 3);
        grid.recompute(strategy, Fractal::Julia, 5, &|_k: Fractal, _c: usize, _r: usize, _n: i32| 2);
        assert_eq!(cells_of(&grid), vec![vec![Some(2); 3]; 4]);
        grid.recompute(strategy, Fractal::Julia, 5, &|_k: Fractal, _c: usize, _r: usize, n: i32| n);
        assert_eq!(cells_of(&grid), vec![vec![None; 3]; 4]);
    }
}

#[test]
fn parallel_and_sequential_recomputation_agree() {
    let (width, height) = (37, 23);
    let evaluator = |_kind: Fractal, col: usize, row: usize, n: i32| {
        let (x, y) = plane_point(col, row, width, height);
        mandelbrot_at(x, y, n)
    };
    let mut in_sequence = PixelGrid::new(width, height);
    in_sequence.recompute(Strategy::Sequential, Fractal::Mandelbrot, 120, &evaluator);
    let mut in_parallel = PixelGrid::new(width, height);
    in_parallel.recompute(
        Strategy::Parallel,
        Fractal::Mandelbrot,
        7,
        &|_k: Fractal, c: usize, r: usize, _n: i32| (c * r) as i32,
    );
    in_parallel.recompute(Strategy::Parallel, Fractal::Mandelbrot, 120, &evaluator);
    assert_eq!(cells_of(&in_parallel), cells_of(&in_sequence));
    for col in 0..width {
        for row in 0..height {
            let (x, y) = plane_point(col, row, width, height);
            assert_eq!(in_parallel.cell(col, row), classify(mandelbrot_at(x, y, 120), 120));
        }
    }
}

#[test]
fn recompute_of_a_grid_without_cells_changes_nothing() {
    for strategy in [Strategy::Sequential, Strategy::Parallel] {
        let mut grid = PixelGrid::new(0, 3);
        grid.recompute(strategy, Fractal::Mandelbrot, 5, &|_k: Fractal, _c: usize, _r: usize, _n: i32| 1);
        assert_eq!(grid.width(), 0);
        assert_eq!(grid.height(), 3);
    }
}

#[test]
fn mandelbrot_on_a_four_by_four_grid() {
    let evaluator = |_kind: Fractal, col: usize, row: usize, n: i32| {
        let (x, y) = plane_point(col, row, 4, 4);
        mandelbrot_at(x, y, n)
    };
    let expected = vec![
        vec![Some(1), Some(1), None, Some(1)],
        vec![Some(3), Some(4), None, Some(4)],
        vec![Some(4), None, None, None],
        vec![Some(4), None, None, None],
    ];
    for strategy in [Strategy::Sequential, Strategy::Parallel] {
        let mut grid = PixelGrid::new(4, 4);
        grid.recompute(strategy, Fractal::Mandelbrot, 50, &evaluator);
        assert_eq!(cells_of(&grid), expected);
    }
}
