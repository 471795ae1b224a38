use fractals::fractal::{escape_time, Fractal};

fn escaped(z: (f64, f64)) -> bool {
    z.0 * z.0 + z.1 * z.1 > 4.0
}

fn mandelbrot(x0: f64, y0: f64, max_iterations: i32) -> i32 {
    escape_time(
        (0.0, 0.0),
        &|z: (f64, f64)| (z.0 * z.0 - z.1 * z.1 + x0, 2.0 * z.0 * z.1 + y0),
        &escaped,
        max_iterations,
    )
}

fn julia(x0: f64, y0: f64, max_iterations: i32) -> i32 {
    let (cx, cy) = (-0.8, 0.156);
    escape_time(
        (x0, y0),
        &|z: (f64, f64)| (z.0 * z.0 - z.1 * z.1 + cx, 2.0 * z.0 * z.1 + cy),
        &escaped,
        max_iterations,
    )
}

fn burning_ship(x0: f64, y0: f64, max_iterations: i32) -> i32 {
    let y0 = -1.0 * y0;
    escape_time(
        (x0, y0),
        &|z: (f64, f64)| (z.0 * z.0 - z.1 * z.1 + x0, (2.0 * z.0 * z.1).abs() + y0),
        &escaped,
        max_iterations,
    )
}

fn evaluate(kind: Fractal, x0: f64, y0: f64, max_iterations: i32) -> i32 {
    match kind {
        Fractal::Mandelbrot => mandelbrot(x0, y0, max_iterations),
        Fractal::Julia => julia(x0, y0, max_iterations),
        Fractal::BurningShip => burning_ship(x0, y0, max_iterations),
    }
}

#[test]
fn mandelbrot_origin_never_escapes() {
    for n in [0, 1, 2, 50, 204, 1000] {
        assert_eq!(mandelbrot(0.0, 0.0, n), n);
    }
}

#[test]
fn mandelbrot_far_point_escapes_after_the_first_update() {
    for n in [1, 2, 50, 204] {
        assert_eq!(mandelbrot(5.0, 5.0, n), 1);
    }
}

#[test]
fn mandelbrot_known_escape_counts() {
    assert_eq!(mandelbrot(-0.75, 0.1, 204), 33);
    assert_eq!(mandelbrot(0.26, 0.0, 204), 30);
    assert_eq!(mandelbrot(0.3, 0.5, 204), 204);
    assert_eq!(mandelbrot(-2.0, 0.0, 50), 50);
}

#[test]
fn julia_seed_outside_the_radius_escapes_at_zero() {
    assert_eq!(julia(3.0, 0.0, 50), 0);
    assert_eq!(julia(-2.0, 1.0, 50), 0);
}

#[test]
fn julia_known_escape_counts() {
    assert_eq!(julia(0.0, 0.0, 50), 50);
    assert_eq!(julia(0.0, 0.0, 1000), 252);
    assert_eq!(julia(-0.5, 0.0, 50), 31);
    assert_eq!(julia(0.25, 0.5, 50), 17);
}

#[test]
fn burning_ship_flips_the_imaginary_part() {
    assert_eq!(burning_ship(-0.5, 1.0, 50), 5);
    assert_eq!(burning_ship(-0.5, -0.5, 50), 3);
    assert_eq!(burning_ship(0.25, -0.5, 50), 8);
    assert_eq!(burning_ship(0.25, 0.5, 50), 50);
}

#[test]
fn burning_ship_known_escape_counts() {
    assert_eq!(burning_ship(-1.75, 0.03, 100), 21);
    assert_eq!(burning_ship(0.0, 0.0, 30), 30);
    assert_eq!(burning_ship(-2.0, 1.0, 50), 0);
}

#[test]
fn evaluators_stay_within_the_budget() {
    for kind in [Fractal::Mandelbrot, Fractal::Julia, Fractal::BurningShip] {
        for n in [0, 1, 7, 64] {
            for ix in 0..25 {
                for iy in 0..17 {
                    let x = -3.0 + 0.25 * ix as f64;
                    let y = -2.0 + 0.25 * iy as f64;
                    let used = evaluate(kind, x, y, n);
                    assert!(0 <= used && used <= n);
                }
            }
        }
    }
}

#[test]
fn evaluators_give_the_same_count_twice() {
    for kind in [Fractal::Mandelbrot, Fractal::Julia, Fractal::BurningShip] {
        for ix in 0..13 {
            for iy in 0..9 {
                let x = -2.0 + 0.25 * ix as f64;
                let y = -1.0 + 0.25 * iy as f64;
                assert_eq!(evaluate(kind, x, y, 80), evaluate(kind, x, y, 80));
            }
        }
    }
}

#[test]
fn escape_time_counts_the_points_before_the_escape() {
    let step = |z: u32| z + 1;
    let over_five = |z: u32| z > 5;
    assert_eq!(escape_time(0u32, &step, &over_five, 100), 6);
    assert_eq!(escape_time(4u32, &step, &over_five, 100), 2);
    assert_eq!(escape_time(0u32, &step, &over_five, 6), 6);
    assert_eq!(escape_time(0u32, &step, &over_five, 7), 6);
}

#[test]
fn escape_time_stops_at_the_budget() {
    let step = |z: u32| z + 1;
    let over_five = |z: u32| z > 5;
    assert_eq!(escape_time(0u32, &step, &over_five, 3), 3);
    assert_eq!(escape_time(0u32, &step, &|_z: u32| false, 1000), 1000);
}

#[test]
fn escape_time_tests_the_seed_before_any_update() {
    let step = |z: u32| z + 1;
    assert_eq!(escape_time(9u32, &step, &|z: u32| z > 5, 100), 0);
    assert_eq!(escape_time(0u32, &step, &|_z: u32| true, 100), 0);
}

#[test]
fn escape_time_hands_back_a_budget_that_is_not_positive() {
    let step = |z: u32| z + 1;
    assert_eq!(escape_time(0u32, &step, &|_z: u32| true, 0), 0);
    assert_eq!(escape_time(0u32, &step, &|_z: u32| true, -5), -5);
    assert_eq!(escape_time(0u32, &step, &|_z: u32| false, i32::MIN), i32::MIN);
}
