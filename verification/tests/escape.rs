use mandelbrot::escape::{calc_mandelbrot_point, color_for, EscapeLoop, FRACTAL_ITERATIONS};
use mandelbrot::point::VirtualPoint;

const FRACTAL_ESCAPE: f64 = 2.0;

fn point(x: f64, y: f64) -> VirtualPoint {
    VirtualPoint { x: x.to_bits(), y: y.to_bits(), color: (0, 0, 0) }
}

/// Iterates `z -> z*z + c` from `z = c`, handing each step's outcome to
/// the library's loop.
fn escape_count(x: f64, y: f64) -> i32 {
    let mut prev_x = x;
    let mut prev_y = y;
    let mut state = EscapeLoop::start();
    loop {
        let next_x = (prev_x * prev_x) - (prev_y * prev_y) + x;
        let next_y = (2.0 * (prev_x * prev_y)) + y;
        let dist = (next_x * next_x + next_y * next_y).sqrt();
        prev_x = next_x;
        prev_y = next_y;
        if let Some(count) = state.advance(dist > FRACTAL_ESCAPE) {
            return count;
        }
    }
}

/// The same iteration with a counting loop of its own.
fn counted_escape(x: f64, y: f64) -> i32 {
    let mut prev_x = x;
    let mut prev_y = y;
    let mut escape_count = 0;
    for count in 0..255 {
        escape_count = count;
        let next_x = (prev_x * prev_x) - (prev_y * prev_y) + x;
        let next_y = (2.0 * (prev_x * prev_y)) + y;
        let dist = (next_x * next_x + next_y * next_y).sqrt();
        prev_x = next_x;
        prev_y = next_y;
        if dist > FRACTAL_ESCAPE {
            break;
        }
    }
    escape_count
}

fn evaluate(x: f64, y: f64) -> Option<VirtualPoint> {
    calc_mandelbrot_point(&point(x, y), escape_count(x, y))
}

#[test]
fn iteration_cap_is_255() {
    assert_eq!(FRACTAL_ITERATIONS, 255);
}

#[test]
fn origin_never_escapes_and_is_not_drawn() {
    assert_eq!(escape_count(0.0, 0.0), 254);
    assert_eq!(evaluate(0.0, 0.0), None);
}

#[test]
fn far_corner_escapes_at_once_and_is_not_drawn() {
    assert_eq!(escape_count(2.0, 2.0), 0);
    assert_eq!(evaluate(2.0, 2.0), None);
}

#[test]
fn point_escaping_in_second_step_is_drawn() {
    // c = 1: z = 1, 2, 5; the modulus exceeds 2 after the second step.
    assert_eq!(escape_count(1.0, 0.0), 1);
    assert_eq!(
        evaluate(1.0, 0.0),
        Some(VirtualPoint { x: 1.0f64.to_bits(), y: 0.0f64.to_bits(), color: (10, 1, 1) })
    );
}

#[test]
fn loop_agrees_with_counting_loop_over_the_plane() {
    let mut drawn = 0;
    let mut seen_counts = [false; 255];
    for col in 0..=80 {
        for row in 0..=80 {
            let x = -2.0 + 0.05 * col as f64;
            let y = -2.0 + 0.05 * row as f64;
            let count = escape_count(x, y);
            assert_eq!(count, counted_escape(x, y), "at ({x}, {y})");
            assert!((0..=254).contains(&count));
            seen_counts[count as usize] = true;
            if evaluate(x, y).is_some() {
                drawn += 1;
            }
        }
    }
    assert!(seen_counts[0] && seen_counts[254]);
    assert!(drawn > 0);
}

#[test]
fn loop_stops_at_first_exceedance() {
    let mut state = EscapeLoop::start();
    for _ in 0..7 {
        assert_eq!(state.advance(false), None);
    }
    assert_eq!(state.advance(true), Some(7));
}

#[test]
fn loop_stops_in_first_step_when_it_exceeds() {
    let mut state = EscapeLoop::start();
    assert_eq!(state.advance(true), Some(0));
}

#[test]
fn loop_stops_after_255_steps() {
    let mut state = EscapeLoop::start();
    for _ in 0..254 {
        assert_eq!(state.advance(false), None);
    }
    assert_eq!(state.advance(false), Some(254));
}

#[test]
fn last_step_ends_the_loop_whatever_it_finds() {
    let mut state = EscapeLoop::start();
    for _ in 0..254 {
        assert_eq!(state.advance(false), None);
    }
    assert_eq!(state.advance(true), Some(254));
}

#[test]
fn exceedance_just_before_the_last_step_is_drawn() {
    let mut state = EscapeLoop::start();
    for _ in 0..253 {
        assert_eq!(state.advance(false), None);
    }
    assert_eq!(state.advance(true), Some(253));
    assert_eq!(color_for(253), Some((255, 253, 253)));
}

#[test]
fn count_zero_has_no_color() {
    assert_eq!(color_for(0), None);
}

#[test]
fn last_count_and_beyond_have_no_color() {
    assert_eq!(color_for(254), None);
    assert_eq!(color_for(255), None);
    assert_eq!(color_for(i32::MAX), None);
}

#[test]
fn negative_counts_have_no_color() {
    assert_eq!(color_for(-1), None);
    assert_eq!(color_for(i32::MIN), None);
}

#[test]
fn red_grows_tenfold_and_saturates() {
    assert_eq!(color_for(1), Some((10, 1, 1)));
    assert_eq!(color_for(7), Some((70, 7, 7)));
    assert_eq!(color_for(25), Some((250, 25, 25)));
    assert_eq!(color_for(26), Some((255, 26, 26)));
    assert_eq!(color_for(100), Some((255, 100, 100)));
    assert_eq!(color_for(253), Some((255, 253, 253)));
}

#[test]
fn every_count_between_is_drawn_in_its_color() {
    let coord = point(-0.75, 0.25);
    for count in 1..254 {
        let red = if count * 10 < 255 { count * 10 } else { 255 } as u8;
        assert_eq!(
            calc_mandelbrot_point(&coord, count),
            Some(VirtualPoint { x: coord.x, y: coord.y, color: (red, count as u8, count as u8) })
        );
    }
}

#[test]
fn every_count_outside_is_dropped() {
    let coord = point(-0.75, 0.25);
    for count in [i32::MIN, -255, -1, 0, 254, 255, 256, 1000, i32::MAX] {
        assert_eq!(calc_mandelbrot_point(&coord, count), None);
    }
}

#[test]
fn incoming_color_is_ignored() {
    let coord = VirtualPoint { x: 0.5f64.to_bits(), y: (-0.5f64).to_bits(), color: (9, 9, 9) };
    assert_eq!(
        calc_mandelbrot_point(&coord, 3),
        Some(VirtualPoint { x: coord.x, y: coord.y, color: (30, 3, 3) })
    );
}
