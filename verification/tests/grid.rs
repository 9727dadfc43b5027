use mandelbrot::binary64::lt;
use mandelbrot::grid::draw_mandelbrot_init;
use mandelbrot::point::VirtualPoint;
use mandelbrot::view::Mandelbrot;

/// The values from `min` to `max` in steps of a `count`-th of the extent.
fn axis(min: f64, max: f64, count: i32) -> Vec<u64> {
    let delta = (max - min) / count as f64;
    let mut values = Vec::new();
    let mut value = min;
    while value <= max {
        values.push(value.to_bits());
        value += delta;
    }
    values
}

#[test]
fn grid_lists_each_column_before_the_next() {
    let xs = vec![1.0f64.to_bits(), 2.0f64.to_bits(), 3.0f64.to_bits()];
    let ys = vec![10.0f64.to_bits(), 20.0f64.to_bits()];
    let points = draw_mandelbrot_init(&xs, &ys);
    let expected: Vec<VirtualPoint> = [(1.0, 10.0), (1.0, 20.0), (2.0, 10.0), (2.0, 20.0), (3.0, 10.0), (3.0, 20.0)]
        .iter()
        .map(|&(x, y): &(f64, f64)| VirtualPoint { x: x.to_bits(), y: y.to_bits(), color: (0, 0, 0) })
        .collect();
    assert_eq!(points, expected);
}

#[test]
fn grid_point_stands_at_column_times_rows_plus_row() {
    let xs: Vec<u64> = (0..7).collect();
    let ys: Vec<u64> = (100..105).collect();
    let points = draw_mandelbrot_init(&xs, &ys);
    assert_eq!(points.len(), 35);
    for col in 0..7 {
        for row in 0..5 {
            assert_eq!(
                points[col * 5 + row],
                VirtualPoint { x: col as u64, y: 100 + row as u64, color: (0, 0, 0) }
            );
        }
    }
}

#[test]
fn grid_without_columns_or_rows_is_empty() {
    let some = vec![1.0f64.to_bits(), 2.0f64.to_bits()];
    let none: Vec<u64> = Vec::new();
    assert!(draw_mandelbrot_init(&none, &some).is_empty());
    assert!(draw_mandelbrot_init(&some, &none).is_empty());
    assert!(draw_mandelbrot_init(&none, &none).is_empty());
}

#[test]
fn initial_grid_has_about_640000_points_inside_the_viewport() {
    let view = Mandelbrot::new().viewport();
    let (xmin, xmax) = (f64::from_bits(view.xmin), f64::from_bits(view.xmax));
    let (ymin, ymax) = (f64::from_bits(view.ymin), f64::from_bits(view.ymax));
    let xs = axis(xmin, xmax, view.width);
    let ys = axis(ymin, ymax, view.height);
    let points = draw_mandelbrot_init(&xs, &ys);
    assert_eq!(points.len(), xs.len() * ys.len());
    assert!(points.len() >= 800 * 800 && points.len() <= 801 * 801);
    for point in &points {
        assert!(!lt(point.x, view.xmin) && !lt(view.xmax, point.x));
        assert!(!lt(point.y, view.ymin) && !lt(view.ymax, point.y));
        assert_eq!(point.color, (0, 0, 0));
    }
    assert_eq!(points[0].x, view.xmin);
    assert_eq!(points[0].y, view.ymin);
    assert_eq!(points[1].x, view.xmin);
}
