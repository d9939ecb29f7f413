use mediapipe_rotations::landmark::{remap_axes, Point};

fn point(x: f32, y: f32, z: f32) -> Point {
    Point { x: x.to_bits(), y: y.to_bits(), z: z.to_bits() }
}

fn coordinates(p: Point) -> [f64; 3] {
    [f32::from_bits(p.x) as f64, f32::from_bits(p.y) as f64, f32::from_bits(p.z) as f64]
}

/// The squared differences along the three axes, smallest first, so that their sum
/// does not depend on the order of the axes.
fn squared_distance(p: Point, q: Point) -> f64 {
    let a = coordinates(p);
    let b = coordinates(q);
    let mut squares = [(a[0] - b[0]).powi(2), (a[1] - b[1]).powi(2), (a[2] - b[2]).powi(2)];
    squares.sort_by(|x, y| x.total_cmp(y));
    squares[0] + squares[1] + squares[2]
}

#[test]
fn remap_turns_x_y_z_into_minus_x_z_minus_y() {
    assert_eq!(point(1.0, 2.0, 3.0).remap(), point(-1.0, 3.0, -2.0));
    assert_eq!(point(-0.25, -4.0, 0.5).remap(), point(0.25, 0.5, 4.0));
}

#[test]
fn remap_keeps_the_origin_at_zero() {
    let origin = point(0.0, 0.0, 0.0).remap();
    assert_eq!(f32::from_bits(origin.x), 0.0);
    assert_eq!(f32::from_bits(origin.y), 0.0);
    assert_eq!(f32::from_bits(origin.z), 0.0);
    assert_eq!(origin, point(-0.0, 0.0, -0.0));
}

#[test]
fn remap_keeps_an_undefined_coordinate_undefined() {
    let p = point(f32::NAN, 1.0, f32::NAN).remap();
    assert!(f32::from_bits(p.x).is_nan());
    assert!(f32::from_bits(p.y).is_nan());
    assert_eq!(f32::from_bits(p.z), -1.0);
}

#[test]
fn remap_axes_maps_every_point_in_order() {
    let points = [point(1.0, 2.0, 3.0), point(0.0, 0.0, 0.0), point(-5.5, 0.125, 7.0)];
    let out = remap_axes(&points);
    assert_eq!(out.len(), 3);
    for i in 0..3 {
        assert_eq!(out[i], points[i].remap());
    }
    assert_eq!(out[2], point(5.5, 7.0, -0.125));
    assert!(remap_axes(&[]).is_empty());
}

#[test]
fn remap_preserves_pairwise_distances_exactly() {
    let points = [
        point(-0.012344579, 0.07004635, 0.020521902),
        point(0.018071463, 0.047368426, 0.010523391),
        point(0.024736207, -0.006148996, 0.0019370222),
        point(-0.035193909, 0.013850257, -0.003708519),
        point(1.0e-40, -3.0e38, 2.5),
    ];
    let out = remap_axes(&points);
    for i in 0..points.len() {
        for j in 0..points.len() {
            assert_eq!(squared_distance(out[i], out[j]), squared_distance(points[i], points[j]));
        }
    }
}

#[test]
fn point_arrays_are_in_the_order_x_y_z() {
    let p = Point::from_array([7, 8, 9]);
    assert_eq!(p, Point { x: 7, y: 8, z: 9 });
    assert_eq!(p.to_array(), [7, 8, 9]);
}
