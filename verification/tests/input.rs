use geo_bound_voronoi::input::{BoundedPointSet, Bounds, Point2D};

fn bits(points: &[[f64; 2]]) -> Vec<(u64, u64)> {
    points.iter().map(|p| (p[0].to_bits(), p[1].to_bits())).collect()
}

#[test]
fn test_boundedpointset_bounding_polygon_valid() {
    let poly_points = vec![
        [-10.0, -20.0],
        [0.0, 0.0],
        [1.0, 15.0],
        [234.0, -2.1],
        [23.4, 0.1],
        [-10.0, -20.0],
    ];
    let bps = BoundedPointSet::new(vec![], bits(&poly_points));
    let bounding_poly = bps.bounding_polygon().unwrap();

    assert_eq!(bounding_poly.ring().len(), poly_points.len());
    for (i, c) in bounding_poly.ring().iter().enumerate() {
        assert_eq!(c.0, poly_points[i][0].to_bits());
        assert_eq!(c.1, poly_points[i][1].to_bits());
    }
}

#[test]
fn test_boundedpointset_bounding_polygon_invalid() {
    // To few points for a proper polygon.
    let poly_points = vec![[0.0, 0.0], [1.0, 1.0]];
    let bps = BoundedPointSet::new(vec![], bits(&poly_points));
    assert!(bps.bounding_polygon().is_err())
}

#[test]
fn test_boundedpointset_point_set() {
    // 4 unique values.
    let point_set_duplicates: Vec<[f64; 2]> = vec![
        [0.0, 0.0],
        [1.0, 1.0],
        [1.00000000000001, 1.0],
        [15.6, 19930.0],
        [1.0, 1.0],
    ];
    let points: Vec<Point2D> = point_set_duplicates
        .iter()
        .map(|p| Point2D::new(p[0].to_bits(), p[1].to_bits()).unwrap())
        .collect();
    let bps = BoundedPointSet::new(bits(&point_set_duplicates), vec![]);
    let point_set_unique = bps.point_set();
    assert_eq!(point_set_unique.len(), 4);
    for point in points {
        assert!(point_set_unique.contains(&point));
    }
}

#[test]
fn test_boundedpointset_voronoi_point_set() {
    // 4 unique values.
    let point_set_duplicates = vec![
        [0.0, 0.0],
        [1.0, 1.0],
        [1.00000000000001, 1.0],
        [15.6, 19930.0],
        [1.0, 1.0],
    ];
    let bps = BoundedPointSet::new(bits(&point_set_duplicates), vec![]);
    let point_set_voronoi = bps.voronoi_point_set();
    let point_set_voronoi_converted: Vec<[f64; 2]> = point_set_voronoi
        .iter()
        .map(|p| [f64::from_bits(p.0), f64::from_bits(p.1)])
        .collect();
    assert_eq!(point_set_voronoi.len(), 4);
    assert_eq!(point_set_voronoi.len(), point_set_voronoi_converted.len());
    for point in point_set_duplicates {
        assert!(point_set_voronoi_converted.contains(&point));
    }
}

#[test]
fn test_point_set_keeps_first_appearance_order() {
    let raw = vec![[2.0, 2.0], [1.0, 1.0], [2.0, 2.0], [3.0, 3.0], [1.0, 1.0]];
    let bps = BoundedPointSet::new(bits(&raw), vec![]);
    let unique = bps.point_set();
    let expected: [[f64; 2]; 3] = [[2.0, 2.0], [1.0, 1.0], [3.0, 3.0]];
    assert_eq!(unique.len(), expected.len());
    for (p, e) in unique.iter().zip(expected.iter()) {
        assert_eq!(p.x(), e[0].to_bits());
        assert_eq!(p.y(), e[1].to_bits());
    }
}

#[test]
fn test_point_set_drops_unusable_coordinates() {
    let raw = vec![
        (f64::NAN.to_bits(), 0f64.to_bits()),
        (1f64.to_bits(), f64::INFINITY.to_bits()),
        (1f64.to_bits(), 2f64.to_bits()),
        (1.0e-308f64.to_bits(), 2f64.to_bits()),
    ];
    let bps = BoundedPointSet::new(raw, vec![]);
    let unique = bps.point_set();
    assert_eq!(unique.len(), 1);
    assert_eq!(unique[0].x(), 1f64.to_bits());
    assert_eq!(unique[0].y(), 2f64.to_bits());
}

#[test]
fn test_point2d_new_valid() {
    let x = (-10.0f64).to_bits();
    let y = 28.0f64.to_bits();
    let point = Point2D::new(x, y).unwrap();
    assert_eq!(point.x(), x);
    assert_eq!(point.y(), y);
}

#[test]
fn test_point2d_new_invalid() {
    let ten = (-10.0f64).to_bits();
    assert!(Point2D::new(f64::INFINITY.to_bits(), ten).is_none());
    assert!(Point2D::new(f64::NEG_INFINITY.to_bits(), ten).is_none());
    assert!(Point2D::new(f64::NAN.to_bits(), ten).is_none());
    assert!(Point2D::new(1.0e-308f64.to_bits(), ten).is_none());
    assert!(Point2D::new(0.0f64.to_bits(), ten).is_some());
    let ten = 10.0f64.to_bits();
    assert!(Point2D::new(ten, f64::INFINITY.to_bits()).is_none());
    assert!(Point2D::new(ten, f64::NEG_INFINITY.to_bits()).is_none());
    assert!(Point2D::new(ten, f64::NAN.to_bits()).is_none());
    assert!(Point2D::new(ten, 1.0e-308f64.to_bits()).is_none());
    assert!(Point2D::new(ten, 0.0f64.to_bits()).is_some());
}

#[test]
fn test_point2d_new_negative_zero_and_subnormal_edge() {
    assert!(Point2D::new((-0.0f64).to_bits(), (-0.0f64).to_bits()).is_some());
    // The largest subnormal magnitude is rejected, the smallest normal one accepted.
    let largest_subnormal = f64::from_bits(0x000f_ffff_ffff_ffff);
    let smallest_normal = f64::MIN_POSITIVE;
    assert!(Point2D::new(largest_subnormal.to_bits(), 0f64.to_bits()).is_none());
    assert!(Point2D::new(smallest_normal.to_bits(), 0f64.to_bits()).is_some());
}

#[test]
fn test_bounds_from_polygon_valid() {
    let ring = vec![
        [-1.0, -2.0],
        [2.0, -5.0],
        [10.0, 20.0],
        [15.0, 55.0],
        [8.0, 4.0],
        [-1.0, -2.0],
    ];
    let bounds = Bounds::from_polygon(&bits(&ring)).unwrap();
    assert_eq!(bounds.min_x(), (-1.0f64).to_bits());
    assert_eq!(bounds.max_x(), 15.0f64.to_bits());
    assert_eq!(bounds.min_y(), (-5.0f64).to_bits());
    assert_eq!(bounds.max_y(), 55.0f64.to_bits());
}

#[test]
fn test_bounds_from_polygon_invalid() {
    let ring: Vec<(u64, u64)> = Vec::new();
    assert!(Bounds::from_polygon(&ring).is_none());
}

#[test]
fn test_bounds_from_point_set_valid() {
    let point_set: Vec<Point2D> = [
        (-1.0, -2.0),
        (2.0, -5.0),
        (10.0, 20.0),
        (15.0, 55.0),
        (8.0, 4.0),
        (-1.0, -2.0),
    ]
    .iter()
    .map(|&(x, y): &(f64, f64)| Point2D::new(x.to_bits(), y.to_bits()).unwrap())
    .collect();
    let bounds = Bounds::from_point_set(&point_set).unwrap();
    assert_eq!(bounds.min_x(), (-1.0f64).to_bits());
    assert_eq!(bounds.max_x(), 15.0f64.to_bits());
    assert_eq!(bounds.min_y(), (-5.0f64).to_bits());
    assert_eq!(bounds.max_y(), 55.0f64.to_bits());
}

#[test]
fn test_bounds_from_point_set_invalid() {
    let bounds = Bounds::from_point_set(&Vec::new());
    assert!(bounds.is_none())
}

#[test]
fn test_bounds_width_and_height_are_nonnegative() {
    // Extent invariant, read back in floating point: max - min >= 0 per axis.
    let point_set: Vec<Point2D> = [(3.5, -7.25), (-2.0, 9.0), (0.0, 0.0)]
        .iter()
        .map(|&(x, y): &(f64, f64)| Point2D::new(x.to_bits(), y.to_bits()).unwrap())
        .collect();
    let bounds = Bounds::from_point_set(&point_set).unwrap();
    let width = f64::from_bits(bounds.max_x()) - f64::from_bits(bounds.min_x());
    let height = f64::from_bits(bounds.max_y()) - f64::from_bits(bounds.min_y());
    assert!(width >= 0.0);
    assert!(height >= 0.0);
    let centre_x = f64::from_bits(bounds.min_x()) + width / 2.0;
    let centre_y = f64::from_bits(bounds.min_y()) + height / 2.0;
    assert!(f64::from_bits(bounds.min_x()) <= centre_x && centre_x <= f64::from_bits(bounds.max_x()));
    assert!(f64::from_bits(bounds.min_y()) <= centre_y && centre_y <= f64::from_bits(bounds.max_y()));
    assert_eq!(width, 5.5);
    assert_eq!(height, 16.25);
}

#[test]
fn test_bounds_single_point() {
    let point_set = vec![Point2D::new(4.0f64.to_bits(), (-4.0f64).to_bits()).unwrap()];
    let bounds = Bounds::from_point_set(&point_set).unwrap();
    assert_eq!(bounds.min_x(), bounds.max_x());
    assert_eq!(bounds.min_y(), bounds.max_y());
    assert_eq!(bounds.min_x(), 4.0f64.to_bits());
    assert_eq!(bounds.min_y(), (-4.0f64).to_bits());
}
