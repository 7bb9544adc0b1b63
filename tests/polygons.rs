use shapes::{
    Chirality, Configuration, Orientation, PlanePoint, Polygon, Polygons, Shape, ShapeError,
    Shaper, Winding,
};

fn polygon(sides: u16) -> Polygon {
    match Polygon::new(sides) {
        Ok(p) => p,
        Err(_) => panic!("a polygon with {} sides", sides),
    }
}

fn make(sides: u16, request: Configuration) -> Shape<PlanePoint> {
    polygon(sides).make(request)
}

/// The position of a point of the plane, evaluated in floating point.
fn position(p: &PlanePoint) -> [f64; 3] {
    match *p {
        PlanePoint::OnCircle { sides, turn } => {
            let n = sides as f64;
            let r = 1.0 / (2.0 * (std::f64::consts::PI / n).sin());
            let theta = turn as f64 * std::f64::consts::PI / n;
            [r * theta.sin(), r * theta.cos(), 0.0]
        }
        PlanePoint::Axis { z } => [0.0, 0.0, z as f64],
    }
}

fn distance(a: [f64; 3], b: [f64; 3]) -> f64 {
    ((a[0] - b[0]).powi(2) + (a[1] - b[1]).powi(2) + (a[2] - b[2]).powi(2)).sqrt()
}

fn turns(shape: &Shape<PlanePoint>) -> Vec<u32> {
    shape
        .vertices()
        .iter()
        .map(|p| match p {
            PlanePoint::OnCircle { turn, .. } => *turn,
            PlanePoint::Axis { .. } => panic!("a vertex off the circle"),
        })
        .collect()
}

fn indices(shape: &Shape<PlanePoint>) -> Vec<u32> {
    match shape {
        Shape::Triangles { indices, .. } => indices.clone(),
        Shape::NormalTriangles { indices, .. } => indices.clone(),
        Shape::Strips { .. } => panic!("expected a triangle list"),
    }
}

#[test]
fn degenerate_polygons_are_rejected() {
    assert!(matches!(Polygon::new(0), Err(ShapeError::DegenerateShapeRequest)));
    assert!(matches!(Polygon::new(1), Err(ShapeError::DegenerateShapeRequest)));
    assert!(matches!(Polygon::new(2), Err(ShapeError::DegenerateShapeRequest)));
    assert!(Polygon::new(3).is_ok());
    assert_eq!(polygon(3).sides(), 3);
}

#[test]
fn square_from_the_default_configuration() {
    let shape = make(4, Configuration::default());
    assert!(matches!(shape, Shape::Triangles { .. }));
    assert_eq!(shape.vertices().len(), 4);
    assert_eq!(indices(&shape), vec![0, 1, 2, 2, 1, 3]);
    assert_eq!(turns(&shape), vec![1, 7, 3, 5]);
    let corners: Vec<[f64; 3]> = shape.vertices().iter().map(position).collect();
    for c in &corners {
        assert!((c[0].abs() - 0.5).abs() < 1e-12);
        assert!((c[1].abs() - 0.5).abs() < 1e-12);
    }
    let sum: f64 = corners.iter().map(|c| c[0] + c[1]).sum();
    assert!(sum.abs() < 1e-12);
}

#[test]
fn triangle_ring() {
    // Apex first, then the mirrored pair below it.
    assert_eq!(turns(&make(3, Configuration::default())), vec![0, 4, 2]);
}

#[test]
fn vertex_and_index_counts() {
    for n in [3u16, 4, 5, 6, 7, 12, 100, 1001] {
        let shape = make(n, Configuration::default());
        assert_eq!(shape.vertices().len(), n as usize);
        assert_eq!(indices(&shape).len(), 3 * (n as usize - 2));
    }
}

#[test]
fn all_vertices_equidistant_and_edges_unit() {
    for n in [3u16, 4, 5, 6, 7, 8, 9, 10, 11, 12, 64] {
        let shape = make(n, Configuration::default());
        let v: Vec<[f64; 3]> = shape.vertices().iter().map(position).collect();
        let r = distance(v[0], [0.0; 3]);
        for p in &v {
            assert!((distance(*p, [0.0; 3]) - r).abs() < 1e-9);
        }
        let k = v.len();
        for i in 0..k - 2 {
            assert!((distance(v[i], v[i + 2]) - 1.0).abs() < 1e-9);
        }
        assert!((distance(v[0], v[1]) - 1.0).abs() < 1e-9);
        assert!((distance(v[k - 2], v[k - 1]) - 1.0).abs() < 1e-9);
    }
}

#[test]
fn strips_walk_the_emission_order() {
    let shape = make(5, Configuration { prefer_strips: true, ..Configuration::default() });
    match &shape {
        Shape::Strips { strips, .. } => assert_eq!(strips, &vec![vec![0, 1, 2, 3, 4]]),
        _ => panic!("expected strips"),
    }
    let unrolled = match &shape {
        Shape::Strips { strips, .. } => shapes::strips_to_triangles(strips),
        _ => unreachable!(),
    };
    assert_eq!(unrolled, indices(&make(5, Configuration::default())));
}

#[test]
fn one_normal_per_chirality() {
    let right = make(6, Configuration { generate_normals: true, ..Configuration::default() });
    match right {
        Shape::NormalTriangles { normals, .. } => assert_eq!(normals, vec![PlanePoint::Axis { z: 1 }]),
        _ => panic!("expected normals"),
    }
    let left = Configuration {
        orientation: Orientation { chirality: Chirality::Left, winding: Winding::Counterclockwise },
        generate_normals: true,
        prefer_strips: false,
    };
    match make(6, left) {
        Shape::NormalTriangles { normals, vertices, .. } => {
            assert_eq!(normals, vec![PlanePoint::Axis { z: -1 }]);
            assert_eq!(vertices, make(6, Configuration::default()).vertices().clone());
        }
        _ => panic!("expected normals"),
    }
}

#[test]
fn clockwise_mirrors_the_ring() {
    let cw = Configuration {
        orientation: Orientation { chirality: Chirality::Right, winding: Winding::Clockwise },
        ..Configuration::default()
    };
    assert_eq!(turns(&make(4, cw)), vec![7, 1, 5, 3]);
    assert_eq!(turns(&make(3, cw)), vec![0, 2, 4]);
    assert_eq!(indices(&make(4, cw)), indices(&make(4, Configuration::default())));
}

#[test]
fn named_polygons() {
    assert_eq!(Polygons::Trigon.sides(), 3);
    assert_eq!(Polygons::Pentagon.sides(), 5);
    assert_eq!(Polygons::Dodecagon.sides(), 12);
    assert_eq!(Polygons::NGon(17).sides(), 17);
}

#[test]
fn polygon_same_inputs_same_outputs() {
    let a = make(9, Configuration::default());
    let b = make(9, Configuration::default());
    assert_eq!(a.vertices(), b.vertices());
    assert_eq!(indices(&a), indices(&b));
}
