use shapes::{
    Chirality, Configuration, Golden, Orientation, PlatonicSolid, Shape, Shaper, SolidPoint,
    Winding,
};

fn make(solid: PlatonicSolid, request: Configuration) -> Shape<SolidPoint> {
    solid.make(request)
}

fn vertices(solid: PlatonicSolid) -> Vec<SolidPoint> {
    make(solid, Configuration::default()).vertices().clone()
}

fn uniform_distance(solid: PlatonicSolid) {
    let vertices = vertices(solid);
    let r_squared = vertices[0].norm_squared_num();
    for vertex in &vertices {
        assert_eq!(vertex.norm_squared_num(), r_squared);
    }
}

fn unit_neighbour(vertices: &[SolidPoint], a: usize, b: usize) {
    assert_eq!(vertices[a].distance_squared_num(&vertices[b]), Golden { a: 120, b: 0 });
}

const TETRAHEDRON_EDGES: [(usize, usize); 6] = [(0, 1), (0, 2), (0, 3), (1, 2), (1, 3), (2, 3)];

const HEXAHEDRON_EDGES: [(usize, usize); 12] = [
    (0, 1), (0, 2), (0, 4), (1, 3), (1, 5), (2, 3),
    (2, 6), (3, 7), (4, 5), (4, 6), (5, 7), (6, 7),
];

const OCTAHEDRON_EDGES: [(usize, usize); 12] = [
    (0, 1), (0, 2), (0, 3), (0, 4), (1, 2), (1, 4),
    (1, 5), (2, 3), (2, 5), (3, 4), (3, 5), (4, 5),
];

const DODECAHEDRON_EDGES: [(usize, usize); 30] = [
    (0, 1), (0, 2), (0, 5), (1, 3), (1, 6), (2, 4), (2, 7), (3, 4), (3, 8), (4, 9),
    (5, 10), (5, 11), (6, 10), (6, 12), (7, 11), (7, 13), (8, 12), (8, 14), (9, 13), (9, 14),
    (10, 15), (11, 16), (12, 17), (13, 18), (14, 19), (15, 16), (15, 17), (16, 18), (17, 19), (18, 19),
];

const ICOSAHEDRON_EDGES: [(usize, usize); 30] = [
    (0, 1), (0, 2), (0, 3), (0, 4), (0, 5), (1, 2), (1, 3), (1, 6), (1, 7), (2, 4),
    (2, 6), (2, 8), (3, 5), (3, 7), (3, 9), (4, 5), (4, 8), (4, 10), (5, 9), (5, 10),
    (6, 7), (6, 8), (6, 11), (7, 9), (7, 11), (8, 10), (8, 11), (9, 10), (9, 11), (10, 11),
];

fn all_unit(solid: PlatonicSolid, edges: &[(usize, usize)]) {
    let vertices = vertices(solid);
    for &(a, b) in edges {
        unit_neighbour(&vertices, a, b);
    }
}

#[test]
fn tetrahedron_centered() {
    uniform_distance(PlatonicSolid::Tetrahedron);
}

#[test]
fn tetrahedron_edges() {
    all_unit(PlatonicSolid::Tetrahedron, &TETRAHEDRON_EDGES);
}

#[test]
fn hexahedron_centered() {
    uniform_distance(PlatonicSolid::Hexahedron);
}

#[test]
fn hexahedron_edges() {
    all_unit(PlatonicSolid::Hexahedron, &HEXAHEDRON_EDGES);
}

#[test]
fn octahedron_centered() {
    uniform_distance(PlatonicSolid::Octahedron);
}

#[test]
fn octahedron_edges() {
    all_unit(PlatonicSolid::Octahedron, &OCTAHEDRON_EDGES);
}

#[test]
fn dodecahedron_centered() {
    uniform_distance(PlatonicSolid::Dodecahedron);
}

#[test]
fn dodecahedron_edges() {
    all_unit(PlatonicSolid::Dodecahedron, &DODECAHEDRON_EDGES);
}

#[test]
fn icosahedron_centered() {
    uniform_distance(PlatonicSolid::Icosahedron);
}

#[test]
fn icosahedron_edges() {
    all_unit(PlatonicSolid::Icosahedron, &ICOSAHEDRON_EDGES);
}

#[test]
fn platonic_solids_tetrahedron_centered() {
    uniform_distance(PlatonicSolid::Tetrahedron);
}

#[test]
fn platonic_solids_tetrahedron_edges() {
    all_unit(PlatonicSolid::Tetrahedron, &TETRAHEDRON_EDGES);
}

#[test]
fn platonic_solids_hexahedron_centered() {
    uniform_distance(PlatonicSolid::Hexahedron);
}

#[test]
fn platonic_solids_hexahedron_edges() {
    all_unit(PlatonicSolid::Hexahedron, &HEXAHEDRON_EDGES);
}

#[test]
fn platonic_solids_octahedron_centered() {
    uniform_distance(PlatonicSolid::Octahedron);
}

#[test]
fn platonic_solids_octahedron_edges() {
    all_unit(PlatonicSolid::Octahedron, &OCTAHEDRON_EDGES);
}

#[test]
fn platonic_solids_dodecahedron_centered() {
    uniform_distance(PlatonicSolid::Dodecahedron);
}

#[test]
fn platonic_solids_dodecahedron_edges() {
    all_unit(PlatonicSolid::Dodecahedron, &DODECAHEDRON_EDGES);
}

#[test]
fn platonic_solids_icosahedron_centered() {
    uniform_distance(PlatonicSolid::Icosahedron);
}

#[test]
fn platonic_solids_icosahedron_edges() {
    all_unit(PlatonicSolid::Icosahedron, &ICOSAHEDRON_EDGES);
}

const ALL: [PlatonicSolid; 5] = [
    PlatonicSolid::Tetrahedron,
    PlatonicSolid::Hexahedron,
    PlatonicSolid::Octahedron,
    PlatonicSolid::Dodecahedron,
    PlatonicSolid::Icosahedron,
];

#[test]
fn vertex_counts() {
    let counts: Vec<usize> = ALL.iter().map(|&s| vertices(s).len()).collect();
    assert_eq!(counts, vec![4, 8, 6, 20, 12]);
}

fn triangle_indices(shape: &Shape<SolidPoint>) -> Vec<u32> {
    match shape {
        Shape::Triangles { indices, .. } => indices.clone(),
        _ => panic!("expected a triangle list"),
    }
}

#[test]
fn index_counts() {
    let counts: Vec<usize> =
        ALL.iter().map(|&s| triangle_indices(&make(s, Configuration::default())).len()).collect();
    assert_eq!(counts, vec![12, 36, 24, 108, 60]);
}

#[test]
fn circumradius_of_the_cube() {
    // |v|² = 3/4, so 120·|v|² = 90.
    assert_eq!(vertices(PlatonicSolid::Hexahedron)[0].norm_squared_num(), Golden { a: 90, b: 0 });
}

#[test]
fn circumradius_of_the_dodecahedron() {
    // |v|² = 3φ²/4, so 120·|v|² = 90φ² = 90 + 90φ.
    assert_eq!(vertices(PlatonicSolid::Dodecahedron)[0].norm_squared_num(), Golden { a: 90, b: 90 });
}

#[test]
fn strips_unroll_to_the_triangle_list() {
    for solid in ALL {
        let strips = match make(solid, Configuration { prefer_strips: true, ..Configuration::default() }) {
            Shape::Strips { strips, .. } => strips,
            _ => panic!("expected strips"),
        };
        let unrolled = shapes::strips_to_triangles(&strips);
        assert_eq!(unrolled, triangle_indices(&make(solid, Configuration::default())));
    }
}

#[test]
fn each_face_once() {
    for solid in ALL {
        let indices = triangle_indices(&make(solid, Configuration::default()));
        let mut faces: Vec<[u32; 3]> = indices
            .chunks(3)
            .map(|t| {
                let mut f = [t[0], t[1], t[2]];
                f.sort();
                f
            })
            .collect();
        let total = faces.len();
        faces.sort();
        faces.dedup();
        assert_eq!(faces.len(), total);
    }
}

#[test]
fn left_handed_mirrors_z() {
    let left = Configuration {
        orientation: Orientation { chirality: Chirality::Left, winding: Winding::Counterclockwise },
        ..Configuration::default()
    };
    for solid in ALL {
        let right = vertices(solid);
        let shape = make(solid, left);
        for (l, r) in shape.vertices().iter().zip(right.iter()) {
            assert_eq!(l.x, r.x);
            assert_eq!(l.y, r.y);
            assert_eq!(l.z.value, Golden { a: -r.z.value.a, b: -r.z.value.b });
        }
        assert_eq!(triangle_indices(&shape), triangle_indices(&make(solid, Configuration::default())));
    }
}

#[test]
fn clockwise_mirrors_x() {
    let cw = Configuration {
        orientation: Orientation { chirality: Chirality::Right, winding: Winding::Clockwise },
        ..Configuration::default()
    };
    let shape = make(PlatonicSolid::Tetrahedron, cw);
    let ccw = vertices(PlatonicSolid::Tetrahedron);
    assert_eq!(shape.vertices()[0].x.value, Golden { a: 1, b: 0 });
    assert_eq!(ccw[0].x.value, Golden { a: -1, b: 0 });
}

#[test]
fn normals_are_not_generated_for_solids() {
    let request = Configuration { generate_normals: true, ..Configuration::default() };
    assert!(matches!(make(PlatonicSolid::Octahedron, request), Shape::Triangles { .. }));
}

#[test]
fn solid_same_inputs_same_outputs() {
    for solid in ALL {
        let a = make(solid, Configuration::default());
        let b = make(solid, Configuration::default());
        assert_eq!(a.vertices(), b.vertices());
        assert_eq!(triangle_indices(&a), triangle_indices(&b));
    }
}

fn position(p: &SolidPoint) -> [f64; 3] {
    let phi = (1.0 + 5f64.sqrt()) / 2.0;
    let coordinate = |c: shapes::Coordinate| {
        (c.value.a as f64 + c.value.b as f64 * phi) * ((c.scale.a as f64 + c.scale.b as f64 * phi) / 120.0).sqrt()
    };
    [coordinate(p.x), coordinate(p.y), coordinate(p.z)]
}

fn triple(a: [f64; 3], b: [f64; 3], c: [f64; 3]) -> f64 {
    a[0] * (b[1] * c[2] - b[2] * c[1]) - a[1] * (b[0] * c[2] - b[2] * c[0]) + a[2] * (b[0] * c[1] - b[1] * c[0])
}

#[test]
fn faces_point_outward() {
    for solid in ALL {
        let shape = make(solid, Configuration::default());
        let v: Vec<[f64; 3]> = shape.vertices().iter().map(position).collect();
        for t in triangle_indices(&shape).chunks(3) {
            assert!(triple(v[t[0] as usize], v[t[1] as usize], v[t[2] as usize]) > 0.0);
        }
    }
}

#[test]
fn clockwise_faces_turn_around() {
    let cw = Configuration {
        orientation: Orientation { chirality: Chirality::Right, winding: Winding::Clockwise },
        ..Configuration::default()
    };
    for solid in ALL {
        let shape = make(solid, cw);
        let v: Vec<[f64; 3]> = shape.vertices().iter().map(position).collect();
        for t in triangle_indices(&shape).chunks(3) {
            assert!(triple(v[t[0] as usize], v[t[1] as usize], v[t[2] as usize]) < 0.0);
        }
    }
}

#[test]
fn dodecahedron_matches_closed_form() {
    // The apex of the upper ring, as the closed-form derivation places it.
    let sr5 = 5f64.sqrt();
    let height = 0.25 * (10.0 + 2.0 * sr5).sqrt() + 0.25 * (10.0 - 2.0 * sr5).sqrt();
    let circle_radius = 0.25 * (3.0 + sr5) / height;
    let half_iz = 0.5 * (0.5 - 0.1 * sr5).sqrt();
    let apex = position(&vertices(PlatonicSolid::Dodecahedron)[0]);
    assert!(apex[0].abs() < 1e-12);
    assert!((apex[1] - circle_radius).abs() < 1e-12);
    assert!((apex[2] - (circle_radius + half_iz)).abs() < 1e-12);
}
