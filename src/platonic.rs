//! The five Platonic solids with unit edges, from tables of golden
//! coefficients and one strip traversal of the faces per solid.
use vstd::prelude::*;

use crate::exact::{
    coefficients, distance_num, front_facing, lemma_oriented_det, lemma_oriented_distance,
    lemma_oriented_norm, mirror_x, mirror_z, norm_num, oriented, same_frame, unit_apart, Coordinate,
    Golden, SolidPoint,
};
use crate::orientation::{
    with_chirality, with_strips, with_winding, Chirality, Configuration, Orientation, Winding,
};
use crate::shape::{
    face_indices, is_degenerate, is_strip_triangle, lemma_face_indices_len,
    lemma_list_faces_of_face_indices, lemma_strip_triangle_total_take, lemma_strips_faces_len,
    strip_triangle_total,
    lemma_strips_faces_are_strip_triangles, strip_triangle, strips_faces, strips_to_triangles,
    strips_view, Shape, ShapeView, Shaper,
};
use crate::solid_facts::{
    edge_fits, lemma_model_edges, lemma_model_norms, lemma_row_point_values, lemma_strip_fronts,
    lemma_strip_sides, row_coefficients, row_distance, row_fits, side_ok, triangle_front, triangle_ok,
};

verus! {

/// The golden coefficients `(ax, bx, ay, by, az, bz)` of a vertex: its
/// coordinates are `(ax + bx·φ, ay + by·φ, az + bz·φ)` times the solid's
/// scales.
pub type Row = (i32, i32, i32, i32, i32, i32);

/// The five Platonic solids.  Each is built with unit edges, centred at the
/// origin.
#[derive(Clone, Copy, PartialEq, Eq, Structural, Debug)]
pub enum PlatonicSolid {
    Tetrahedron,
    Hexahedron,
    Octahedron,
    Dodecahedron,
    Icosahedron,
}

/// The coefficients of a row as mathematical integers.
pub open spec fn row_ints(r: Row) -> (int, int, int, int, int, int) {
    (r.0 as int, r.1 as int, r.2 as int, r.3 as int, r.4 as int, r.5 as int)
}

/// The golden integer `a + b·φ`.
pub open spec fn golden(a: int, b: int) -> Golden {
    Golden { a: a as i64, b: b as i64 }
}

/// The point of a model row, scaled per axis.
pub open spec fn row_point(row: (int, int, int, int, int, int), scales: (Golden, Golden, Golden)) -> SolidPoint {
    SolidPoint {
        x: Coordinate { value: golden(row.0, row.1), scale: scales.0 },
        y: Coordinate { value: golden(row.2, row.3), scale: scales.1 },
        z: Coordinate { value: golden(row.4, row.5), scale: scales.2 },
    }
}

impl PlatonicSolid {
    /// The squared unit of each axis, over 120: a coordinate with golden
    /// coefficient `c` on an axis of scale `s` is `c·√(s/120)`.
    ///
    /// The tetrahedron stands on a face: its axes measure halves, `1/(2√6)`
    /// and `1/(2√3)`.  Cube and octahedron measure halves, the octahedron's
    /// height `1/√2`.  Dodecahedron and icosahedron measure halves across, and
    /// fractions of the pentagon's height `(√(10 - 2√5) + √(10 + 2√5))/4`
    /// along the other axes.
    pub open spec fn scale_ints(self) -> ((int, int), (int, int), (int, int)) {
        match self {
            PlatonicSolid::Tetrahedron => ((30, 0), (5, 0), (10, 0)),
            PlatonicSolid::Hexahedron => ((30, 0), (30, 0), (30, 0)),
            PlatonicSolid::Octahedron => ((30, 0), (60, 0), (30, 0)),
            PlatonicSolid::Dodecahedron => ((30, 0), (42, -24), (42, -24)),
            PlatonicSolid::Icosahedron => ((30, 0), (12, 6), (42, -24)),
        }
    }

    pub open spec fn spec_scales(self) -> (Golden, Golden, Golden) {
        let s = self.scale_ints();
        (golden(s.0.0, s.0.1), golden(s.1.0, s.1.1), golden(s.2.0, s.2.1))
    }

    pub fn scales(&self) -> (r: (Golden, Golden, Golden))
        ensures
            r == self.spec_scales(),
    {
        match self {
            PlatonicSolid::Tetrahedron => (
                Golden { a: 30, b: 0 },
                Golden { a: 5, b: 0 },
                Golden { a: 10, b: 0 },
            ),
            PlatonicSolid::Hexahedron => (
                Golden { a: 30, b: 0 },
                Golden { a: 30, b: 0 },
                Golden { a: 30, b: 0 },
            ),
            PlatonicSolid::Octahedron => (
                Golden { a: 30, b: 0 },
                Golden { a: 60, b: 0 },
                Golden { a: 30, b: 0 },
            ),
            PlatonicSolid::Dodecahedron => (
                Golden { a: 30, b: 0 },
                Golden { a: 42, b: -24 },
                Golden { a: 42, b: -24 },
            ),
            PlatonicSolid::Icosahedron => (
                Golden { a: 30, b: 0 },
                Golden { a: 12, b: 6 },
                Golden { a: 42, b: -24 },
            ),
        }
    }

    /// Row `i` of the model: the golden coefficients of vertex `i`,
    /// right-handed.
    pub open spec fn model_row(self, i: int) -> (int, int, int, int, int, int) {
        match self {
            PlatonicSolid::Tetrahedron => {
                if i == 0 {
                    (-1, 0, -1, 0, 1, 0)
                } else if i == 1 {
                    (1, 0, -1, 0, 1, 0)
                } else if i == 2 {
                    (0, 0, 3, 0, 0, 0)
                } else {
                    (0, 0, -1, 0, -2, 0)
                }
            },
            PlatonicSolid::Hexahedron => {
                if i == 0 {
                    (-1, 0, -1, 0, 1, 0)
                } else if i == 1 {
                    (1, 0, -1, 0, 1, 0)
                } else if i == 2 {
                    (-1, 0, 1, 0, 1, 0)
                } else if i == 3 {
                    (1, 0, 1, 0, 1, 0)
                } else if i == 4 {
                    (-1, 0, -1, 0, -1, 0)
                } else if i == 5 {
                    (1, 0, -1, 0, -1, 0)
                } else if i == 6 {
                    (-1, 0, 1, 0, -1, 0)
                } else {
                    (1, 0, 1, 0, -1, 0)
                }
            },
            PlatonicSolid::Octahedron => {
                if i == 0 {
                    (0, 0, 1, 0, 0, 0)
                } else if i == 1 {
                    (-1, 0, 0, 0, -1, 0)
                } else if i == 2 {
                    (-1, 0, 0, 0, 1, 0)
                } else if i == 3 {
                    (1, 0, 0, 0, 1, 0)
                } else if i == 4 {
                    (1, 0, 0, 0, -1, 0)
                } else {
                    (0, 0, -1, 0, 0, 0)
                }
            },
            PlatonicSolid::Dodecahedron => {
                if i == 0 {
                    (0, 0, 2, 2, 2, 3)
                } else if i == 1 {
                    (0, -1, 0, 1, 2, 3)
                } else if i == 2 {
                    (0, 1, 0, 1, 2, 3)
                } else if i == 3 {
                    (-1, 0, -1, -2, 2, 3)
                } else if i == 4 {
                    (1, 0, -1, -2, 2, 3)
                } else if i == 5 {
                    (0, 0, 2, 4, 0, 1)
                } else if i == 6 {
                    (-1, -1, 1, 1, 0, 1)
                } else if i == 7 {
                    (1, 1, 1, 1, 0, 1)
                } else if i == 8 {
                    (0, -1, -2, -3, 0, 1)
                } else if i == 9 {
                    (0, 1, -2, -3, 0, 1)
                } else if i == 10 {
                    (0, -1, 2, 3, 0, -1)
                } else if i == 11 {
                    (0, 1, 2, 3, 0, -1)
                } else if i == 12 {
                    (-1, -1, -1, -1, 0, -1)
                } else if i == 13 {
                    (1, 1, -1, -1, 0, -1)
                } else if i == 14 {
                    (0, 0, -2, -4, 0, -1)
                } else if i == 15 {
                    (-1, 0, 1, 2, -2, -3)
                } else if i == 16 {
                    (1, 0, 1, 2, -2, -3)
                } else if i == 17 {
                    (0, -1, 0, -1, -2, -3)
                } else if i == 18 {
                    (0, 1, 0, -1, -2, -3)
                } else {
                    (0, 0, -2, -2, -2, -3)
                }
            },
            PlatonicSolid::Icosahedron => {
                if i == 0 {
                    (0, 0, -1, 2, 0, 0)
                } else if i == 1 {
                    (0, 0, 1, 0, -2, -2)
                } else if i == 2 {
                    (0, -1, 1, 0, 0, -1)
                } else if i == 3 {
                    (0, 1, 1, 0, 0, -1)
                } else if i == 4 {
                    (-1, 0, 1, 0, 1, 2)
                } else if i == 5 {
                    (1, 0, 1, 0, 1, 2)
                } else if i == 6 {
                    (-1, 0, -1, 0, -1, -2)
                } else if i == 7 {
                    (1, 0, -1, 0, -1, -2)
                } else if i == 8 {
                    (0, -1, -1, 0, 0, 1)
                } else if i == 9 {
                    (0, 1, -1, 0, 0, 1)
                } else if i == 10 {
                    (0, 0, -1, 0, 2, 2)
                } else {
                    (0, 0, 1, -2, 0, 0)
                }
            },
        }
    }

    /// Row `i` of the model.
    fn row(&self, i: usize) -> (r: Row)
        requires
            i < self.vertex_count(),
        ensures
            row_ints(r) == self.model_row(i as int),
    {
        match self {
            PlatonicSolid::Tetrahedron => match i {
                0 => (-1, 0, -1, 0, 1, 0),
                1 => (1, 0, -1, 0, 1, 0),
                2 => (0, 0, 3, 0, 0, 0),
                _ => (0, 0, -1, 0, -2, 0),
            },
            PlatonicSolid::Hexahedron => match i {
                0 => (-1, 0, -1, 0, 1, 0),
                1 => (1, 0, -1, 0, 1, 0),
                2 => (-1, 0, 1, 0, 1, 0),
                3 => (1, 0, 1, 0, 1, 0),
                4 => (-1, 0, -1, 0, -1, 0),
                5 => (1, 0, -1, 0, -1, 0),
                6 => (-1, 0, 1, 0, -1, 0),
                _ => (1, 0, 1, 0, -1, 0),
            },
            PlatonicSolid::Octahedron => match i {
                0 => (0, 0, 1, 0, 0, 0),
                1 => (-1, 0, 0, 0, -1, 0),
                2 => (-1, 0, 0, 0, 1, 0),
                3 => (1, 0, 0, 0, 1, 0),
                4 => (1, 0, 0, 0, -1, 0),
                _ => (0, 0, -1, 0, 0, 0),
            },
            PlatonicSolid::Dodecahedron => match i {
                0 => (0, 0, 2, 2, 2, 3),
                1 => (0, -1, 0, 1, 2, 3),
                2 => (0, 1, 0, 1, 2, 3),
                3 => (-1, 0, -1, -2, 2, 3),
                4 => (1, 0, -1, -2, 2, 3),
                5 => (0, 0, 2, 4, 0, 1),
                6 => (-1, -1, 1, 1, 0, 1),
                7 => (1, 1, 1, 1, 0, 1),
                8 => (0, -1, -2, -3, 0, 1),
                9 => (0, 1, -2, -3, 0, 1),
                10 => (0, -1, 2, 3, 0, -1),
                11 => (0, 1, 2, 3, 0, -1),
                12 => (-1, -1, -1, -1, 0, -1),
                13 => (1, 1, -1, -1, 0, -1),
                14 => (0, 0, -2, -4, 0, -1),
                15 => (-1, 0, 1, 2, -2, -3),
                16 => (1, 0, 1, 2, -2, -3),
                17 => (0, -1, 0, -1, -2, -3),
                18 => (0, 1, 0, -1, -2, -3),
                _ => (0, 0, -2, -2, -2, -3),
            },
            PlatonicSolid::Icosahedron => match i {
                0 => (0, 0, -1, 2, 0, 0),
                1 => (0, 0, 1, 0, -2, -2),
                2 => (0, -1, 1, 0, 0, -1),
                3 => (0, 1, 1, 0, 0, -1),
                4 => (-1, 0, 1, 0, 1, 2),
                5 => (1, 0, 1, 0, 1, 2),
                6 => (-1, 0, -1, 0, -1, -2),
                7 => (1, 0, -1, 0, -1, -2),
                8 => (0, -1, -1, 0, 0, 1),
                9 => (0, 1, -1, 0, 0, 1),
                10 => (0, 0, -1, 0, 2, 2),
                _ => (0, 0, 1, -2, 0, 0),
            },
        }
    }

    /// The number of strips in the traversal.
    pub open spec fn strip_count(self) -> nat {
        match self {
            PlatonicSolid::Tetrahedron => 1,
            PlatonicSolid::Hexahedron => 1,
            PlatonicSolid::Octahedron => 2,
            PlatonicSolid::Dodecahedron => 1,
            PlatonicSolid::Icosahedron => 4,
        }
    }

    /// The length of strip `k`.
    pub open spec fn strip_len(self, k: int) -> nat {
        match self {
            PlatonicSolid::Tetrahedron => {
                6
            },
            PlatonicSolid::Hexahedron => {
                14
            },
            PlatonicSolid::Octahedron => {
                if k == 0 {
                    6
                } else {
                    6
                }
            },
            PlatonicSolid::Dodecahedron => {
                38
            },
            PlatonicSolid::Icosahedron => {
                if k == 0 {
                    9
                } else if k == 1 {
                    9
                } else if k == 2 {
                    5
                } else {
                    5
                }
            },
        }
    }

    /// Entry `j` of strip `k`.
    pub open spec fn strip_entry(self, k: int, j: int) -> u32 {
        match self {
            PlatonicSolid::Tetrahedron => {
                if j == 0 {
                    0
                } else if j == 1 {
                    1
                } else if j == 2 {
                    2
                } else if j == 3 {
                    3
                } else if j == 4 {
                    0
                } else {
                    1
                }
            },
            PlatonicSolid::Hexahedron => {
                if j == 0 {
                    0
                } else if j == 1 {
                    1
                } else if j == 2 {
                    2
                } else if j == 3 {
                    3
                } else if j == 4 {
                    7
                } else if j == 5 {
                    1
                } else if j == 6 {
                    5
                } else if j == 7 {
                    0
                } else if j == 8 {
                    4
                } else if j == 9 {
                    2
                } else if j == 10 {
                    6
                } else if j == 11 {
                    7
                } else if j == 12 {
                    4
                } else {
                    5
                }
            },
            PlatonicSolid::Octahedron => {
                if k == 0 {
                    if j == 0 {
                        1
                    } else if j == 1 {
                        0
                    } else if j == 2 {
                        4
                    } else if j == 3 {
                        3
                    } else if j == 4 {
                        5
                    } else {
                        2
                    }
                } else {
                    if j == 0 {
                        3
                    } else if j == 1 {
                        0
                    } else if j == 2 {
                        2
                    } else if j == 3 {
                        1
                    } else if j == 4 {
                        5
                    } else {
                        4
                    }
                }
            },
            PlatonicSolid::Dodecahedron => {
                if j == 0 {
                    1
                } else if j == 1 {
                    3
                } else if j == 2 {
                    0
                } else if j == 3 {
                    4
                } else if j == 4 {
                    2
                } else if j == 5 {
                    7
                } else if j == 6 {
                    0
                } else if j == 7 {
                    11
                } else if j == 8 {
                    5
                } else if j == 9 {
                    10
                } else if j == 10 {
                    0
                } else if j == 11 {
                    6
                } else if j == 12 {
                    1
                } else if j == 13 {
                    12
                } else if j == 14 {
                    3
                } else if j == 15 {
                    8
                } else if j == 16 {
                    4
                } else if j == 17 {
                    9
                } else if j == 18 {
                    7
                } else if j == 19 {
                    13
                } else if j == 20 {
                    11
                } else if j == 21 {
                    16
                } else if j == 22 {
                    10
                } else if j == 23 {
                    15
                } else if j == 24 {
                    6
                } else if j == 25 {
                    17
                } else if j == 26 {
                    12
                } else if j == 27 {
                    19
                } else if j == 28 {
                    8
                } else if j == 29 {
                    14
                } else if j == 30 {
                    9
                } else if j == 31 {
                    19
                } else if j == 32 {
                    13
                } else if j == 33 {
                    18
                } else if j == 34 {
                    16
                } else if j == 35 {
                    19
                } else if j == 36 {
                    15
                } else {
                    17
                }
            },
            PlatonicSolid::Icosahedron => {
                if k == 0 {
                    if j == 0 {
                        0
                    } else if j == 1 {
                        1
                    } else if j == 2 {
                        2
                    } else if j == 3 {
                        6
                    } else if j == 4 {
                        8
                    } else if j == 5 {
                        11
                    } else if j == 6 {
                        10
                    } else if j == 7 {
                        9
                    } else {
                        5
                    }
                } else if k == 1 {
                    if j == 0 {
                        2
                    } else if j == 1 {
                        4
                    } else if j == 2 {
                        0
                    } else if j == 3 {
                        5
                    } else if j == 4 {
                        3
                    } else if j == 5 {
                        9
                    } else if j == 6 {
                        7
                    } else if j == 7 {
                        11
                    } else {
                        6
                    }
                } else if k == 2 {
                    if j == 0 {
                        0
                    } else if j == 1 {
                        3
                    } else if j == 2 {
                        1
                    } else if j == 3 {
                        7
                    } else {
                        6
                    }
                } else {
                    if j == 0 {
                        2
                    } else if j == 1 {
                        8
                    } else if j == 2 {
                        4
                    } else if j == 3 {
                        10
                    } else {
                        5
                    }
                }
            },
        }
    }

    /// The traversal of the faces as triangle strips; every face is visited
    /// once, counterclockwise seen from outside.
    pub open spec fn spec_strips(self) -> Seq<Seq<u32>> {
        Seq::new(self.strip_count(), |k: int| Seq::new(self.strip_len(k), |j: int| self.strip_entry(k, j)))
    }

    fn strip_total(&self) -> (r: usize)
        ensures
            r == self.strip_count(),
    {
        match self {
            PlatonicSolid::Tetrahedron => 1,
            PlatonicSolid::Hexahedron => 1,
            PlatonicSolid::Octahedron => 2,
            PlatonicSolid::Dodecahedron => 1,
            PlatonicSolid::Icosahedron => 4,
        }
    }

    fn strip_length(&self, k: usize) -> (r: usize)
        requires
            k < self.strip_count(),
        ensures
            r == self.strip_len(k as int),
    {
        match self {
            PlatonicSolid::Tetrahedron => 6,
            PlatonicSolid::Hexahedron => 14,
            PlatonicSolid::Octahedron => match k {
                0 => 6,
                _ => 6,
            },
            PlatonicSolid::Dodecahedron => 38,
            PlatonicSolid::Icosahedron => match k {
                0 => 9,
                1 => 9,
                2 => 5,
                _ => 5,
            },
        }
    }

    fn strip_at(&self, k: usize, j: usize) -> (r: u32)
        requires
            k < self.strip_count(),
            j < self.strip_len(k as int),
        ensures
            r == self.strip_entry(k as int, j as int),
    {
        match self {
            PlatonicSolid::Tetrahedron => match j {
                0 => 0,
                1 => 1,
                2 => 2,
                3 => 3,
                4 => 0,
                _ => 1,
            },
            PlatonicSolid::Hexahedron => match j {
                0 => 0,
                1 => 1,
                2 => 2,
                3 => 3,
                4 => 7,
                5 => 1,
                6 => 5,
                7 => 0,
                8 => 4,
                9 => 2,
                10 => 6,
                11 => 7,
                12 => 4,
                _ => 5,
            },
            PlatonicSolid::Octahedron => match k {
                0 => match j {
                    0 => 1,
                    1 => 0,
                    2 => 4,
                    3 => 3,
                    4 => 5,
                    _ => 2,
                },
                _ => match j {
                    0 => 3,
                    1 => 0,
                    2 => 2,
                    3 => 1,
                    4 => 5,
                    _ => 4,
                },
            },
            PlatonicSolid::Dodecahedron => match j {
                0 => 1,
                1 => 3,
                2 => 0,
                3 => 4,
                4 => 2,
                5 => 7,
                6 => 0,
                7 => 11,
                8 => 5,
                9 => 10,
                10 => 0,
                11 => 6,
                12 => 1,
                13 => 12,
                14 => 3,
                15 => 8,
                16 => 4,
                17 => 9,
                18 => 7,
                19 => 13,
                20 => 11,
                21 => 16,
                22 => 10,
                23 => 15,
                24 => 6,
                25 => 17,
                26 => 12,
                27 => 19,
                28 => 8,
                29 => 14,
                30 => 9,
                31 => 19,
                32 => 13,
                33 => 18,
                34 => 16,
                35 => 19,
                36 => 15,
                _ => 17,
            },
            PlatonicSolid::Icosahedron => match k {
                0 => match j {
                    0 => 0,
                    1 => 1,
                    2 => 2,
                    3 => 6,
                    4 => 8,
                    5 => 11,
                    6 => 10,
                    7 => 9,
                    _ => 5,
                },
                1 => match j {
                    0 => 2,
                    1 => 4,
                    2 => 0,
                    3 => 5,
                    4 => 3,
                    5 => 9,
                    6 => 7,
                    7 => 11,
                    _ => 6,
                },
                2 => match j {
                    0 => 0,
                    1 => 3,
                    2 => 1,
                    3 => 7,
                    _ => 6,
                },
                _ => match j {
                    0 => 2,
                    1 => 8,
                    2 => 4,
                    3 => 10,
                    _ => 5,
                },
            },
        }
    }

    fn strips(&self) -> (r: Vec<Vec<u32>>)
        ensures
            strips_view(r@) == self.spec_strips(),
    {
        let count = self.strip_total();
        let ghost target = self.spec_strips();
        let mut r: Vec<Vec<u32>> = Vec::new();
        let mut k: usize = 0;
        while k < count
            invariant
                k <= count,
                count == self.strip_count(),
                target == self.spec_strips(),
                r@.len() == k,
                forall|i: int| 0 <= i < k ==> (#[trigger] r@[i])@ == target[i],
            decreases count - k,
        {
            let len = self.strip_length(k);
            let mut strip: Vec<u32> = Vec::new();
            let mut j: usize = 0;
            while j < len
                invariant
                    j <= len,
                    k < count,
                    count == self.strip_count(),
                    len == self.strip_len(k as int),
                    strip@.len() == j,
                    forall|i: int| 0 <= i < j ==> strip@[i] == self.strip_entry(k as int, i),
                decreases len - j,
            {
                strip.push(self.strip_at(k, j));
                j = j + 1;
            }
            assert(strip@ =~= target[k as int]);
            r.push(strip);
            k = k + 1;
        }
        assert(strips_view(r@) =~= target);
        r
    }

    /// `120·r²`, r the circumradius.
    pub open spec fn circumradius_num(self) -> (int, int) {
        match self {
            PlatonicSolid::Tetrahedron => (45, 0),
            PlatonicSolid::Hexahedron => (90, 0),
            PlatonicSolid::Octahedron => (60, 0),
            PlatonicSolid::Dodecahedron => (90, 90),
            PlatonicSolid::Icosahedron => (60, 30),
        }
    }

    /// Edge `e`, as a pair of vertex numbers.
    pub open spec fn edge(self, e: int) -> (int, int) {
        match self {
            PlatonicSolid::Tetrahedron => {
                if e == 0 {
                    (0, 1)
                } else if e == 1 {
                    (0, 2)
                } else if e == 2 {
                    (0, 3)
                } else if e == 3 {
                    (1, 2)
                } else if e == 4 {
                    (1, 3)
                } else {
                    (2, 3)
                }
            },
            PlatonicSolid::Hexahedron => {
                if e == 0 {
                    (0, 1)
                } else if e == 1 {
                    (0, 2)
                } else if e == 2 {
                    (0, 4)
                } else if e == 3 {
                    (1, 3)
                } else if e == 4 {
                    (1, 5)
                } else if e == 5 {
                    (2, 3)
                } else if e == 6 {
                    (2, 6)
                } else if e == 7 {
                    (3, 7)
                } else if e == 8 {
                    (4, 5)
                } else if e == 9 {
                    (4, 6)
                } else if e == 10 {
                    (5, 7)
                } else {
                    (6, 7)
                }
            },
            PlatonicSolid::Octahedron => {
                if e == 0 {
                    (0, 1)
                } else if e == 1 {
                    (0, 2)
                } else if e == 2 {
                    (0, 3)
                } else if e == 3 {
                    (0, 4)
                } else if e == 4 {
                    (1, 2)
                } else if e == 5 {
                    (1, 4)
                } else if e == 6 {
                    (1, 5)
                } else if e == 7 {
                    (2, 3)
                } else if e == 8 {
                    (2, 5)
                } else if e == 9 {
                    (3, 4)
                } else if e == 10 {
                    (3, 5)
                } else {
                    (4, 5)
                }
            },
            PlatonicSolid::Dodecahedron => {
                if e == 0 {
                    (0, 1)
                } else if e == 1 {
                    (0, 2)
                } else if e == 2 {
                    (0, 5)
                } else if e == 3 {
                    (1, 3)
                } else if e == 4 {
                    (1, 6)
                } else if e == 5 {
                    (2, 4)
                } else if e == 6 {
                    (2, 7)
                } else if e == 7 {
                    (3, 4)
                } else if e == 8 {
                    (3, 8)
                } else if e == 9 {
                    (4, 9)
                } else if e == 10 {
                    (5, 10)
                } else if e == 11 {
                    (5, 11)
                } else if e == 12 {
                    (6, 10)
                } else if e == 13 {
                    (6, 12)
                } else if e == 14 {
                    (7, 11)
                } else if e == 15 {
                    (7, 13)
                } else if e == 16 {
                    (8, 12)
                } else if e == 17 {
                    (8, 14)
                } else if e == 18 {
                    (9, 13)
                } else if e == 19 {
                    (9, 14)
                } else if e == 20 {
                    (10, 15)
                } else if e == 21 {
                    (11, 16)
                } else if e == 22 {
                    (12, 17)
                } else if e == 23 {
                    (13, 18)
                } else if e == 24 {
                    (14, 19)
                } else if e == 25 {
                    (15, 16)
                } else if e == 26 {
                    (15, 17)
                } else if e == 27 {
                    (16, 18)
                } else if e == 28 {
                    (17, 19)
                } else {
                    (18, 19)
                }
            },
            PlatonicSolid::Icosahedron => {
                if e == 0 {
                    (0, 1)
                } else if e == 1 {
                    (0, 2)
                } else if e == 2 {
                    (0, 3)
                } else if e == 3 {
                    (0, 4)
                } else if e == 4 {
                    (0, 5)
                } else if e == 5 {
                    (1, 2)
                } else if e == 6 {
                    (1, 3)
                } else if e == 7 {
                    (1, 6)
                } else if e == 8 {
                    (1, 7)
                } else if e == 9 {
                    (2, 4)
                } else if e == 10 {
                    (2, 6)
                } else if e == 11 {
                    (2, 8)
                } else if e == 12 {
                    (3, 5)
                } else if e == 13 {
                    (3, 7)
                } else if e == 14 {
                    (3, 9)
                } else if e == 15 {
                    (4, 5)
                } else if e == 16 {
                    (4, 8)
                } else if e == 17 {
                    (4, 10)
                } else if e == 18 {
                    (5, 9)
                } else if e == 19 {
                    (5, 10)
                } else if e == 20 {
                    (6, 7)
                } else if e == 21 {
                    (6, 8)
                } else if e == 22 {
                    (6, 11)
                } else if e == 23 {
                    (7, 9)
                } else if e == 24 {
                    (7, 11)
                } else if e == 25 {
                    (8, 10)
                } else if e == 26 {
                    (8, 11)
                } else if e == 27 {
                    (9, 10)
                } else if e == 28 {
                    (9, 11)
                } else {
                    (10, 11)
                }
            },
        }
    }

    /// The number of edges.
    pub open spec fn edge_count(self) -> nat {
        match self {
            PlatonicSolid::Tetrahedron => 6,
            PlatonicSolid::Hexahedron => 12,
            PlatonicSolid::Octahedron => 12,
            PlatonicSolid::Dodecahedron => 30,
            PlatonicSolid::Icosahedron => 30,
        }
    }

    /// `120·δ²`, δ the diagonal of a face: the square's `√2`, the
    /// pentagon's `φ`.  Triangular faces have none; their value is the edge's.
    pub open spec fn diagonal_num(self) -> (int, int) {
        match self {
            PlatonicSolid::Hexahedron => (240, 0),
            PlatonicSolid::Dodecahedron => (120, 120),
            _ => (120, 0),
        }
    }

    /// The number of triangular faces: a square face is two triangles, a
    /// pentagonal one three.
    pub open spec fn face_count(self) -> nat {
        match self {
            PlatonicSolid::Tetrahedron => 4,
            PlatonicSolid::Hexahedron => 12,
            PlatonicSolid::Octahedron => 8,
            PlatonicSolid::Dodecahedron => 36,
            PlatonicSolid::Icosahedron => 20,
        }
    }

    /// The number of vertices.
    pub open spec fn vertex_count(self) -> nat {
        match self {
            PlatonicSolid::Tetrahedron => 4,
            PlatonicSolid::Hexahedron => 8,
            PlatonicSolid::Octahedron => 6,
            PlatonicSolid::Dodecahedron => 20,
            PlatonicSolid::Icosahedron => 12,
        }
    }
}

/// The vertices of `solid` under orientation `o`.
pub open spec fn solid_vertices(solid: PlatonicSolid, o: Orientation) -> Seq<SolidPoint> {
    Seq::new(
        solid.vertex_count(),
        |i: int| oriented(row_point(solid.model_row(i), solid.spec_scales()), o),
    )
}

/// What `make` returns for `solid`.  A solid has no single normal, so
/// `generate_normals` is not consulted.
pub open spec fn solid_shape(solid: PlatonicSolid, request: Configuration) -> ShapeView<SolidPoint> {
    let vertices = solid_vertices(solid, request.orientation);
    if request.prefer_strips {
        ShapeView::Strips { vertices, strips: solid.spec_strips() }
    } else {
        ShapeView::Triangles { vertices, indices: face_indices(strips_faces(solid.spec_strips())) }
    }
}

/// Every vertex of a solid lies at the same distance from its centre, the
/// circumradius, under every orientation.
pub proof fn lemma_solid_equidistant(solid: PlatonicSolid, o: Orientation)
    ensures
        solid_vertices(solid, o).len() == solid.vertex_count(),
        forall|i: int|
            0 <= i < solid.vertex_count() ==> norm_num(#[trigger] solid_vertices(solid, o)[i])
                == solid.circumradius_num(),
{
    lemma_model_norms(solid);
    assert forall|i: int| 0 <= i < solid.vertex_count() implies norm_num(
        #[trigger] solid_vertices(solid, o)[i],
    ) == solid.circumradius_num() by {
        assert(row_fits(solid, i));
        lemma_row_point_values(solid, solid.model_row(i));
        lemma_oriented_norm(row_point(solid.model_row(i), solid.spec_scales()), o);
    }
}

/// Every edge of a solid has unit length, under every orientation.
pub proof fn lemma_solid_unit_edges(solid: PlatonicSolid, o: Orientation)
    ensures
        forall|e: int|
            0 <= e < solid.edge_count() ==> {
                let (a, b) = #[trigger] solid.edge(e);
                &&& 0 <= a < solid.vertex_count()
                &&& 0 <= b < solid.vertex_count()
                &&& unit_apart(solid_vertices(solid, o)[a], solid_vertices(solid, o)[b])
            },
{
    lemma_model_norms(solid);
    lemma_model_edges(solid);
    assert forall|e: int| 0 <= e < solid.edge_count() implies {
        let (a, b) = #[trigger] solid.edge(e);
        &&& 0 <= a < solid.vertex_count()
        &&& 0 <= b < solid.vertex_count()
        &&& unit_apart(solid_vertices(solid, o)[a], solid_vertices(solid, o)[b])
    } by {
        assert(edge_fits(solid, e));
        let (a, b) = solid.edge(e);
        assert(row_fits(solid, a));
        assert(row_fits(solid, b));
        let p = row_point(solid.model_row(a), solid.spec_scales());
        let q = row_point(solid.model_row(b), solid.spec_scales());
        lemma_row_point_values(solid, solid.model_row(a));
        lemma_row_point_values(solid, solid.model_row(b));
        assert(distance_num(p, q) == row_distance(solid.model_row(a), solid.model_row(b), solid.scale_ints()));
        lemma_oriented_distance(p, q, o);
    }
}

/// Whether `p` and `q` are one edge or one face diagonal of `solid` apart.
pub open spec fn edge_or_diagonal(solid: PlatonicSolid, p: SolidPoint, q: SolidPoint) -> bool {
    same_frame(p, q) && (distance_num(p, q) == (120int, 0int) || distance_num(p, q) == solid.diagonal_num())
}

proof fn lemma_side_oriented(solid: PlatonicSolid, o: Orientation, a: int, b: int)
    requires
        side_ok(solid, a, b),
        a != b,
    ensures
        edge_or_diagonal(solid, solid_vertices(solid, o)[a], solid_vertices(solid, o)[b]),
{
    lemma_model_norms(solid);
    assert(row_fits(solid, a));
    assert(row_fits(solid, b));
    let p = row_point(solid.model_row(a), solid.spec_scales());
    let q = row_point(solid.model_row(b), solid.spec_scales());
    lemma_row_point_values(solid, solid.model_row(a));
    lemma_row_point_values(solid, solid.model_row(b));
    assert(distance_num(p, q) == row_distance(solid.model_row(a), solid.model_row(b), solid.scale_ints()));
    lemma_oriented_distance(p, q, o);
}

/// The connectivity of a solid joins its vertices by edges of unit length
/// and by face diagonals only: each side of each face is one of the two.
/// The faces of a tetrahedron, an octahedron and an icosahedron are its
/// triangles, so there every side is a unit edge.
pub proof fn lemma_solid_face_sides(solid: PlatonicSolid, c: Configuration)
    ensures
        ({
            let v = solid_shape(solid, c).vertices();
            let f = solid_shape(solid, c).faces();
            forall|i: int|
                0 <= i < f.len() ==> {
                    let t = #[trigger] f[i];
                    &&& t.0 < v.len() && t.1 < v.len() && t.2 < v.len()
                    &&& edge_or_diagonal(solid, v[t.0 as int], v[t.1 as int])
                    &&& edge_or_diagonal(solid, v[t.1 as int], v[t.2 as int])
                    &&& edge_or_diagonal(solid, v[t.0 as int], v[t.2 as int])
                }
        }),
{
    let ss = solid.spec_strips();
    let o = c.orientation;
    if !c.prefer_strips {
        lemma_list_faces_of_face_indices(strips_faces(ss));
    }
    let v = solid_shape(solid, c).vertices();
    let f = solid_shape(solid, c).faces();
    assert(f == strips_faces(ss));
    lemma_strips_faces_are_strip_triangles(ss);
    lemma_strip_sides(solid);
    assert forall|i: int| 0 <= i < f.len() implies {
        let t = #[trigger] f[i];
        &&& t.0 < v.len() && t.1 < v.len() && t.2 < v.len()
        &&& edge_or_diagonal(solid, v[t.0 as int], v[t.1 as int])
        &&& edge_or_diagonal(solid, v[t.1 as int], v[t.2 as int])
        &&& edge_or_diagonal(solid, v[t.0 as int], v[t.2 as int])
    } by {
        let t = f[i];
        assert(is_strip_triangle(ss, t));
        assert(!is_degenerate(t));
        let (k, j) = choose|k: int, j: int|
            0 <= k < ss.len() && 0 <= j && j + 2 < ss[k].len() && t == #[trigger] strip_triangle(ss[k], j);
        assert(triangle_ok(solid, k, j));
        lemma_side_oriented(solid, o, t.0 as int, t.1 as int);
        lemma_side_oriented(solid, o, t.1 as int, t.2 as int);
        lemma_side_oriented(solid, o, t.0 as int, t.2 as int);
    }
}

proof fn lemma_face_front(solid: PlatonicSolid, o: Orientation, k: int, j: int)
    requires
        0 <= k < solid.strip_count(),
        0 <= j,
        j + 2 < solid.strip_len(k),
        !is_degenerate(strip_triangle(solid.spec_strips()[k], j)),
    ensures
        ({
            let t = strip_triangle(solid.spec_strips()[k], j);
            let v = solid_vertices(solid, o);
            &&& t.0 < v.len() && t.1 < v.len() && t.2 < v.len()
            &&& front_facing(o, v[t.0 as int], v[t.1 as int], v[t.2 as int])
        }),
{
    lemma_strip_sides(solid);
    lemma_strip_fronts(solid);
    lemma_model_norms(solid);
    let t = strip_triangle(solid.spec_strips()[k], j);
    assert(triangle_ok(solid, k, j));
    assert(triangle_front(solid, k, j));
    let (a, b, e) = (t.0 as int, t.1 as int, t.2 as int);
    assert(row_fits(solid, a));
    assert(row_fits(solid, b));
    assert(row_fits(solid, e));
    lemma_row_point_values(solid, solid.model_row(a));
    lemma_row_point_values(solid, solid.model_row(b));
    lemma_row_point_values(solid, solid.model_row(e));
    let p = row_point(solid.model_row(a), solid.spec_scales());
    let q = row_point(solid.model_row(b), solid.spec_scales());
    let r = row_point(solid.model_row(e), solid.spec_scales());
    assert(coefficients(p) == row_coefficients(solid.model_row(a)));
    assert(coefficients(q) == row_coefficients(solid.model_row(b)));
    assert(coefficients(r) == row_coefficients(solid.model_row(e)));
    lemma_oriented_det(p, q, r, o);
}

/// Every face of a solid is a front face under the requested orientation:
/// counterclockwise seen from outside in a right-handed space, and turned
/// around as the orientation asks.
pub proof fn lemma_solid_front_faces(solid: PlatonicSolid, c: Configuration)
    ensures
        ({
            let v = solid_shape(solid, c).vertices();
            let f = solid_shape(solid, c).faces();
            forall|i: int|
                0 <= i < f.len() ==> {
                    let t = #[trigger] f[i];
                    &&& t.0 < v.len() && t.1 < v.len() && t.2 < v.len()
                    &&& front_facing(c.orientation, v[t.0 as int], v[t.1 as int], v[t.2 as int])
                }
        }),
{
    let ss = solid.spec_strips();
    let o = c.orientation;
    if !c.prefer_strips {
        lemma_list_faces_of_face_indices(strips_faces(ss));
    }
    let v = solid_shape(solid, c).vertices();
    let f = solid_shape(solid, c).faces();
    assert(f == strips_faces(ss));
    lemma_strips_faces_are_strip_triangles(ss);
    assert forall|i: int| 0 <= i < f.len() implies {
        let t = #[trigger] f[i];
        &&& t.0 < v.len() && t.1 < v.len() && t.2 < v.len()
        &&& front_facing(c.orientation, v[t.0 as int], v[t.1 as int], v[t.2 as int])
    } by {
        let t = f[i];
        assert(is_strip_triangle(ss, t));
        assert(!is_degenerate(t));
        let (k, j) = choose|k: int, j: int|
            0 <= k < ss.len() && 0 <= j && j + 2 < ss[k].len() && t == #[trigger] strip_triangle(ss[k], j);
        lemma_face_front(solid, o, k, j);
    }
}

fn point_of(row: Row, scales: (Golden, Golden, Golden), o: Orientation) -> (r: SolidPoint)
    ensures
        r == oriented(row_point(row_ints(row), scales), o),
{
    let x = if o.is_cw() { -(row.0 as i64) } else { row.0 as i64 };
    let bx = if o.is_cw() { -(row.1 as i64) } else { row.1 as i64 };
    let z = if o.is_left() { -(row.4 as i64) } else { row.4 as i64 };
    let bz = if o.is_left() { -(row.5 as i64) } else { row.5 as i64 };
    SolidPoint {
        x: Coordinate { value: Golden { a: x, b: bx }, scale: scales.0 },
        y: Coordinate { value: Golden { a: row.2 as i64, b: row.3 as i64 }, scale: scales.1 },
        z: Coordinate { value: Golden { a: z, b: bz }, scale: scales.2 },
    }
}

impl Shaper<SolidPoint> for PlatonicSolid {
    fn make(&self, request: Configuration) -> (r: Shape<SolidPoint>)
        ensures
            r@ == solid_shape(*self, request),
    {
        let count: usize = match self {
            PlatonicSolid::Tetrahedron => 4,
            PlatonicSolid::Hexahedron => 8,
            PlatonicSolid::Octahedron => 6,
            PlatonicSolid::Dodecahedron => 20,
            PlatonicSolid::Icosahedron => 12,
        };
        let scales = self.scales();
        let ghost target = solid_vertices(*self, request.orientation);
        let mut vertices: Vec<SolidPoint> = Vec::new();
        let mut i: usize = 0;
        while i < count
            invariant
                i <= count,
                count == self.vertex_count(),
                scales == self.spec_scales(),
                target == solid_vertices(*self, request.orientation),
                vertices@.len() == i,
                forall|j: int| 0 <= j < i ==> vertices@[j] == target[j],
            decreases count - i,
        {
            vertices.push(point_of(self.row(i), scales, request.orientation));
            i = i + 1;
        }
        assert(vertices@ =~= target);
        let strips = self.strips();
        if request.prefer_strips {
            Shape::Strips { vertices, strips }
        } else {
            let indices = strips_to_triangles(&strips);
            Shape::Triangles { vertices, indices }
        }
    }
}

/// Changing the chirality mirrors a solid's vertices in z and keeps its
/// faces: together with the change of handedness every face keeps its
/// traversal, so each stays front-facing.
pub proof fn lemma_solid_chirality_mirror(solid: PlatonicSolid, c: Configuration)
    ensures
        ({
            let left = solid_shape(solid, with_chirality(c, Chirality::Left));
            let right = solid_shape(solid, with_chirality(c, Chirality::Right));
            &&& left.vertices() == right.vertices().map_values(|p: SolidPoint| mirror_z(p))
            &&& left.faces() == right.faces()
        }),
{
    let l = with_chirality(c, Chirality::Left);
    let r = with_chirality(c, Chirality::Right);
    assert(solid_vertices(solid, l.orientation) =~= solid_vertices(solid, r.orientation).map_values(
        |p: SolidPoint| mirror_z(p),
    ));
}

/// Changing the winding mirrors a solid's vertices in x and keeps its
/// connectivity, so that each face's traversal turns around.
pub proof fn lemma_solid_winding_mirror(solid: PlatonicSolid, c: Configuration)
    ensures
        ({
            let cw = solid_shape(solid, with_winding(c, Winding::Clockwise));
            let ccw = solid_shape(solid, with_winding(c, Winding::Counterclockwise));
            &&& cw.vertices() == ccw.vertices().map_values(|p: SolidPoint| mirror_x(p))
            &&& cw.faces() == ccw.faces()
        }),
{
    let a = with_winding(c, Winding::Clockwise);
    let b = with_winding(c, Winding::Counterclockwise);
    let va = solid_vertices(solid, a.orientation);
    let vb = solid_vertices(solid, b.orientation);
    assert forall|i: int| 0 <= i < va.len() implies va[i] == mirror_x(#[trigger] vb[i]) by {
        let p = row_point(solid.model_row(i), solid.spec_scales());
        assert(mirror_z(mirror_x(p)) == mirror_x(mirror_z(p)));
    }
    assert(va =~= vb.map_values(|p: SolidPoint| mirror_x(p)));
}

/// Every solid has its number of vertices, and its connectivity its number
/// of triangles; a triangle list holds three indices for each.
pub proof fn lemma_solid_counts(solid: PlatonicSolid, c: Configuration)
    ensures
        solid_shape(solid, c).vertices().len() == solid.vertex_count(),
        solid_shape(solid, c).faces().len() == solid.face_count(),
        solid_shape(solid, c) matches ShapeView::Triangles { indices, .. } ==> indices.len() == 3 * solid.face_count(),
{
    let ss = solid.spec_strips();
    lemma_strip_fronts(solid);
    assert forall|k: int| 0 <= k < ss.len() implies #[trigger] ss[k].len() >= 2 by {}
    assert forall|k: int, j: int| 0 <= k < ss.len() && 0 <= j && j + 2 < ss[k].len() implies !is_degenerate(
        #[trigger] strip_triangle(ss[k], j),
    ) by {
        assert(triangle_front(solid, k, j));
    }
    lemma_strips_faces_len(ss);
    let n = ss.len() as int;
    assert(ss.take(n) =~= ss);
    assert(ss.take(0) =~= Seq::<Seq<u32>>::empty());
    lemma_strip_triangle_total_take(ss, 1);
    if n >= 2 {
        lemma_strip_triangle_total_take(ss, 2);
    }
    if n >= 3 {
        lemma_strip_triangle_total_take(ss, 3);
    }
    if n >= 4 {
        lemma_strip_triangle_total_take(ss, 4);
    }
    lemma_face_indices_len(strips_faces(ss));
    if !c.prefer_strips {
        lemma_list_faces_of_face_indices(strips_faces(ss));
    }
}

/// The strips and the triangle list of a solid describe the same faces, in
/// the same order and winding.
pub proof fn lemma_solid_strips_match_triangles(solid: PlatonicSolid, c: Configuration)
    ensures
        solid_shape(solid, with_strips(c, true)).vertices() == solid_shape(solid, with_strips(c, false)).vertices(),
        solid_shape(solid, with_strips(c, true)).faces() == solid_shape(solid, with_strips(c, false)).faces(),
{
    lemma_list_faces_of_face_indices(strips_faces(solid.spec_strips()));
}

/// What `make` returns depends on the solid and the configuration alone:
/// two results for the same inputs are equal.
pub proof fn lemma_solid_deterministic(
    solid: PlatonicSolid,
    c: Configuration,
    first: ShapeView<SolidPoint>,
    second: ShapeView<SolidPoint>,
)
    requires
        first == solid_shape(solid, c),
        second == solid_shape(solid, c),
    ensures
        first == second,
{
}

} // verus!
