//! Regular polygons with unit edges: a vertex ring whose emission order is
//! itself a triangle strip.
use vstd::prelude::*;

use crate::orientation::{
    with_chirality, with_strips, with_winding, Chirality, Configuration, Orientation, Winding,
};
use crate::shape::{
    face_indices, lemma_face_indices_len, lemma_list_faces_of_face_indices, lemma_strip_faces_upto_all, strip_faces,
    strip_triangle, strips_faces, strips_to_triangles, strips_view, Face, Shape, ShapeView, Shaper,
};

verus! {

/// An exact point of the plane of a regular polygon, or that plane's normal.
#[derive(Clone, Copy, PartialEq, Eq, Structural, Debug)]
pub enum PlanePoint {
    /// The point `r·(sin θ, cos θ, 0)` with `θ = turn·π/sides` and
    /// `r = 1/(2·sin(π/sides))`: on the circle through the vertices of the
    /// regular `sides`-gon whose edges have unit length.
    OnCircle { sides: u16, turn: u32 },
    /// The point `(0, 0, z)`.
    Axis { z: i8 },
}

/// The only way a request for a shape can fail.
#[derive(Clone, Copy, PartialEq, Eq, Structural, Debug)]
pub enum ShapeError {
    /// A polygon with fewer than three sides.
    DegenerateShapeRequest,
}

/// Polygons by name.
#[derive(Clone, Copy, PartialEq, Eq, Structural, Debug)]
pub enum Polygons {
    Trigon,
    Tetragon,
    Pentagon,
    Hexagon,
    Heptagon,
    Octagon,
    Enneagon,
    Decagon,
    Hendecagon,
    Dodecagon,
    NGon(u16),
}

impl Polygons {
    pub open spec fn spec_sides(self) -> u16 {
        match self {
            Polygons::Trigon => 3,
            Polygons::Tetragon => 4,
            Polygons::Pentagon => 5,
            Polygons::Hexagon => 6,
            Polygons::Heptagon => 7,
            Polygons::Octagon => 8,
            Polygons::Enneagon => 9,
            Polygons::Decagon => 10,
            Polygons::Hendecagon => 11,
            Polygons::Dodecagon => 12,
            Polygons::NGon(n) => n,
        }
    }

    /// The number of sides of the named polygon.
    pub fn sides(&self) -> (r: u16)
        ensures
            r == self.spec_sides(),
    {
        match self {
            Polygons::Trigon => 3,
            Polygons::Tetragon => 4,
            Polygons::Pentagon => 5,
            Polygons::Hexagon => 6,
            Polygons::Heptagon => 7,
            Polygons::Octagon => 8,
            Polygons::Enneagon => 9,
            Polygons::Decagon => 10,
            Polygons::Hendecagon => 11,
            Polygons::Dodecagon => 12,
            Polygons::NGon(n) => *n,
        }
    }
}

/// A convex regular polygon with unit edges, centred at the origin in the
/// plane z = 0.
pub struct Polygon {
    sides: u16,
}

impl Polygon {
    #[verifier::type_invariant]
    spec fn well_formed(self) -> bool {
        self.sides >= 3
    }

    /// The number of sides.
    pub closed spec fn spec_sides(self) -> nat {
        self.sides as nat
    }

    /// A regular polygon with `sides` sides; fewer than three is degenerate.
    pub fn new(sides: u16) -> (r: Result<Polygon, ShapeError>)
        ensures
            sides < 3 ==> r == Err::<Polygon, ShapeError>(ShapeError::DegenerateShapeRequest),
            sides >= 3 ==> r is Ok && r->Ok_0.spec_sides() == sides,
    {
        if sides < 3 {
            Err(ShapeError::DegenerateShapeRequest)
        } else {
            Ok(Polygon { sides })
        }
    }

    pub fn sides(&self) -> (r: u16)
        ensures
            r == self.spec_sides(),
            r >= 3,
    {
        proof {
            use_type_invariant(self);
        }
        self.sides
    }
}

/// Whether the vertex ring of an `n`-gon is walked mirrored in x, so that
/// its triangles are front faces under orientation `o`.
pub open spec fn ring_mirrored(n: nat, o: Orientation) -> bool {
    (n % 2 == 1) == (o.winding == Winding::Counterclockwise)
}

/// The turn, in units of π/n clockwise from +Y, of the `i`-th vertex of the
/// regular `n`-gon.  An odd polygon starts at its apex; then the vertices come
/// in pairs mirrored in x, from the top down, so that the emission order is a
/// triangle strip.
pub open spec fn ring_turn(n: nat, i: nat, mirrored: bool) -> nat {
    if n % 2 == 1 && i == 0 {
        0
    } else {
        let j: nat = if n % 2 == 1 { (i - 1) as nat } else { i };
        let k: nat = if n % 2 == 1 { 2 * (j / 2) + 2 } else { 2 * (j / 2) + 1 };
        let right = (j % 2 == 0) != mirrored;
        if right { k } else { (2 * n - k) as nat }
    }
}

/// The vertices of the regular `n`-gon under orientation `o`.
pub open spec fn polygon_vertices(n: nat, o: Orientation) -> Seq<PlanePoint> {
    Seq::new(
        n,
        |i: int| PlanePoint::OnCircle { sides: n as u16, turn: ring_turn(n, i as nat, ring_mirrored(n, o)) as u32 },
    )
}

/// The strip that walks the vertices in emission order.
pub open spec fn polygon_strip(n: nat) -> Seq<u32> {
    Seq::new(n, |i: int| i as u32)
}

/// The normal of the polygon's front face: toward the viewer.
pub open spec fn polygon_normal(o: Orientation) -> PlanePoint {
    PlanePoint::Axis { z: if o.chirality == Chirality::Left { -1i8 } else { 1i8 } }
}

/// What `make` returns for a regular `n`-gon.
pub open spec fn polygon_shape(n: nat, request: Configuration) -> ShapeView<PlanePoint> {
    let vertices = polygon_vertices(n, request.orientation);
    let strips = seq![polygon_strip(n)];
    if request.prefer_strips {
        ShapeView::Strips { vertices, strips }
    } else if request.generate_normals {
        ShapeView::NormalTriangles {
            vertices,
            normals: seq![polygon_normal(request.orientation)],
            indices: face_indices(strips_faces(strips)),
        }
    } else {
        ShapeView::Triangles { vertices, indices: face_indices(strips_faces(strips)) }
    }
}

impl Polygon {
    fn vertices_for(&self, o: Orientation) -> (r: Vec<PlanePoint>)
        ensures
            r@ == polygon_vertices(self.spec_sides(), o),
    {
        let n = self.sides();
        let odd = n % 2 == 1;
        let mirrored = odd == o.is_ccw();
        let ghost spec_mirrored = ring_mirrored(n as nat, o);
        assert(mirrored == spec_mirrored);
        let ghost target = polygon_vertices(n as nat, o);
        let mut r: Vec<PlanePoint> = Vec::new();
        if odd {
            r.push(PlanePoint::OnCircle { sides: n, turn: 0 });
        }
        let twice: u32 = 2 * (n as u32);
        let mut step: u16 = 0;
        while step < n / 2
            invariant
                n == self.spec_sides(),
                n >= 3,
                odd == (n % 2 == 1),
                mirrored == spec_mirrored,
                spec_mirrored == ring_mirrored(n as nat, o),
                twice == 2 * n,
                target == polygon_vertices(n as nat, o),
                step <= n / 2,
                r@.len() == 2 * step + (if odd { 1int } else { 0int }),
                forall|i: int| 0 <= i < r@.len() ==> r@[i] == target[i],
            decreases n / 2 - step,
        {
            let k: u32 = if odd { 2 * (step as u32) + 2 } else { 2 * (step as u32) + 1 };
            let (first, second) = if mirrored { (twice - k, k) } else { (k, twice - k) };
            let ghost at: int = r@.len() as int;
            r.push(PlanePoint::OnCircle { sides: n, turn: first });
            r.push(PlanePoint::OnCircle { sides: n, turn: second });
            proof {
                let j: int = if odd { at - 1 } else { at };
                assert(j == 2 * step);
                assert(j / 2 == step as int);
                assert((j + 1) / 2 == step as int);
                assert(j % 2 == 0);
                assert((j + 1) % 2 == 1);
                assert(ring_turn(n as nat, at as nat, spec_mirrored) == first);
                assert(ring_turn(n as nat, (at + 1) as nat, spec_mirrored) == second);
                assert(at + 1 < n);
                assert(r@[at] == target[at]);
                assert(r@[at + 1] == target[at + 1]);
            }
            step = step + 1;
        }
        assert(r@ =~= target);
        r
    }
}

impl Shaper<PlanePoint> for Polygon {
    fn make(&self, request: Configuration) -> (r: Shape<PlanePoint>)
        ensures
            r@ == polygon_shape(self.spec_sides(), request),
    {
        let n = self.sides();
        let vertices = self.vertices_for(request.orientation);
        let mut strip: Vec<u32> = Vec::new();
        let mut i: u16 = 0;
        while i < n
            invariant
                i <= n,
                strip@ == polygon_strip(i as nat),
            decreases n - i,
        {
            strip.push(i as u32);
            assert(strip@ =~= polygon_strip((i + 1) as nat));
            i = i + 1;
        }
        let strips = vec![strip];
        assert(strips_view(strips@) =~= seq![polygon_strip(n as nat)]);
        assert(vertices@ == polygon_vertices(n as nat, request.orientation));
        if request.prefer_strips {
            Shape::Strips { vertices, strips }
        } else {
            let indices = strips_to_triangles(&strips);
            assert(indices@ == face_indices(strips_faces(seq![polygon_strip(n as nat)])));
            if request.generate_normals {
                let z: i8 = if request.orientation.is_left() { -1 } else { 1 };
                let normals = vec![PlanePoint::Axis { z }];
                assert(normals@ =~= seq![polygon_normal(request.orientation)]);
                Shape::NormalTriangles { vertices, normals, indices }
            } else {
                Shape::Triangles { vertices, indices }
            }
        }
    }
}

/// Whether `p` and `q` are neighbours on the circle of one regular polygon:
/// their turns differ by `2π/n`, so the chord between them, `2r·sin(π/n)`,
/// is one unit long.
pub open spec fn ring_neighbours(p: PlanePoint, q: PlanePoint) -> bool {
    match (p, q) {
        (PlanePoint::OnCircle { sides: n, turn: a }, PlanePoint::OnCircle { sides: m, turn: b }) => {
            let d = a - b;
            n == m && (d == 2 || d == -2 || d == 2 * n - 2 || d == 2 - 2 * n)
        },
        _ => false,
    }
}

/// The reflection of `p` in the plane z = 0.
pub open spec fn plane_mirror_z(p: PlanePoint) -> PlanePoint {
    match p {
        PlanePoint::OnCircle { .. } => p,
        PlanePoint::Axis { z } => PlanePoint::Axis { z: (-z) as i8 },
    }
}

/// The reflection of `p` in the plane x = 0.
pub open spec fn plane_mirror_x(p: PlanePoint) -> PlanePoint {
    match p {
        PlanePoint::OnCircle { sides, turn } => PlanePoint::OnCircle {
            sides,
            turn: (if turn == 0 { 0 } else { 2 * sides - turn }) as u32,
        },
        PlanePoint::Axis { .. } => p,
    }
}

/// The faces of the regular `n`-gon: every triangle of its strip, in order.
pub proof fn lemma_polygon_faces(n: nat)
    requires
        3 <= n <= 0xffff,
    ensures
        strips_faces(seq![polygon_strip(n)]) == strip_faces(polygon_strip(n)),
        strip_faces(polygon_strip(n)) == Seq::new((n - 2) as nat, |j: int| strip_triangle(polygon_strip(n), j)),
{
    let s = polygon_strip(n);
    assert(seq![s].drop_last() =~= Seq::<Seq<u32>>::empty());
    assert(strips_faces(Seq::<Seq<u32>>::empty()) =~= Seq::<Face>::empty());
    assert(Seq::<Face>::empty() + strip_faces(s) =~= strip_faces(s));
    assert forall|j: int| 0 <= j < n - 2 implies !crate::shape::is_degenerate(#[trigger] strip_triangle(s, j)) by {
        assert(s[j] == j as u32);
        assert(s[j + 1] == (j + 1) as u32);
        assert(s[j + 2] == (j + 2) as u32);
    }
    lemma_strip_faces_upto_all(s, n - 2);
}

/// Every vertex of a regular polygon lies on one circle, the circle through
/// the vertices of the unit-edged `n`-gon: all are equally far from its
/// centre.
pub proof fn lemma_polygon_equidistant(n: nat, o: Orientation)
    requires
        3 <= n <= 0xffff,
    ensures
        polygon_vertices(n, o).len() == n,
        forall|i: int|
            0 <= i < n ==> (#[trigger] polygon_vertices(n, o)[i] matches PlanePoint::OnCircle { sides, turn }
                && sides == n && turn < 2 * n),
{
    assert forall|i: int| 0 <= i < n implies (#[trigger] polygon_vertices(n, o)[i] matches PlanePoint::OnCircle { sides, turn }
        && sides == n && turn < 2 * n) by {
        if n % 2 == 1 && i == 0 {
        } else {
            let j: int = if n % 2 == 1 { i - 1 } else { i };
            assert(j / 2 < n / 2);
        }
    }
}

proof fn lemma_ring_step(n: nat, o: Orientation, i: int)
    requires
        3 <= n <= 0xffff,
        0 <= i < n - 2,
    ensures
        ring_neighbours(polygon_vertices(n, o)[i], polygon_vertices(n, o)[i + 2]),
{
    let m = ring_mirrored(n, o);
    if n % 2 == 1 && i == 0 {
        assert(ring_turn(n, 2, m) == if m { 2 } else { 2 * n - 2 });
    } else {
        let j: int = if n % 2 == 1 { i - 1 } else { i };
        assert((j + 2) / 2 == j / 2 + 1);
        assert((j + 2) % 2 == j % 2);
        assert(j / 2 < n / 2);
    }
}

proof fn lemma_ring_ends(n: nat, o: Orientation)
    requires
        3 <= n <= 0xffff,
    ensures
        ring_neighbours(polygon_vertices(n, o)[0], polygon_vertices(n, o)[1]),
        ring_neighbours(polygon_vertices(n, o)[n - 2], polygon_vertices(n, o)[n - 1]),
{
    if n % 2 == 1 {
        assert((n - 3) / 2 == (n - 2) / 2);
        assert(2 * ((n - 3) / 2) + 2 == n - 1);
    } else {
        assert((n - 1) / 2 == (n - 2) / 2);
        assert(2 * ((n - 2) / 2) + 1 == n - 1);
    }
}

/// The polygon's sides: each vertex is a circle neighbour of the vertex two
/// places on, and the first two and the last two vertices are neighbours.
/// Each such pair is two corners of one face, so the connectivity declares
/// exactly these `n` unit edges.
pub proof fn lemma_polygon_unit_edges(n: nat, c: Configuration)
    requires
        3 <= n <= 0xffff,
    ensures
        ({
            let v = polygon_vertices(n, c.orientation);
            let f = polygon_shape(n, c).faces();
            &&& f.len() == n - 2
            &&& forall|i: int|
                0 <= i < n - 2 ==> ring_neighbours(v[i], v[i + 2]) && {
                    let t = #[trigger] f[i];
                    (t.0 == i || t.1 == i) && t.2 == i + 2
                }
            &&& ring_neighbours(v[0], v[1])
            &&& f[0].0 == 0 && f[0].1 == 1
            &&& ring_neighbours(v[n - 2], v[n - 1])
            &&& ({
                let t = f[n - 3];
                (t.0 == n - 2 || t.1 == n - 2) && t.2 == n - 1
            })
        }),
{
    let v = polygon_vertices(n, c.orientation);
    let s = polygon_strip(n);
    lemma_polygon_faces(n);
    if !c.prefer_strips {
        lemma_list_faces_of_face_indices(strips_faces(seq![s]));
    }
    let f = polygon_shape(n, c).faces();
    assert(f == strip_faces(s));
    assert forall|i: int| 0 <= i < n - 2 implies ring_neighbours(v[i], v[i + 2]) && {
        let t = #[trigger] f[i];
        (t.0 == i || t.1 == i) && t.2 == i + 2
    } by {
        lemma_ring_step(n, c.orientation, i);
        assert(s[i] == i as u32);
        assert(s[i + 1] == (i + 1) as u32);
        assert(s[i + 2] == (i + 2) as u32);
    }
    lemma_ring_ends(n, c.orientation);
    assert(s[0] == 0u32 && s[1] == 1u32 && s[2] == 2u32);
    assert(s[n - 3] == (n - 3) as u32 && s[n - 2] == (n - 2) as u32 && s[n - 1] == (n - 1) as u32);
}

/// A regular `n`-gon has `n` vertices and `n - 2` triangles; a triangle
/// list holds three indices for each.
pub proof fn lemma_polygon_counts(n: nat, c: Configuration)
    requires
        3 <= n <= 0xffff,
    ensures
        polygon_shape(n, c).vertices().len() == n,
        polygon_shape(n, c).faces().len() == n - 2,
        !c.prefer_strips ==> face_indices(strips_faces(seq![polygon_strip(n)])).len() == 3 * (n - 2),
{
    lemma_polygon_unit_edges(n, c);
    lemma_polygon_faces(n);
    lemma_face_indices_len(strips_faces(seq![polygon_strip(n)]));
}

/// Changing the chirality leaves the polygon's vertices and faces as they
/// are (the plane z = 0 is its own mirror image) and mirrors its normal.
pub proof fn lemma_polygon_chirality_mirror(n: nat, c: Configuration)
    requires
        3 <= n <= 0xffff,
    ensures
        ({
            let left = polygon_shape(n, with_chirality(c, Chirality::Left));
            let right = polygon_shape(n, with_chirality(c, Chirality::Right));
            &&& left.vertices() == right.vertices().map_values(|p: PlanePoint| plane_mirror_z(p))
            &&& left.faces() == right.faces()
            &&& polygon_normal(with_chirality(c, Chirality::Left).orientation) == plane_mirror_z(
                polygon_normal(with_chirality(c, Chirality::Right).orientation),
            )
        }),
{
    let l = with_chirality(c, Chirality::Left);
    let r = with_chirality(c, Chirality::Right);
    assert(polygon_vertices(n, l.orientation) =~= polygon_vertices(n, r.orientation).map_values(
        |p: PlanePoint| plane_mirror_z(p),
    ));
}

/// Changing the winding mirrors the polygon's vertices in x and keeps its
/// connectivity, so that each face's traversal turns around.
pub proof fn lemma_polygon_winding_mirror(n: nat, c: Configuration)
    requires
        3 <= n <= 0xffff,
    ensures
        ({
            let cw = polygon_shape(n, with_winding(c, Winding::Clockwise));
            let ccw = polygon_shape(n, with_winding(c, Winding::Counterclockwise));
            &&& cw.vertices() == ccw.vertices().map_values(|p: PlanePoint| plane_mirror_x(p))
            &&& cw.faces() == ccw.faces()
        }),
{
    let a = with_winding(c, Winding::Clockwise);
    let b = with_winding(c, Winding::Counterclockwise);
    let va = polygon_vertices(n, a.orientation);
    let vb = polygon_vertices(n, b.orientation);
    assert forall|i: int| 0 <= i < n implies va[i] == plane_mirror_x(#[trigger] vb[i]) by {
        if n % 2 == 1 && i == 0 {
        } else {
            let j: int = if n % 2 == 1 { i - 1 } else { i };
            assert(j / 2 < n / 2);
        }
    }
    assert(va =~= vb.map_values(|p: PlanePoint| plane_mirror_x(p)));
}

/// The strip and the triangle list of a polygon describe the same faces, in
/// the same order and winding.
pub proof fn lemma_polygon_strips_match_triangles(n: nat, c: Configuration)
    requires
        3 <= n <= 0xffff,
    ensures
        polygon_shape(n, with_strips(c, true)).vertices() == polygon_shape(n, with_strips(c, false)).vertices(),
        polygon_shape(n, with_strips(c, true)).faces() == polygon_shape(n, with_strips(c, false)).faces(),
{
    lemma_list_faces_of_face_indices(strips_faces(seq![polygon_strip(n)]));
}

/// What `make` returns depends on the side count and the configuration
/// alone: two results for the same inputs are equal.
pub proof fn lemma_polygon_deterministic(
    n: nat,
    c: Configuration,
    first: ShapeView<PlanePoint>,
    second: ShapeView<PlanePoint>,
)
    requires
        first == polygon_shape(n, c),
        second == polygon_shape(n, c),
    ensures
        first == second,
{
}

/// The clockwise turn from `b` to `a` on the circle of an `n`-gon, in
/// units of π/n, for turns `a` and `b` below `2n`.
pub open spec fn turn_gap(a: int, b: int, n: int) -> int {
    if a - b < 0 {
        a - b + 2 * n
    } else {
        a - b
    }
}

/// Whether three distinct points of one circle run counterclockwise seen
/// from +Z.  Turns grow clockwise, so walking from `p` to `q` to `r` and back
/// with falling turns goes once around the circle exactly then.
pub open spec fn ring_ccw(p: PlanePoint, q: PlanePoint, r: PlanePoint) -> bool {
    match (p, q, r) {
        (
            PlanePoint::OnCircle { sides: n, turn: a },
            PlanePoint::OnCircle { sides: m, turn: b },
            PlanePoint::OnCircle { sides: l, turn: c },
        ) => {
            &&& n == m && m == l
            &&& a != b && b != c && a != c
            &&& a < 2 * n && b < 2 * n && c < 2 * n
            &&& turn_gap(a as int, b as int, n as int) + turn_gap(b as int, c as int, n as int) + turn_gap(
                c as int,
                a as int,
                n as int,
            ) == 2 * n
        },
        _ => false,
    }
}

/// Whether triangle `(p, q, r)` of a polygon is a front face under
/// orientation `o`: the polygon lies in the plane of the screen, so its
/// triangles run as the winding says, whatever the chirality.
pub open spec fn polygon_front_facing(o: Orientation, p: PlanePoint, q: PlanePoint, r: PlanePoint) -> bool {
    if o.winding == Winding::Counterclockwise {
        ring_ccw(p, q, r)
    } else {
        ring_ccw(p, r, q)
    }
}

proof fn lemma_ring_face(n: nat, o: Orientation, i: int)
    requires
        3 <= n <= 0xffff,
        0 <= i < n - 2,
    ensures
        ({
            let v = polygon_vertices(n, o);
            let t = strip_triangle(polygon_strip(n), i);
            polygon_front_facing(o, v[t.0 as int], v[t.1 as int], v[t.2 as int])
        }),
{
    let m = ring_mirrored(n, o);
    let s = polygon_strip(n);
    assert(s[i] == i as u32);
    assert(s[i + 1] == (i + 1) as u32);
    assert(s[i + 2] == (i + 2) as u32);
    if n % 2 == 1 && i == 0 {
        assert(ring_turn(n, 1, m) == if m { 2 * n - 2 } else { 2 });
        assert(ring_turn(n, 2, m) == if m { 2 } else { 2 * n - 2 });
    } else {
        let j: int = if n % 2 == 1 { i - 1 } else { i };
        assert((j + 1) / 2 == if j % 2 == 0 { j / 2 } else { j / 2 + 1 });
        assert((j + 2) / 2 == j / 2 + 1);
        assert((j + 1) % 2 != j % 2);
        assert((j + 2) % 2 == j % 2);
        assert(j / 2 < n / 2);
        assert(2 * (j / 2) + 4 <= n);
    }
}

/// Every face of a polygon is a front face under the requested
/// orientation.
pub proof fn lemma_polygon_front_faces(n: nat, c: Configuration)
    requires
        3 <= n <= 0xffff,
    ensures
        ({
            let v = polygon_vertices(n, c.orientation);
            let f = polygon_shape(n, c).faces();
            forall|i: int|
                0 <= i < f.len() ==> {
                    let t = #[trigger] f[i];
                    &&& t.0 < n && t.1 < n && t.2 < n
                    &&& polygon_front_facing(c.orientation, v[t.0 as int], v[t.1 as int], v[t.2 as int])
                }
        }),
{
    lemma_polygon_faces(n);
    if !c.prefer_strips {
        lemma_list_faces_of_face_indices(strips_faces(seq![polygon_strip(n)]));
    }
    let v = polygon_vertices(n, c.orientation);
    let f = polygon_shape(n, c).faces();
    assert(f == strip_faces(polygon_strip(n)));
    assert forall|i: int| 0 <= i < f.len() implies {
        let t = #[trigger] f[i];
        &&& t.0 < n && t.1 < n && t.2 < n
        &&& polygon_front_facing(c.orientation, v[t.0 as int], v[t.1 as int], v[t.2 as int])
    } by {
        let s = polygon_strip(n);
        assert(s[i] == i as u32);
        assert(s[i + 1] == (i + 1) as u32);
        assert(s[i + 2] == (i + 2) as u32);
        lemma_ring_face(n, c.orientation, i);
    }
}

} // verus!
