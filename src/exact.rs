//! Exact coordinates: golden integers `a + b·φ` scaled per axis by a square
//! root, and the squared lengths and determinants that decide distances and
//! orientations among them.
use vstd::prelude::*;

use crate::orientation::{Chirality, Orientation, Winding};

verus! {

/// Every coordinate `c·√(s/SCALE_DENOMINATOR)` shares this denominator.
pub const SCALE_DENOMINATOR: u32 = 120;

/// The golden integer `a + b·φ`, where φ = (1 + √5)/2 is the golden ratio.
#[derive(Clone, Copy, PartialEq, Eq, Structural, Debug)]
pub struct Golden {
    pub a: i64,
    pub b: i64,
}

/// The real number `value·√(scale/120)`.
#[derive(Clone, Copy, PartialEq, Eq, Structural, Debug)]
pub struct Coordinate {
    pub value: Golden,
    pub scale: Golden,
}

/// An exact point in space.
#[derive(Clone, Copy, PartialEq, Eq, Structural, Debug)]
pub struct SolidPoint {
    pub x: Coordinate,
    pub y: Coordinate,
    pub z: Coordinate,
}

/// A golden integer as a pair of mathematical integers.
pub open spec fn gi(x: Golden) -> (int, int) {
    (x.a as int, x.b as int)
}

pub open spec fn g_add(x: (int, int), y: (int, int)) -> (int, int) {
    (x.0 + y.0, x.1 + y.1)
}

pub open spec fn g_sub(x: (int, int), y: (int, int)) -> (int, int) {
    (x.0 - y.0, x.1 - y.1)
}

/// The product in the golden integers, with φ² = φ + 1.
pub open spec fn g_mul(x: (int, int), y: (int, int)) -> (int, int) {
    (x.0 * y.0 + x.1 * y.1, x.0 * y.1 + x.1 * y.0 + x.1 * y.1)
}

pub open spec fn g_neg(x: (int, int)) -> (int, int) {
    (-x.0, -x.1)
}

/// Whether the golden integer `a + b·φ` is positive.  φ is the positive
/// root of `t² - t - 1`, so for `a` and `b` of opposite signs the sign of
/// `a² + ab - b²` tells which of `|a|` and `|b|·φ` is larger.
pub open spec fn golden_positive(x: (int, int)) -> bool {
    let a = x.0;
    let b = x.1;
    ||| a >= 0 && b >= 0 && (a > 0 || b > 0)
    ||| a > 0 && b < 0 && a * a + a * b - b * b > 0
    ||| a < 0 && b > 0 && a * a + a * b - b * b < 0
}

/// The determinant of three golden 3-vectors.
pub open spec fn g_det(
    p: ((int, int), (int, int), (int, int)),
    q: ((int, int), (int, int), (int, int)),
    r: ((int, int), (int, int), (int, int)),
) -> (int, int) {
    let m0 = g_sub(g_mul(q.1, r.2), g_mul(q.2, r.1));
    let m1 = g_sub(g_mul(q.0, r.2), g_mul(q.2, r.0));
    let m2 = g_sub(g_mul(q.0, r.1), g_mul(q.1, r.0));
    g_add(g_sub(g_mul(p.0, m0), g_mul(p.1, m1)), g_mul(p.2, m2))
}

/// The golden coefficients of a point, axis by axis.
pub open spec fn coefficients(p: SolidPoint) -> ((int, int), (int, int), (int, int)) {
    (gi(p.x.value), gi(p.y.value), gi(p.z.value))
}

/// The determinant of the coefficients of three points of one frame: the
/// determinant of the points themselves, `p · (q × r)`, divided by the
/// positive product of the three axes' units.
pub open spec fn point_det(p: SolidPoint, q: SolidPoint, r: SolidPoint) -> (int, int) {
    g_det(coefficients(p), coefficients(q), coefficients(r))
}

/// Whether the triangle `(p, q, r)` on a solid around the origin is a front
/// face, seen from outside, under orientation `o`.  Right-handed and
/// counterclockwise, that is `p · (q × r) > 0`; each of a left-handed space
/// and a clockwise winding reverses the sign.
pub open spec fn front_facing(o: Orientation, p: SolidPoint, q: SolidPoint, r: SolidPoint) -> bool {
    let d = point_det(p, q, r);
    if (o.chirality == Chirality::Right) == (o.winding == Winding::Counterclockwise) {
        golden_positive(d)
    } else {
        golden_positive(g_neg(d))
    }
}

/// `120·c²` for a coordinate `c`.
pub open spec fn coordinate_square(c: Coordinate) -> (int, int) {
    g_mul(g_mul(gi(c.value), gi(c.value)), gi(c.scale))
}

/// `120·|p|²`, the squared distance of `p` from the origin.
pub open spec fn norm_num(p: SolidPoint) -> (int, int) {
    g_add(g_add(coordinate_square(p.x), coordinate_square(p.y)), coordinate_square(p.z))
}

/// Whether two points have the same scale on each axis.
pub open spec fn same_frame(p: SolidPoint, q: SolidPoint) -> bool {
    p.x.scale == q.x.scale && p.y.scale == q.y.scale && p.z.scale == q.z.scale
}

/// `120·(c - d)²` for two coordinates of the same scale.
pub open spec fn difference_square(c: Coordinate, d: Coordinate) -> (int, int) {
    let diff = g_sub(gi(c.value), gi(d.value));
    g_mul(g_mul(diff, diff), gi(c.scale))
}

/// `120·|p - q|²` for two points of the same frame.
pub open spec fn distance_num(p: SolidPoint, q: SolidPoint) -> (int, int) {
    g_add(
        g_add(difference_square(p.x, q.x), difference_square(p.y, q.y)),
        difference_square(p.z, q.z),
    )
}

/// Whether `p` and `q` are exactly one unit apart.
pub open spec fn unit_apart(p: SolidPoint, q: SolidPoint) -> bool {
    same_frame(p, q) && distance_num(p, q) == (SCALE_DENOMINATOR as int, 0int)
}

/// Whether the x and z coefficients of a point, the ones that mirroring
/// negates, fit in 32 bits.
pub open spec fn small(p: SolidPoint) -> bool {
    let bound = 0x8000_0000int;
    &&& -bound < p.x.value.a < bound
    &&& -bound < p.x.value.b < bound
    &&& -bound < p.z.value.a < bound
    &&& -bound < p.z.value.b < bound
}

pub open spec fn negate(c: Coordinate) -> Coordinate {
    Coordinate { value: Golden { a: (-c.value.a) as i64, b: (-c.value.b) as i64 }, scale: c.scale }
}

/// The reflection of `p` in the plane x = 0.
pub open spec fn mirror_x(p: SolidPoint) -> SolidPoint {
    SolidPoint { x: negate(p.x), ..p }
}

/// The reflection of `p` in the plane z = 0.
pub open spec fn mirror_z(p: SolidPoint) -> SolidPoint {
    SolidPoint { z: negate(p.z), ..p }
}

/// A point of a model given right-handed and counterclockwise, as seen under
/// orientation `o`: a clockwise winding mirrors x, which turns every front
/// face's traversal around; a left-handed space mirrors z, which together
/// with the change of handedness leaves every traversal as it was.
pub open spec fn oriented(p: SolidPoint, o: Orientation) -> SolidPoint {
    let q = if o.winding == Winding::Clockwise { mirror_x(p) } else { p };
    if o.chirality == Chirality::Left { mirror_z(q) } else { q }
}

proof fn lemma_negate_square(c: Coordinate)
    requires
        -0x8000_0000int < c.value.a < 0x8000_0000int,
        -0x8000_0000int < c.value.b < 0x8000_0000int,
    ensures
        coordinate_square(negate(c)) == coordinate_square(c),
{
    let a = c.value.a as int;
    let b = c.value.b as int;
    assert((-a) * (-a) == a * a) by (nonlinear_arith);
    assert((-b) * (-b) == b * b) by (nonlinear_arith);
    assert((-a) * (-b) == a * b) by (nonlinear_arith);
    assert((-b) * (-a) == b * a) by (nonlinear_arith);
}

proof fn lemma_negate_difference(c: Coordinate, d: Coordinate)
    requires
        -0x8000_0000int < c.value.a < 0x8000_0000int,
        -0x8000_0000int < c.value.b < 0x8000_0000int,
        -0x8000_0000int < d.value.a < 0x8000_0000int,
        -0x8000_0000int < d.value.b < 0x8000_0000int,
    ensures
        difference_square(negate(c), negate(d)) == difference_square(c, d),
{
    let u = c.value.a - d.value.a;
    let v = c.value.b - d.value.b;
    assert((-u) * (-u) == u * u) by (nonlinear_arith);
    assert((-v) * (-v) == v * v) by (nonlinear_arith);
    assert((-u) * (-v) == u * v) by (nonlinear_arith);
    assert((-v) * (-u) == v * u) by (nonlinear_arith);
}

proof fn lemma_mul_neg(x: (int, int), y: (int, int))
    ensures
        g_mul(g_neg(x), y) == g_neg(g_mul(x, y)),
        g_mul(x, g_neg(y)) == g_neg(g_mul(x, y)),
{
    assert((-x.0) * y.0 == -(x.0 * y.0)) by (nonlinear_arith);
    assert((-x.1) * y.1 == -(x.1 * y.1)) by (nonlinear_arith);
    assert((-x.0) * y.1 == -(x.0 * y.1)) by (nonlinear_arith);
    assert((-x.1) * y.0 == -(x.1 * y.0)) by (nonlinear_arith);
    assert(x.0 * (-y.0) == -(x.0 * y.0)) by (nonlinear_arith);
    assert(x.1 * (-y.1) == -(x.1 * y.1)) by (nonlinear_arith);
    assert(x.0 * (-y.1) == -(x.0 * y.1)) by (nonlinear_arith);
    assert(x.1 * (-y.0) == -(x.1 * y.0)) by (nonlinear_arith);
}

proof fn lemma_det_negate_x(
    p: ((int, int), (int, int), (int, int)),
    q: ((int, int), (int, int), (int, int)),
    r: ((int, int), (int, int), (int, int)),
)
    ensures
        g_det((g_neg(p.0), p.1, p.2), (g_neg(q.0), q.1, q.2), (g_neg(r.0), r.1, r.2)) == g_neg(g_det(p, q, r)),
{
    let m0 = g_sub(g_mul(q.1, r.2), g_mul(q.2, r.1));
    let m1 = g_sub(g_mul(q.0, r.2), g_mul(q.2, r.0));
    let m2 = g_sub(g_mul(q.0, r.1), g_mul(q.1, r.0));
    lemma_mul_neg(q.0, r.2);
    lemma_mul_neg(q.2, r.0);
    lemma_mul_neg(q.0, r.1);
    lemma_mul_neg(q.1, r.0);
    lemma_mul_neg(p.0, m0);
    lemma_mul_neg(p.1, m1);
    lemma_mul_neg(p.2, m2);
}

proof fn lemma_det_negate_z(
    p: ((int, int), (int, int), (int, int)),
    q: ((int, int), (int, int), (int, int)),
    r: ((int, int), (int, int), (int, int)),
)
    ensures
        g_det((p.0, p.1, g_neg(p.2)), (q.0, q.1, g_neg(q.2)), (r.0, r.1, g_neg(r.2))) == g_neg(g_det(p, q, r)),
{
    let m0 = g_sub(g_mul(q.1, r.2), g_mul(q.2, r.1));
    let m1 = g_sub(g_mul(q.0, r.2), g_mul(q.2, r.0));
    let m2 = g_sub(g_mul(q.0, r.1), g_mul(q.1, r.0));
    lemma_mul_neg(q.1, r.2);
    lemma_mul_neg(q.2, r.1);
    lemma_mul_neg(q.0, r.2);
    lemma_mul_neg(q.2, r.0);
    lemma_mul_neg(p.0, m0);
    lemma_mul_neg(p.1, m1);
    lemma_mul_neg(p.2, m2);
}

/// Mirroring in one axis reverses the sign of every determinant.
pub proof fn lemma_oriented_det(p: SolidPoint, q: SolidPoint, r: SolidPoint, o: Orientation)
    requires
        small(p),
        small(q),
        small(r),
    ensures
        point_det(oriented(p, o), oriented(q, o), oriented(r, o)) == if (o.chirality == Chirality::Right) == (
        o.winding == Winding::Counterclockwise) {
            point_det(p, q, r)
        } else {
            g_neg(point_det(p, q, r))
        },
{
    let (cp, cq, cr) = (coefficients(p), coefficients(q), coefficients(r));
    lemma_det_negate_x(cp, cq, cr);
    let xp = (g_neg(cp.0), cp.1, cp.2);
    let xq = (g_neg(cq.0), cq.1, cq.2);
    let xr = (g_neg(cr.0), cr.1, cr.2);
    lemma_det_negate_z(cp, cq, cr);
    lemma_det_negate_z(xp, xq, xr);
    assert(coefficients(mirror_x(p)) == xp);
    assert(coefficients(mirror_x(q)) == xq);
    assert(coefficients(mirror_x(r)) == xr);
    assert(g_neg(g_neg(g_det(cp, cq, cr))) == g_det(cp, cq, cr));
}

/// Mirroring keeps every point's distance from the origin.
pub proof fn lemma_oriented_norm(p: SolidPoint, o: Orientation)
    requires
        small(p),
    ensures
        norm_num(oriented(p, o)) == norm_num(p),
{
    lemma_negate_square(p.x);
    lemma_negate_square(p.z);
}

/// Mirroring keeps the distance between two points of one frame.
pub proof fn lemma_oriented_distance(p: SolidPoint, q: SolidPoint, o: Orientation)
    requires
        small(p),
        small(q),
    ensures
        same_frame(oriented(p, o), oriented(q, o)) == same_frame(p, q),
        distance_num(oriented(p, o), oriented(q, o)) == distance_num(p, q),
{
    lemma_negate_difference(p.x, q.x);
    lemma_negate_difference(p.z, q.z);
}

/// Whether every coefficient of a point, value and scale, is at most 1000
/// in magnitude: enough for exact arithmetic in 64 bits.
pub open spec fn modest(p: SolidPoint) -> bool {
    let ok = |g: Golden| -1000 <= g.a <= 1000 && -1000 <= g.b <= 1000;
    &&& ok(p.x.value) && ok(p.x.scale)
    &&& ok(p.y.value) && ok(p.y.scale)
    &&& ok(p.z.value) && ok(p.z.scale)
}

proof fn lemma_product_bound(x: int, y: int, bound: int, limit: int)
    requires
        -bound <= x <= bound,
        -bound <= y <= bound,
        bound * bound <= limit,
    ensures
        -limit <= x * y <= limit,
{
    assert(-limit <= x * y <= limit) by (nonlinear_arith)
        requires
            -bound <= x <= bound,
            -bound <= y <= bound,
            bound * bound <= limit,
    ;
}

impl Golden {
    /// The product, with φ² = φ + 1.
    pub fn mul(self, other: Golden) -> (r: Golden)
        requires
            -0x4000_0000 <= self.a <= 0x4000_0000,
            -0x4000_0000 <= self.b <= 0x4000_0000,
            -0x4000_0000 <= other.a <= 0x4000_0000,
            -0x4000_0000 <= other.b <= 0x4000_0000,
        ensures
            gi(r) == g_mul(gi(self), gi(other)),
    {
        proof {
            let l = 0x1000_0000_0000_0000int;
            lemma_product_bound(self.a as int, other.a as int, 0x4000_0000, l);
            lemma_product_bound(self.b as int, other.b as int, 0x4000_0000, l);
            lemma_product_bound(self.a as int, other.b as int, 0x4000_0000, l);
            lemma_product_bound(self.b as int, other.a as int, 0x4000_0000, l);
        }
        let bb = self.b * other.b;
        Golden { a: self.a * other.a + bb, b: self.a * other.b + self.b * other.a + bb }
    }
}

fn coordinate_square_exec(c: Coordinate) -> (r: Golden)
    requires
        -1000 <= c.value.a <= 1000,
        -1000 <= c.value.b <= 1000,
        -1000 <= c.scale.a <= 1000,
        -1000 <= c.scale.b <= 1000,
    ensures
        gi(r) == coordinate_square(c),
        -0x4_0000_0000_0000 <= r.a <= 0x4_0000_0000_0000,
        -0x4_0000_0000_0000 <= r.b <= 0x4_0000_0000_0000,
{
    let sq = c.value.mul(c.value);
    proof {
        lemma_product_bound(c.value.a as int, c.value.a as int, 1000, 1_000_000);
        lemma_product_bound(c.value.b as int, c.value.b as int, 1000, 1_000_000);
        lemma_product_bound(c.value.a as int, c.value.b as int, 1000, 1_000_000);
        lemma_product_bound(sq.a as int, c.scale.a as int, 3_000_000, 9_000_000_000_000);
        lemma_product_bound(sq.b as int, c.scale.b as int, 3_000_000, 9_000_000_000_000);
        lemma_product_bound(sq.a as int, c.scale.b as int, 3_000_000, 9_000_000_000_000);
        lemma_product_bound(sq.b as int, c.scale.a as int, 3_000_000, 9_000_000_000_000);
    }
    sq.mul(c.scale)
}

fn difference_square_exec(c: Coordinate, d: Coordinate) -> (r: Golden)
    requires
        -1000 <= c.value.a <= 1000,
        -1000 <= c.value.b <= 1000,
        -1000 <= d.value.a <= 1000,
        -1000 <= d.value.b <= 1000,
        -1000 <= c.scale.a <= 1000,
        -1000 <= c.scale.b <= 1000,
    ensures
        gi(r) == difference_square(c, d),
        -0x4_0000_0000_0000 <= r.a <= 0x4_0000_0000_0000,
        -0x4_0000_0000_0000 <= r.b <= 0x4_0000_0000_0000,
{
    let diff = Golden { a: c.value.a - d.value.a, b: c.value.b - d.value.b };
    let sq = diff.mul(diff);
    proof {
        lemma_product_bound(diff.a as int, diff.a as int, 2000, 4_000_000);
        lemma_product_bound(diff.b as int, diff.b as int, 2000, 4_000_000);
        lemma_product_bound(diff.a as int, diff.b as int, 2000, 4_000_000);
        lemma_product_bound(sq.a as int, c.scale.a as int, 12_000_000, 144_000_000_000_000);
        lemma_product_bound(sq.b as int, c.scale.b as int, 12_000_000, 144_000_000_000_000);
        lemma_product_bound(sq.a as int, c.scale.b as int, 12_000_000, 144_000_000_000_000);
        lemma_product_bound(sq.b as int, c.scale.a as int, 12_000_000, 144_000_000_000_000);
    }
    sq.mul(c.scale)
}

impl SolidPoint {
    /// `120·|p|²` as a golden integer: the exact squared distance from the
    /// origin, times 120.
    pub fn norm_squared_num(&self) -> (r: Golden)
        requires
            modest(*self),
        ensures
            gi(r) == norm_num(*self),
    {
        let x = coordinate_square_exec(self.x);
        let y = coordinate_square_exec(self.y);
        let z = coordinate_square_exec(self.z);
        Golden { a: x.a + y.a + z.a, b: x.b + y.b + z.b }
    }

    /// `120·|p - q|²` as a golden integer, for two points of one frame.
    pub fn distance_squared_num(&self, other: &SolidPoint) -> (r: Golden)
        requires
            modest(*self),
            modest(*other),
            same_frame(*self, *other),
        ensures
            gi(r) == distance_num(*self, *other),
    {
        let x = difference_square_exec(self.x, other.x);
        let y = difference_square_exec(self.y, other.y);
        let z = difference_square_exec(self.z, other.z);
        Golden { a: x.a + y.a + z.a, b: x.b + y.b + z.b }
    }
}

} // verus!
