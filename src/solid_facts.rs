//! Facts about the coefficient tables of the Platonic solids, proved
//! entry by entry: every row lies on the circumscribed sphere, every listed
//! edge has unit length, every side of every strip triangle is an edge or a
//! face diagonal, and every strip triangle runs counterclockwise seen from
//! outside.
use vstd::prelude::*;

use crate::exact::{g_add, g_det, g_mul, gi, golden_positive, norm_num, small, Golden};
use crate::platonic::{row_point, PlatonicSolid};
use crate::shape::{is_degenerate, strip_triangle};

verus! {

/// `120·|p|²` for the point of row `r` on axes of squared units `s`.
pub(crate) open spec fn row_norm(r: (int, int, int, int, int, int), s: ((int, int), (int, int), (int, int))) -> (int, int) {
    g_add(
        g_add(g_mul(g_mul((r.0, r.1), (r.0, r.1)), s.0), g_mul(g_mul((r.2, r.3), (r.2, r.3)), s.1)),
        g_mul(g_mul((r.4, r.5), (r.4, r.5)), s.2),
    )
}

pub(crate) open spec fn fits_32(r: (int, int, int, int, int, int)) -> bool {
    let bound = 0x8000_0000int;
    &&& -bound < r.0 < bound
    &&& -bound < r.1 < bound
    &&& -bound < r.2 < bound
    &&& -bound < r.3 < bound
    &&& -bound < r.4 < bound
    &&& -bound < r.5 < bound
}

/// Row `i` of `solid` lies on the circumscribed sphere, with coefficients
/// that mirroring cannot overflow.
pub(crate) open spec fn row_fits(solid: PlatonicSolid, i: int) -> bool {
    &&& row_norm(solid.model_row(i), solid.scale_ints()) == solid.circumradius_num()
    &&& fits_32(solid.model_row(i))
}

pub(crate) proof fn lemma_row_point_values(solid: PlatonicSolid, r: (int, int, int, int, int, int))
    requires
        fits_32(r),
    ensures
        gi(row_point(r, solid.spec_scales()).x.value) == (r.0, r.1),
        gi(row_point(r, solid.spec_scales()).y.value) == (r.2, r.3),
        gi(row_point(r, solid.spec_scales()).z.value) == (r.4, r.5),
        gi(row_point(r, solid.spec_scales()).x.scale) == solid.scale_ints().0,
        gi(row_point(r, solid.spec_scales()).y.scale) == solid.scale_ints().1,
        gi(row_point(r, solid.spec_scales()).z.scale) == solid.scale_ints().2,
        small(row_point(r, solid.spec_scales())),
        norm_num(row_point(r, solid.spec_scales())) == row_norm(r, solid.scale_ints()),
{
}

pub(crate) proof fn lemma_tetrahedron_rows()
    ensures
        forall|i: int| 0 <= i < 4 ==> #[trigger] row_fits(PlatonicSolid::Tetrahedron, i),
{
    assert(PlatonicSolid::Tetrahedron.model_row(0) == (-1int, 0int, -1int, 0int, 1int, 0int));
    assert(PlatonicSolid::Tetrahedron.scale_ints() == ((30int, 0int), (5int, 0int), (10int, 0int)));
    assert(row_norm((-1int, 0int, -1int, 0int, 1int, 0int), ((30int, 0int), (5int, 0int), (10int, 0int))) == (45int, 0int)) by (nonlinear_arith);
    assert(row_fits(PlatonicSolid::Tetrahedron, 0));
    assert(PlatonicSolid::Tetrahedron.model_row(1) == (1int, 0int, -1int, 0int, 1int, 0int));
    assert(row_norm((1int, 0int, -1int, 0int, 1int, 0int), ((30int, 0int), (5int, 0int), (10int, 0int))) == (45int, 0int)) by (nonlinear_arith);
    assert(row_fits(PlatonicSolid::Tetrahedron, 1));
    assert(PlatonicSolid::Tetrahedron.model_row(2) == (0int, 0int, 3int, 0int, 0int, 0int));
    assert(row_norm((0int, 0int, 3int, 0int, 0int, 0int), ((30int, 0int), (5int, 0int), (10int, 0int))) == (45int, 0int)) by (nonlinear_arith);
    assert(row_fits(PlatonicSolid::Tetrahedron, 2));
    assert(PlatonicSolid::Tetrahedron.model_row(3) == (0int, 0int, -1int, 0int, -2int, 0int));
    assert(row_norm((0int, 0int, -1int, 0int, -2int, 0int), ((30int, 0int), (5int, 0int), (10int, 0int))) == (45int, 0int)) by (nonlinear_arith);
    assert(row_fits(PlatonicSolid::Tetrahedron, 3));
    assert forall|i: int| 0 <= i < 4 implies #[trigger] row_fits(PlatonicSolid::Tetrahedron, i) by {
        if i == 0 {} else if i == 1 {} else if i == 2 {} else if i == 3 {}
    }
}

pub(crate) proof fn lemma_hexahedron_rows()
    ensures
        forall|i: int| 0 <= i < 8 ==> #[trigger] row_fits(PlatonicSolid::Hexahedron, i),
{
    assert(PlatonicSolid::Hexahedron.model_row(0) == (-1int, 0int, -1int, 0int, 1int, 0int));
    assert(PlatonicSolid::Hexahedron.scale_ints() == ((30int, 0int), (30int, 0int), (30int, 0int)));
    assert(row_norm((-1int, 0int, -1int, 0int, 1int, 0int), ((30int, 0int), (30int, 0int), (30int, 0int))) == (90int, 0int)) by (nonlinear_arith);
    assert(row_fits(PlatonicSolid::Hexahedron, 0));
    assert(PlatonicSolid::Hexahedron.model_row(1) == (1int, 0int, -1int, 0int, 1int, 0int));
    assert(row_norm((1int, 0int, -1int, 0int, 1int, 0int), ((30int, 0int), (30int, 0int), (30int, 0int))) == (90int, 0int)) by (nonlinear_arith);
    assert(row_fits(PlatonicSolid::Hexahedron, 1));
    assert(PlatonicSolid::Hexahedron.model_row(2) == (-1int, 0int, 1int, 0int, 1int, 0int));
    assert(row_norm((-1int, 0int, 1int, 0int, 1int, 0int), ((30int, 0int), (30int, 0int), (30int, 0int))) == (90int, 0int)) by (nonlinear_arith);
    assert(row_fits(PlatonicSolid::Hexahedron, 2));
    assert(PlatonicSolid::Hexahedron.model_row(3) == (1int, 0int, 1int, 0int, 1int, 0int));
    assert(row_norm((1int, 0int, 1int, 0int, 1int, 0int), ((30int, 0int), (30int, 0int), (30int, 0int))) == (90int, 0int)) by (nonlinear_arith);
    assert(row_fits(PlatonicSolid::Hexahedron, 3));
    assert(PlatonicSolid::Hexahedron.model_row(4) == (-1int, 0int, -1int, 0int, -1int, 0int));
    assert(row_norm((-1int, 0int, -1int, 0int, -1int, 0int), ((30int, 0int), (30int, 0int), (30int, 0int))) == (90int, 0int)) by (nonlinear_arith);
    assert(row_fits(PlatonicSolid::Hexahedron, 4));
    assert(PlatonicSolid::Hexahedron.model_row(5) == (1int, 0int, -1int, 0int, -1int, 0int));
    assert(row_norm((1int, 0int, -1int, 0int, -1int, 0int), ((30int, 0int), (30int, 0int), (30int, 0int))) == (90int, 0int)) by (nonlinear_arith);
    assert(row_fits(PlatonicSolid::Hexahedron, 5));
    assert(PlatonicSolid::Hexahedron.model_row(6) == (-1int, 0int, 1int, 0int, -1int, 0int));
    assert(row_norm((-1int, 0int, 1int, 0int, -1int, 0int), ((30int, 0int), (30int, 0int), (30int, 0int))) == (90int, 0int)) by (nonlinear_arith);
    assert(row_fits(PlatonicSolid::Hexahedron, 6));
    assert(PlatonicSolid::Hexahedron.model_row(7) == (1int, 0int, 1int, 0int, -1int, 0int));
    assert(row_norm((1int, 0int, 1int, 0int, -1int, 0int), ((30int, 0int), (30int, 0int), (30int, 0int))) == (90int, 0int)) by (nonlinear_arith);
    assert(row_fits(PlatonicSolid::Hexahedron, 7));
    assert forall|i: int| 0 <= i < 8 implies #[trigger] row_fits(PlatonicSolid::Hexahedron, i) by {
        if i == 0 {} else if i == 1 {} else if i == 2 {} else if i == 3 {} else if i == 4 {} else if i == 5 {} else if i == 6 {} else if i == 7 {}
    }
}

pub(crate) proof fn lemma_octahedron_rows()
    ensures
        forall|i: int| 0 <= i < 6 ==> #[trigger] row_fits(PlatonicSolid::Octahedron, i),
{
    assert(PlatonicSolid::Octahedron.model_row(0) == (0int, 0int, 1int, 0int, 0int, 0int));
    assert(PlatonicSolid::Octahedron.scale_ints() == ((30int, 0int), (60int, 0int), (30int, 0int)));
    assert(row_norm((0int, 0int, 1int, 0int, 0int, 0int), ((30int, 0int), (60int, 0int), (30int, 0int))) == (60int, 0int)) by (nonlinear_arith);
    assert(row_fits(PlatonicSolid::Octahedron, 0));
    assert(PlatonicSolid::Octahedron.model_row(1) == (-1int, 0int, 0int, 0int, -1int, 0int));
    assert(row_norm((-1int, 0int, 0int, 0int, -1int, 0int), ((30int, 0int), (60int, 0int), (30int, 0int))) == (60int, 0int)) by (nonlinear_arith);
    assert(row_fits(PlatonicSolid::Octahedron, 1));
    assert(PlatonicSolid::Octahedron.model_row(2) == (-1int, 0int, 0int, 0int, 1int, 0int));
    assert(row_norm((-1int, 0int, 0int, 0int, 1int, 0int), ((30int, 0int), (60int, 0int), (30int, 0int))) == (60int, 0int)) by (nonlinear_arith);
    assert(row_fits(PlatonicSolid::Octahedron, 2));
    assert(PlatonicSolid::Octahedron.model_row(3) == (1int, 0int, 0int, 0int, 1int, 0int));
    assert(row_norm((1int, 0int, 0int, 0int, 1int, 0int), ((30int, 0int), (60int, 0int), (30int, 0int))) == (60int, 0int)) by (nonlinear_arith);
    assert(row_fits(PlatonicSolid::Octahedron, 3));
    assert(PlatonicSolid::Octahedron.model_row(4) == (1int, 0int, 0int, 0int, -1int, 0int));
    assert(row_norm((1int, 0int, 0int, 0int, -1int, 0int), ((30int, 0int), (60int, 0int), (30int, 0int))) == (60int, 0int)) by (nonlinear_arith);
    assert(row_fits(PlatonicSolid::Octahedron, 4));
    assert(PlatonicSolid::Octahedron.model_row(5) == (0int, 0int, -1int, 0int, 0int, 0int));
    assert(row_norm((0int, 0int, -1int, 0int, 0int, 0int), ((30int, 0int), (60int, 0int), (30int, 0int))) == (60int, 0int)) by (nonlinear_arith);
    assert(row_fits(PlatonicSolid::Octahedron, 5));
    assert forall|i: int| 0 <= i < 6 implies #[trigger] row_fits(PlatonicSolid::Octahedron, i) by {
        if i == 0 {} else if i == 1 {} else if i == 2 {} else if i == 3 {} else if i == 4 {} else if i == 5 {}
    }
}

pub(crate) proof fn lemma_dodecahedron_rows()
    ensures
        forall|i: int| 0 <= i < 20 ==> #[trigger] row_fits(PlatonicSolid::Dodecahedron, i),
{
    assert(PlatonicSolid::Dodecahedron.model_row(0) == (0int, 0int, 2int, 2int, 2int, 3int));
    assert(PlatonicSolid::Dodecahedron.scale_ints() == ((30int, 0int), (42int, -24int), (42int, -24int)));
    assert(row_norm((0int, 0int, 2int, 2int, 2int, 3int), ((30int, 0int), (42int, -24int), (42int, -24int))) == (90int, 90int)) by (nonlinear_arith);
    assert(row_fits(PlatonicSolid::Dodecahedron, 0));
    assert(PlatonicSolid::Dodecahedron.model_row(1) == (0int, -1int, 0int, 1int, 2int, 3int));
    assert(row_norm((0int, -1int, 0int, 1int, 2int, 3int), ((30int, 0int), (42int, -24int), (42int, -24int))) == (90int, 90int)) by (nonlinear_arith);
    assert(row_fits(PlatonicSolid::Dodecahedron, 1));
    assert(PlatonicSolid::Dodecahedron.model_row(2) == (0int, 1int, 0int, 1int, 2int, 3int));
    assert(row_norm((0int, 1int, 0int, 1int, 2int, 3int), ((30int, 0int), (42int, -24int), (42int, -24int))) == (90int, 90int)) by (nonlinear_arith);
    assert(row_fits(PlatonicSolid::Dodecahedron, 2));
    assert(PlatonicSolid::Dodecahedron.model_row(3) == (-1int, 0int, -1int, -2int, 2int, 3int));
    assert(row_norm((-1int, 0int, -1int, -2int, 2int, 3int), ((30int, 0int), (42int, -24int), (42int, -24int))) == (90int, 90int)) by (nonlinear_arith);
    assert(row_fits(PlatonicSolid::Dodecahedron, 3));
    assert(PlatonicSolid::Dodecahedron.model_row(4) == (1int, 0int, -1int, -2int, 2int, 3int));
    assert(row_norm((1int, 0int, -1int, -2int, 2int, 3int), ((30int, 0int), (42int, -24int), (42int, -24int))) == (90int, 90int)) by (nonlinear_arith);
    assert(row_fits(PlatonicSolid::Dodecahedron, 4));
    assert(PlatonicSolid::Dodecahedron.model_row(5) == (0int, 0int, 2int, 4int, 0int, 1int));
    assert(row_norm((0int, 0int, 2int, 4int, 0int, 1int), ((30int, 0int), (42int, -24int), (42int, -24int))) == (90int, 90int)) by (nonlinear_arith);
    assert(row_fits(PlatonicSolid::Dodecahedron, 5));
    assert(PlatonicSolid::Dodecahedron.model_row(6) == (-1int, -1int, 1int, 1int, 0int, 1int));
    assert(row_norm((-1int, -1int, 1int, 1int, 0int, 1int), ((30int, 0int), (42int, -24int), (42int, -24int))) == (90int, 90int)) by (nonlinear_arith);
    assert(row_fits(PlatonicSolid::Dodecahedron, 6));
    assert(PlatonicSolid::Dodecahedron.model_row(7) == (1int, 1int, 1int, 1int, 0int, 1int));
    assert(row_norm((1int, 1int, 1int, 1int, 0int, 1int), ((30int, 0int), (42int, -24int), (42int, -24int))) == (90int, 90int)) by (nonlinear_arith);
    assert(row_fits(PlatonicSolid::Dodecahedron, 7));
    assert(PlatonicSolid::Dodecahedron.model_row(8) == (0int, -1int, -2int, -3int, 0int, 1int));
    assert(row_norm((0int, -1int, -2int, -3int, 0int, 1int), ((30int, 0int), (42int, -24int), (42int, -24int))) == (90int, 90int)) by (nonlinear_arith);
    assert(row_fits(PlatonicSolid::Dodecahedron, 8));
    assert(PlatonicSolid::Dodecahedron.model_row(9) == (0int, 1int, -2int, -3int, 0int, 1int));
    assert(row_norm((0int, 1int, -2int, -3int, 0int, 1int), ((30int, 0int), (42int, -24int), (42int, -24int))) == (90int, 90int)) by (nonlinear_arith);
    assert(row_fits(PlatonicSolid::Dodecahedron, 9));
    assert(PlatonicSolid::Dodecahedron.model_row(10) == (0int, -1int, 2int, 3int, 0int, -1int));
    assert(row_norm((0int, -1int, 2int, 3int, 0int, -1int), ((30int, 0int), (42int, -24int), (42int, -24int))) == (90int, 90int)) by (nonlinear_arith);
    assert(row_fits(PlatonicSolid::Dodecahedron, 10));
    assert(PlatonicSolid::Dodecahedron.model_row(11) == (0int, 1int, 2int, 3int, 0int, -1int));
    assert(row_norm((0int, 1int, 2int, 3int, 0int, -1int), ((30int, 0int), (42int, -24int), (42int, -24int))) == (90int, 90int)) by (nonlinear_arith);
    assert(row_fits(PlatonicSolid::Dodecahedron, 11));
    assert(PlatonicSolid::Dodecahedron.model_row(12) == (-1int, -1int, -1int, -1int, 0int, -1int));
    assert(row_norm((-1int, -1int, -1int, -1int, 0int, -1int), ((30int, 0int), (42int, -24int), (42int, -24int))) == (90int, 90int)) by (nonlinear_arith);
    assert(row_fits(PlatonicSolid::Dodecahedron, 12));
    assert(PlatonicSolid::Dodecahedron.model_row(13) == (1int, 1int, -1int, -1int, 0int, -1int));
    assert(row_norm((1int, 1int, -1int, -1int, 0int, -1int), ((30int, 0int), (42int, -24int), (42int, -24int))) == (90int, 90int)) by (nonlinear_arith);
    assert(row_fits(PlatonicSolid::Dodecahedron, 13));
    assert(PlatonicSolid::Dodecahedron.model_row(14) == (0int, 0int, -2int, -4int, 0int, -1int));
    assert(row_norm((0int, 0int, -2int, -4int, 0int, -1int), ((30int, 0int), (42int, -24int), (42int, -24int))) == (90int, 90int)) by (nonlinear_arith);
    assert(row_fits(PlatonicSolid::Dodecahedron, 14));
    assert(PlatonicSolid::Dodecahedron.model_row(15) == (-1int, 0int, 1int, 2int, -2int, -3int));
    assert(row_norm((-1int, 0int, 1int, 2int, -2int, -3int), ((30int, 0int), (42int, -24int), (42int, -24int))) == (90int, 90int)) by (nonlinear_arith);
    assert(row_fits(PlatonicSolid::Dodecahedron, 15));
    assert(PlatonicSolid::Dodecahedron.model_row(16) == (1int, 0int, 1int, 2int, -2int, -3int));
    assert(row_norm((1int, 0int, 1int, 2int, -2int, -3int), ((30int, 0int), (42int, -24int), (42int, -24int))) == (90int, 90int)) by (nonlinear_arith);
    assert(row_fits(PlatonicSolid::Dodecahedron, 16));
    assert(PlatonicSolid::Dodecahedron.model_row(17) == (0int, -1int, 0int, -1int, -2int, -3int));
    assert(row_norm((0int, -1int, 0int, -1int, -2int, -3int), ((30int, 0int), (42int, -24int), (42int, -24int))) == (90int, 90int)) by (nonlinear_arith);
    assert(row_fits(PlatonicSolid::Dodecahedron, 17));
    assert(PlatonicSolid::Dodecahedron.model_row(18) == (0int, 1int, 0int, -1int, -2int, -3int));
    assert(row_norm((0int, 1int, 0int, -1int, -2int, -3int), ((30int, 0int), (42int, -24int), (42int, -24int))) == (90int, 90int)) by (nonlinear_arith);
    assert(row_fits(PlatonicSolid::Dodecahedron, 18));
    assert(PlatonicSolid::Dodecahedron.model_row(19) == (0int, 0int, -2int, -2int, -2int, -3int));
    assert(row_norm((0int, 0int, -2int, -2int, -2int, -3int), ((30int, 0int), (42int, -24int), (42int, -24int))) == (90int, 90int)) by (nonlinear_arith);
    assert(row_fits(PlatonicSolid::Dodecahedron, 19));
    assert forall|i: int| 0 <= i < 20 implies #[trigger] row_fits(PlatonicSolid::Dodecahedron, i) by {
        if i == 0 {} else if i == 1 {} else if i == 2 {} else if i == 3 {} else if i == 4 {} else if i == 5 {} else if i == 6 {} else if i == 7 {} else if i == 8 {} else if i == 9 {} else if i == 10 {} else if i == 11 {} else if i == 12 {} else if i == 13 {} else if i == 14 {} else if i == 15 {} else if i == 16 {} else if i == 17 {} else if i == 18 {} else if i == 19 {}
    }
}

pub(crate) proof fn lemma_icosahedron_rows()
    ensures
        forall|i: int| 0 <= i < 12 ==> #[trigger] row_fits(PlatonicSolid::Icosahedron, i),
{
    assert(PlatonicSolid::Icosahedron.model_row(0) == (0int, 0int, -1int, 2int, 0int, 0int));
    assert(PlatonicSolid::Icosahedron.scale_ints() == ((30int, 0int), (12int, 6int), (42int, -24int)));
    assert(row_norm((0int, 0int, -1int, 2int, 0int, 0int), ((30int, 0int), (12int, 6int), (42int, -24int))) == (60int, 30int)) by (nonlinear_arith);
    assert(row_fits(PlatonicSolid::Icosahedron, 0));
    assert(PlatonicSolid::Icosahedron.model_row(1) == (0int, 0int, 1int, 0int, -2int, -2int));
    assert(row_norm((0int, 0int, 1int, 0int, -2int, -2int), ((30int, 0int), (12int, 6int), (42int, -24int))) == (60int, 30int)) by (nonlinear_arith);
    assert(row_fits(PlatonicSolid::Icosahedron, 1));
    assert(PlatonicSolid::Icosahedron.model_row(2) == (0int, -1int, 1int, 0int, 0int, -1int));
    assert(row_norm((0int, -1int, 1int, 0int, 0int, -1int), ((30int, 0int), (12int, 6int), (42int, -24int))) == (60int, 30int)) by (nonlinear_arith);
    assert(row_fits(PlatonicSolid::Icosahedron, 2));
    assert(PlatonicSolid::Icosahedron.model_row(3) == (0int, 1int, 1int, 0int, 0int, -1int));
    assert(row_norm((0int, 1int, 1int, 0int, 0int, -1int), ((30int, 0int), (12int, 6int), (42int, -24int))) == (60int, 30int)) by (nonlinear_arith);
    assert(row_fits(PlatonicSolid::Icosahedron, 3));
    assert(PlatonicSolid::Icosahedron.model_row(4) == (-1int, 0int, 1int, 0int, 1int, 2int));
    assert(row_norm((-1int, 0int, 1int, 0int, 1int, 2int), ((30int, 0int), (12int, 6int), (42int, -24int))) == (60int, 30int)) by (nonlinear_arith);
    assert(row_fits(PlatonicSolid::Icosahedron, 4));
    assert(PlatonicSolid::Icosahedron.model_row(5) == (1int, 0int, 1int, 0int, 1int, 2int));
    assert(row_norm((1int, 0int, 1int, 0int, 1int, 2int), ((30int, 0int), (12int, 6int), (42int, -24int))) == (60int, 30int)) by (nonlinear_arith);
    assert(row_fits(PlatonicSolid::Icosahedron, 5));
    assert(PlatonicSolid::Icosahedron.model_row(6) == (-1int, 0int, -1int, 0int, -1int, -2int));
    assert(row_norm((-1int, 0int, -1int, 0int, -1int, -2int), ((30int, 0int), (12int, 6int), (42int, -24int))) == (60int, 30int)) by (nonlinear_arith);
    assert(row_fits(PlatonicSolid::Icosahedron, 6));
    assert(PlatonicSolid::Icosahedron.model_row(7) == (1int, 0int, -1int, 0int, -1int, -2int));
    assert(row_norm((1int, 0int, -1int, 0int, -1int, -2int), ((30int, 0int), (12int, 6int), (42int, -24int))) == (60int, 30int)) by (nonlinear_arith);
    assert(row_fits(PlatonicSolid::Icosahedron, 7));
    assert(PlatonicSolid::Icosahedron.model_row(8) == (0int, -1int, -1int, 0int, 0int, 1int));
    assert(row_norm((0int, -1int, -1int, 0int, 0int, 1int), ((30int, 0int), (12int, 6int), (42int, -24int))) == (60int, 30int)) by (nonlinear_arith);
    assert(row_fits(PlatonicSolid::Icosahedron, 8));
    assert(PlatonicSolid::Icosahedron.model_row(9) == (0int, 1int, -1int, 0int, 0int, 1int));
    assert(row_norm((0int, 1int, -1int, 0int, 0int, 1int), ((30int, 0int), (12int, 6int), (42int, -24int))) == (60int, 30int)) by (nonlinear_arith);
    assert(row_fits(PlatonicSolid::Icosahedron, 9));
    assert(PlatonicSolid::Icosahedron.model_row(10) == (0int, 0int, -1int, 0int, 2int, 2int));
    assert(row_norm((0int, 0int, -1int, 0int, 2int, 2int), ((30int, 0int), (12int, 6int), (42int, -24int))) == (60int, 30int)) by (nonlinear_arith);
    assert(row_fits(PlatonicSolid::Icosahedron, 10));
    assert(PlatonicSolid::Icosahedron.model_row(11) == (0int, 0int, 1int, -2int, 0int, 0int));
    assert(row_norm((0int, 0int, 1int, -2int, 0int, 0int), ((30int, 0int), (12int, 6int), (42int, -24int))) == (60int, 30int)) by (nonlinear_arith);
    assert(row_fits(PlatonicSolid::Icosahedron, 11));
    assert forall|i: int| 0 <= i < 12 implies #[trigger] row_fits(PlatonicSolid::Icosahedron, i) by {
        if i == 0 {} else if i == 1 {} else if i == 2 {} else if i == 3 {} else if i == 4 {} else if i == 5 {} else if i == 6 {} else if i == 7 {} else if i == 8 {} else if i == 9 {} else if i == 10 {} else if i == 11 {}
    }
}

pub(crate) proof fn lemma_model_norms(solid: PlatonicSolid)
    ensures
        forall|i: int| 0 <= i < solid.vertex_count() ==> #[trigger] row_fits(solid, i),
{
    match solid {
        PlatonicSolid::Tetrahedron => lemma_tetrahedron_rows(),
        PlatonicSolid::Hexahedron => lemma_hexahedron_rows(),
        PlatonicSolid::Octahedron => lemma_octahedron_rows(),
        PlatonicSolid::Dodecahedron => lemma_dodecahedron_rows(),
        PlatonicSolid::Icosahedron => lemma_icosahedron_rows(),
    }
}

/// `120·|p - q|²` for the points of rows `r` and `t` on axes of squared
/// units `s`.
pub(crate) open spec fn row_distance(
    r: (int, int, int, int, int, int),
    t: (int, int, int, int, int, int),
    s: ((int, int), (int, int), (int, int)),
) -> (int, int) {
    let dx = (r.0 - t.0, r.1 - t.1);
    let dy = (r.2 - t.2, r.3 - t.3);
    let dz = (r.4 - t.4, r.5 - t.5);
    g_add(g_add(g_mul(g_mul(dx, dx), s.0), g_mul(g_mul(dy, dy), s.1)), g_mul(g_mul(dz, dz), s.2))
}

/// Edge `e` of `solid` joins two of its vertices one unit apart.
pub(crate) open spec fn edge_fits(solid: PlatonicSolid, e: int) -> bool {
    let (a, b) = solid.edge(e);
    &&& 0 <= a < solid.vertex_count()
    &&& 0 <= b < solid.vertex_count()
    &&& row_distance(solid.model_row(a), solid.model_row(b), solid.scale_ints()) == (120int, 0int)
}

pub(crate) proof fn lemma_tetrahedron_edges()
    ensures
        forall|e: int| 0 <= e < 6 ==> #[trigger] edge_fits(PlatonicSolid::Tetrahedron, e),
{
    assert(PlatonicSolid::Tetrahedron.edge(0) == (0int, 1int));
    assert(PlatonicSolid::Tetrahedron.model_row(0) == (-1int, 0int, -1int, 0int, 1int, 0int));
    assert(PlatonicSolid::Tetrahedron.model_row(1) == (1int, 0int, -1int, 0int, 1int, 0int));
    assert(PlatonicSolid::Tetrahedron.scale_ints() == ((30int, 0int), (5int, 0int), (10int, 0int)));
    assert(row_distance((-1int, 0int, -1int, 0int, 1int, 0int), (1int, 0int, -1int, 0int, 1int, 0int), ((30int, 0int), (5int, 0int), (10int, 0int))) == (120int, 0int)) by (nonlinear_arith);
    assert(edge_fits(PlatonicSolid::Tetrahedron, 0));
    assert(PlatonicSolid::Tetrahedron.edge(1) == (0int, 2int));
    assert(PlatonicSolid::Tetrahedron.model_row(0) == (-1int, 0int, -1int, 0int, 1int, 0int));
    assert(PlatonicSolid::Tetrahedron.model_row(2) == (0int, 0int, 3int, 0int, 0int, 0int));
    assert(PlatonicSolid::Tetrahedron.scale_ints() == ((30int, 0int), (5int, 0int), (10int, 0int)));
    assert(row_distance((-1int, 0int, -1int, 0int, 1int, 0int), (0int, 0int, 3int, 0int, 0int, 0int), ((30int, 0int), (5int, 0int), (10int, 0int))) == (120int, 0int)) by (nonlinear_arith);
    assert(edge_fits(PlatonicSolid::Tetrahedron, 1));
    assert(PlatonicSolid::Tetrahedron.edge(2) == (0int, 3int));
    assert(PlatonicSolid::Tetrahedron.model_row(0) == (-1int, 0int, -1int, 0int, 1int, 0int));
    assert(PlatonicSolid::Tetrahedron.model_row(3) == (0int, 0int, -1int, 0int, -2int, 0int));
    assert(PlatonicSolid::Tetrahedron.scale_ints() == ((30int, 0int), (5int, 0int), (10int, 0int)));
    assert(row_distance((-1int, 0int, -1int, 0int, 1int, 0int), (0int, 0int, -1int, 0int, -2int, 0int), ((30int, 0int), (5int, 0int), (10int, 0int))) == (120int, 0int)) by (nonlinear_arith);
    assert(edge_fits(PlatonicSolid::Tetrahedron, 2));
    assert(PlatonicSolid::Tetrahedron.edge(3) == (1int, 2int));
    assert(PlatonicSolid::Tetrahedron.model_row(1) == (1int, 0int, -1int, 0int, 1int, 0int));
    assert(PlatonicSolid::Tetrahedron.model_row(2) == (0int, 0int, 3int, 0int, 0int, 0int));
    assert(PlatonicSolid::Tetrahedron.scale_ints() == ((30int, 0int), (5int, 0int), (10int, 0int)));
    assert(row_distance((1int, 0int, -1int, 0int, 1int, 0int), (0int, 0int, 3int, 0int, 0int, 0int), ((30int, 0int), (5int, 0int), (10int, 0int))) == (120int, 0int)) by (nonlinear_arith);
    assert(edge_fits(PlatonicSolid::Tetrahedron, 3));
    assert(PlatonicSolid::Tetrahedron.edge(4) == (1int, 3int));
    assert(PlatonicSolid::Tetrahedron.model_row(1) == (1int, 0int, -1int, 0int, 1int, 0int));
    assert(PlatonicSolid::Tetrahedron.model_row(3) == (0int, 0int, -1int, 0int, -2int, 0int));
    assert(PlatonicSolid::Tetrahedron.scale_ints() == ((30int, 0int), (5int, 0int), (10int, 0int)));
    assert(row_distance((1int, 0int, -1int, 0int, 1int, 0int), (0int, 0int, -1int, 0int, -2int, 0int), ((30int, 0int), (5int, 0int), (10int, 0int))) == (120int, 0int)) by (nonlinear_arith);
    assert(edge_fits(PlatonicSolid::Tetrahedron, 4));
    assert(PlatonicSolid::Tetrahedron.edge(5) == (2int, 3int));
    assert(PlatonicSolid::Tetrahedron.model_row(2) == (0int, 0int, 3int, 0int, 0int, 0int));
    assert(PlatonicSolid::Tetrahedron.model_row(3) == (0int, 0int, -1int, 0int, -2int, 0int));
    assert(PlatonicSolid::Tetrahedron.scale_ints() == ((30int, 0int), (5int, 0int), (10int, 0int)));
    assert(row_distance((0int, 0int, 3int, 0int, 0int, 0int), (0int, 0int, -1int, 0int, -2int, 0int), ((30int, 0int), (5int, 0int), (10int, 0int))) == (120int, 0int)) by (nonlinear_arith);
    assert(edge_fits(PlatonicSolid::Tetrahedron, 5));
    assert forall|e: int| 0 <= e < 6 implies #[trigger] edge_fits(PlatonicSolid::Tetrahedron, e) by {
        if e == 0 {} else if e == 1 {} else if e == 2 {} else if e == 3 {} else if e == 4 {} else if e == 5 {}
    }
}

pub(crate) proof fn lemma_hexahedron_edges()
    ensures
        forall|e: int| 0 <= e < 12 ==> #[trigger] edge_fits(PlatonicSolid::Hexahedron, e),
{
    assert(PlatonicSolid::Hexahedron.edge(0) == (0int, 1int));
    assert(PlatonicSolid::Hexahedron.model_row(0) == (-1int, 0int, -1int, 0int, 1int, 0int));
    assert(PlatonicSolid::Hexahedron.model_row(1) == (1int, 0int, -1int, 0int, 1int, 0int));
    assert(PlatonicSolid::Hexahedron.scale_ints() == ((30int, 0int), (30int, 0int), (30int, 0int)));
    assert(row_distance((-1int, 0int, -1int, 0int, 1int, 0int), (1int, 0int, -1int, 0int, 1int, 0int), ((30int, 0int), (30int, 0int), (30int, 0int))) == (120int, 0int)) by (nonlinear_arith);
    assert(edge_fits(PlatonicSolid::Hexahedron, 0));
    assert(PlatonicSolid::Hexahedron.edge(1) == (0int, 2int));
    assert(PlatonicSolid::Hexahedron.model_row(0) == (-1int, 0int, -1int, 0int, 1int, 0int));
    assert(PlatonicSolid::Hexahedron.model_row(2) == (-1int, 0int, 1int, 0int, 1int, 0int));
    assert(PlatonicSolid::Hexahedron.scale_ints() == ((30int, 0int), (30int, 0int), (30int, 0int)));
    assert(row_distance((-1int, 0int, -1int, 0int, 1int, 0int), (-1int, 0int, 1int, 0int, 1int, 0int), ((30int, 0int), (30int, 0int), (30int, 0int))) == (120int, 0int)) by (nonlinear_arith);
    assert(edge_fits(PlatonicSolid::Hexahedron, 1));
    assert(PlatonicSolid::Hexahedron.edge(2) == (0int, 4int));
    assert(PlatonicSolid::Hexahedron.model_row(0) == (-1int, 0int, -1int, 0int, 1int, 0int));
    assert(PlatonicSolid::Hexahedron.model_row(4) == (-1int, 0int, -1int, 0int, -1int, 0int));
    assert(PlatonicSolid::Hexahedron.scale_ints() == ((30int, 0int), (30int, 0int), (30int, 0int)));
    assert(row_distance((-1int, 0int, -1int, 0int, 1int, 0int), (-1int, 0int, -1int, 0int, -1int, 0int), ((30int, 0int), (30int, 0int), (30int, 0int))) == (120int, 0int)) by (nonlinear_arith);
    assert(edge_fits(PlatonicSolid::Hexahedron, 2));
    assert(PlatonicSolid::Hexahedron.edge(3) == (1int, 3int));
    assert(PlatonicSolid::Hexahedron.model_row(1) == (1int, 0int, -1int, 0int, 1int, 0int));
    assert(PlatonicSolid::Hexahedron.model_row(3) == (1int, 0int, 1int, 0int, 1int, 0int));
    assert(PlatonicSolid::Hexahedron.scale_ints() == ((30int, 0int), (30int, 0int), (30int, 0int)));
    assert(row_distance((1int, 0int, -1int, 0int, 1int, 0int), (1int, 0int, 1int, 0int, 1int, 0int), ((30int, 0int), (30int, 0int), (30int, 0int))) == (120int, 0int)) by (nonlinear_arith);
    assert(edge_fits(PlatonicSolid::Hexahedron, 3));
    assert(PlatonicSolid::Hexahedron.edge(4) == (1int, 5int));
    assert(PlatonicSolid::Hexahedron.model_row(1) == (1int, 0int, -1int, 0int, 1int, 0int));
    assert(PlatonicSolid::Hexahedron.model_row(5) == (1int, 0int, -1int, 0int, -1int, 0int));
    assert(PlatonicSolid::Hexahedron.scale_ints() == ((30int, 0int), (30int, 0int), (30int, 0int)));
    assert(row_distance((1int, 0int, -1int, 0int, 1int, 0int), (1int, 0int, -1int, 0int, -1int, 0int), ((30int, 0int), (30int, 0int), (30int, 0int))) == (120int, 0int)) by (nonlinear_arith);
    assert(edge_fits(PlatonicSolid::Hexahedron, 4));
    assert(PlatonicSolid::Hexahedron.edge(5) == (2int, 3int));
    assert(PlatonicSolid::Hexahedron.model_row(2) == (-1int, 0int, 1int, 0int, 1int, 0int));
    assert(PlatonicSolid::Hexahedron.model_row(3) == (1int, 0int, 1int, 0int, 1int, 0int));
    assert(PlatonicSolid::Hexahedron.scale_ints() == ((30int, 0int), (30int, 0int), (30int, 0int)));
    assert(row_distance((-1int, 0int, 1int, 0int, 1int, 0int), (1int, 0int, 1int, 0int, 1int, 0int), ((30int, 0int), (30int, 0int), (30int, 0int))) == (120int, 0int)) by (nonlinear_arith);
    assert(edge_fits(PlatonicSolid::Hexahedron, 5));
    assert(PlatonicSolid::Hexahedron.edge(6) == (2int, 6int));
    assert(PlatonicSolid::Hexahedron.model_row(2) == (-1int, 0int, 1int, 0int, 1int, 0int));
    assert(PlatonicSolid::Hexahedron.model_row(6) == (-1int, 0int, 1int, 0int, -1int, 0int));
    assert(PlatonicSolid::Hexahedron.scale_ints() == ((30int, 0int), (30int, 0int), (30int, 0int)));
    assert(row_distance((-1int, 0int, 1int, 0int, 1int, 0int), (-1int, 0int, 1int, 0int, -1int, 0int), ((30int, 0int), (30int, 0int), (30int, 0int))) == (120int, 0int)) by (nonlinear_arith);
    assert(edge_fits(PlatonicSolid::Hexahedron, 6));
    assert(PlatonicSolid::Hexahedron.edge(7) == (3int, 7int));
    assert(PlatonicSolid::Hexahedron.model_row(3) == (1int, 0int, 1int, 0int, 1int, 0int));
    assert(PlatonicSolid::Hexahedron.model_row(7) == (1int, 0int, 1int, 0int, -1int, 0int));
    assert(PlatonicSolid::Hexahedron.scale_ints() == ((30int, 0int), (30int, 0int), (30int, 0int)));
    assert(row_distance((1int, 0int, 1int, 0int, 1int, 0int), (1int, 0int, 1int, 0int, -1int, 0int), ((30int, 0int), (30int, 0int), (30int, 0int))) == (120int, 0int)) by (nonlinear_arith);
    assert(edge_fits(PlatonicSolid::Hexahedron, 7));
    assert(PlatonicSolid::Hexahedron.edge(8) == (4int, 5int));
    assert(PlatonicSolid::Hexahedron.model_row(4) == (-1int, 0int, -1int, 0int, -1int, 0int));
    assert(PlatonicSolid::Hexahedron.model_row(5) == (1int, 0int, -1int, 0int, -1int, 0int));
    assert(PlatonicSolid::Hexahedron.scale_ints() == ((30int, 0int), (30int, 0int), (30int, 0int)));
    assert(row_distance((-1int, 0int, -1int, 0int, -1int, 0int), (1int, 0int, -1int, 0int, -1int, 0int), ((30int, 0int), (30int, 0int), (30int, 0int))) == (120int, 0int)) by (nonlinear_arith);
    assert(edge_fits(PlatonicSolid::Hexahedron, 8));
    assert(PlatonicSolid::Hexahedron.edge(9) == (4int, 6int));
    assert(PlatonicSolid::Hexahedron.model_row(4) == (-1int, 0int, -1int, 0int, -1int, 0int));
    assert(PlatonicSolid::Hexahedron.model_row(6) == (-1int, 0int, 1int, 0int, -1int, 0int));
    assert(PlatonicSolid::Hexahedron.scale_ints() == ((30int, 0int), (30int, 0int), (30int, 0int)));
    assert(row_distance((-1int, 0int, -1int, 0int, -1int, 0int), (-1int, 0int, 1int, 0int, -1int, 0int), ((30int, 0int), (30int, 0int), (30int, 0int))) == (120int, 0int)) by (nonlinear_arith);
    assert(edge_fits(PlatonicSolid::Hexahedron, 9));
    assert(PlatonicSolid::Hexahedron.edge(10) == (5int, 7int));
    assert(PlatonicSolid::Hexahedron.model_row(5) == (1int, 0int, -1int, 0int, -1int, 0int));
    assert(PlatonicSolid::Hexahedron.model_row(7) == (1int, 0int, 1int, 0int, -1int, 0int));
    assert(PlatonicSolid::Hexahedron.scale_ints() == ((30int, 0int), (30int, 0int), (30int, 0int)));
    assert(row_distance((1int, 0int, -1int, 0int, -1int, 0int), (1int, 0int, 1int, 0int, -1int, 0int), ((30int, 0int), (30int, 0int), (30int, 0int))) == (120int, 0int)) by (nonlinear_arith);
    assert(edge_fits(PlatonicSolid::Hexahedron, 10));
    assert(PlatonicSolid::Hexahedron.edge(11) == (6int, 7int));
    assert(PlatonicSolid::Hexahedron.model_row(6) == (-1int, 0int, 1int, 0int, -1int, 0int));
    assert(PlatonicSolid::Hexahedron.model_row(7) == (1int, 0int, 1int, 0int, -1int, 0int));
    assert(PlatonicSolid::Hexahedron.scale_ints() == ((30int, 0int), (30int, 0int), (30int, 0int)));
    assert(row_distance((-1int, 0int, 1int, 0int, -1int, 0int), (1int, 0int, 1int, 0int, -1int, 0int), ((30int, 0int), (30int, 0int), (30int, 0int))) == (120int, 0int)) by (nonlinear_arith);
    assert(edge_fits(PlatonicSolid::Hexahedron, 11));
    assert forall|e: int| 0 <= e < 12 implies #[trigger] edge_fits(PlatonicSolid::Hexahedron, e) by {
        if e == 0 {} else if e == 1 {} else if e == 2 {} else if e == 3 {} else if e == 4 {} else if e == 5 {} else if e == 6 {} else if e == 7 {} else if e == 8 {} else if e == 9 {} else if e == 10 {} else if e == 11 {}
    }
}

pub(crate) proof fn lemma_octahedron_edges()
    ensures
        forall|e: int| 0 <= e < 12 ==> #[trigger] edge_fits(PlatonicSolid::Octahedron, e),
{
    assert(PlatonicSolid::Octahedron.edge(0) == (0int, 1int));
    assert(PlatonicSolid::Octahedron.model_row(0) == (0int, 0int, 1int, 0int, 0int, 0int));
    assert(PlatonicSolid::Octahedron.model_row(1) == (-1int, 0int, 0int, 0int, -1int, 0int));
    assert(PlatonicSolid::Octahedron.scale_ints() == ((30int, 0int), (60int, 0int), (30int, 0int)));
    assert(row_distance((0int, 0int, 1int, 0int, 0int, 0int), (-1int, 0int, 0int, 0int, -1int, 0int), ((30int, 0int), (60int, 0int), (30int, 0int))) == (120int, 0int)) by (nonlinear_arith);
    assert(edge_fits(PlatonicSolid::Octahedron, 0));
    assert(PlatonicSolid::Octahedron.edge(1) == (0int, 2int));
    assert(PlatonicSolid::Octahedron.model_row(0) == (0int, 0int, 1int, 0int, 0int, 0int));
    assert(PlatonicSolid::Octahedron.model_row(2) == (-1int, 0int, 0int, 0int, 1int, 0int));
    assert(PlatonicSolid::Octahedron.scale_ints() == ((30int, 0int), (60int, 0int), (30int, 0int)));
    assert(row_distance((0int, 0int, 1int, 0int, 0int, 0int), (-1int, 0int, 0int, 0int, 1int, 0int), ((30int, 0int), (60int, 0int), (30int, 0int))) == (120int, 0int)) by (nonlinear_arith);
    assert(edge_fits(PlatonicSolid::Octahedron, 1));
    assert(PlatonicSolid::Octahedron.edge(2) == (0int, 3int));
    assert(PlatonicSolid::Octahedron.model_row(0) == (0int, 0int, 1int, 0int, 0int, 0int));
    assert(PlatonicSolid::Octahedron.model_row(3) == (1int, 0int, 0int, 0int, 1int, 0int));
    assert(PlatonicSolid::Octahedron.scale_ints() == ((30int, 0int), (60int, 0int), (30int, 0int)));
    assert(row_distance((0int, 0int, 1int, 0int, 0int, 0int), (1int, 0int, 0int, 0int, 1int, 0int), ((30int, 0int), (60int, 0int), (30int, 0int))) == (120int, 0int)) by (nonlinear_arith);
    assert(edge_fits(PlatonicSolid::Octahedron, 2));
    assert(PlatonicSolid::Octahedron.edge(3) == (0int, 4int));
    assert(PlatonicSolid::Octahedron.model_row(0) == (0int, 0int, 1int, 0int, 0int, 0int));
    assert(PlatonicSolid::Octahedron.model_row(4) == (1int, 0int, 0int, 0int, -1int, 0int));
    assert(PlatonicSolid::Octahedron.scale_ints() == ((30int, 0int), (60int, 0int), (30int, 0int)));
    assert(row_distance((0int, 0int, 1int, 0int, 0int, 0int), (1int, 0int, 0int, 0int, -1int, 0int), ((30int, 0int), (60int, 0int), (30int, 0int))) == (120int, 0int)) by (nonlinear_arith);
    assert(edge_fits(PlatonicSolid::Octahedron, 3));
    assert(PlatonicSolid::Octahedron.edge(4) == (1int, 2int));
    assert(PlatonicSolid::Octahedron.model_row(1) == (-1int, 0int, 0int, 0int, -1int, 0int));
    assert(PlatonicSolid::Octahedron.model_row(2) == (-1int, 0int, 0int, 0int, 1int, 0int));
    assert(PlatonicSolid::Octahedron.scale_ints() == ((30int, 0int), (60int, 0int), (30int, 0int)));
    assert(row_distance((-1int, 0int, 0int, 0int, -1int, 0int), (-1int, 0int, 0int, 0int, 1int, 0int), ((30int, 0int), (60int, 0int), (30int, 0int))) == (120int, 0int)) by (nonlinear_arith);
    assert(edge_fits(PlatonicSolid::Octahedron, 4));
    assert(PlatonicSolid::Octahedron.edge(5) == (1int, 4int));
    assert(PlatonicSolid::Octahedron.model_row(1) == (-1int, 0int, 0int, 0int, -1int, 0int));
    assert(PlatonicSolid::Octahedron.model_row(4) == (1int, 0int, 0int, 0int, -1int, 0int));
    assert(PlatonicSolid::Octahedron.scale_ints() == ((30int, 0int), (60int, 0int), (30int, 0int)));
    assert(row_distance((-1int, 0int, 0int, 0int, -1int, 0int), (1int, 0int, 0int, 0int, -1int, 0int), ((30int, 0int), (60int, 0int), (30int, 0int))) == (120int, 0int)) by (nonlinear_arith);
    assert(edge_fits(PlatonicSolid::Octahedron, 5));
    assert(PlatonicSolid::Octahedron.edge(6) == (1int, 5int));
    assert(PlatonicSolid::Octahedron.model_row(1) == (-1int, 0int, 0int, 0int, -1int, 0int));
    assert(PlatonicSolid::Octahedron.model_row(5) == (0int, 0int, -1int, 0int, 0int, 0int));
    assert(PlatonicSolid::Octahedron.scale_ints() == ((30int, 0int), (60int, 0int), (30int, 0int)));
    assert(row_distance((-1int, 0int, 0int, 0int, -1int, 0int), (0int, 0int, -1int, 0int, 0int, 0int), ((30int, 0int), (60int, 0int), (30int, 0int))) == (120int, 0int)) by (nonlinear_arith);
    assert(edge_fits(PlatonicSolid::Octahedron, 6));
    assert(PlatonicSolid::Octahedron.edge(7) == (2int, 3int));
    assert(PlatonicSolid::Octahedron.model_row(2) == (-1int, 0int, 0int, 0int, 1int, 0int));
    assert(PlatonicSolid::Octahedron.model_row(3) == (1int, 0int, 0int, 0int, 1int, 0int));
    assert(PlatonicSolid::Octahedron.scale_ints() == ((30int, 0int), (60int, 0int), (30int, 0int)));
    assert(row_distance((-1int, 0int, 0int, 0int, 1int, 0int), (1int, 0int, 0int, 0int, 1int, 0int), ((30int, 0int), (60int, 0int), (30int, 0int))) == (120int, 0int)) by (nonlinear_arith);
    assert(edge_fits(PlatonicSolid::Octahedron, 7));
    assert(PlatonicSolid::Octahedron.edge(8) == (2int, 5int));
    assert(PlatonicSolid::Octahedron.model_row(2) == (-1int, 0int, 0int, 0int, 1int, 0int));
    assert(PlatonicSolid::Octahedron.model_row(5) == (0int, 0int, -1int, 0int, 0int, 0int));
    assert(PlatonicSolid::Octahedron.scale_ints() == ((30int, 0int), (60int, 0int), (30int, 0int)));
    assert(row_distance((-1int, 0int, 0int, 0int, 1int, 0int), (0int, 0int, -1int, 0int, 0int, 0int), ((30int, 0int), (60int, 0int), (30int, 0int))) == (120int, 0int)) by (nonlinear_arith);
    assert(edge_fits(PlatonicSolid::Octahedron, 8));
    assert(PlatonicSolid::Octahedron.edge(9) == (3int, 4int));
    assert(PlatonicSolid::Octahedron.model_row(3) == (1int, 0int, 0int, 0int, 1int, 0int));
    assert(PlatonicSolid::Octahedron.model_row(4) == (1int, 0int, 0int, 0int, -1int, 0int));
    assert(PlatonicSolid::Octahedron.scale_ints() == ((30int, 0int), (60int, 0int), (30int, 0int)));
    assert(row_distance((1int, 0int, 0int, 0int, 1int, 0int), (1int, 0int, 0int, 0int, -1int, 0int), ((30int, 0int), (60int, 0int), (30int, 0int))) == (120int, 0int)) by (nonlinear_arith);
    assert(edge_fits(PlatonicSolid::Octahedron, 9));
    assert(PlatonicSolid::Octahedron.edge(10) == (3int, 5int));
    assert(PlatonicSolid::Octahedron.model_row(3) == (1int, 0int, 0int, 0int, 1int, 0int));
    assert(PlatonicSolid::Octahedron.model_row(5) == (0int, 0int, -1int, 0int, 0int, 0int));
    assert(PlatonicSolid::Octahedron.scale_ints() == ((30int, 0int), (60int, 0int), (30int, 0int)));
    assert(row_distance((1int, 0int, 0int, 0int, 1int, 0int), (0int, 0int, -1int, 0int, 0int, 0int), ((30int, 0int), (60int, 0int), (30int, 0int))) == (120int, 0int)) by (nonlinear_arith);
    assert(edge_fits(PlatonicSolid::Octahedron, 10));
    assert(PlatonicSolid::Octahedron.edge(11) == (4int, 5int));
    assert(PlatonicSolid::Octahedron.model_row(4) == (1int, 0int, 0int, 0int, -1int, 0int));
    assert(PlatonicSolid::Octahedron.model_row(5) == (0int, 0int, -1int, 0int, 0int, 0int));
    assert(PlatonicSolid::Octahedron.scale_ints() == ((30int, 0int), (60int, 0int), (30int, 0int)));
    assert(row_distance((1int, 0int, 0int, 0int, -1int, 0int), (0int, 0int, -1int, 0int, 0int, 0int), ((30int, 0int), (60int, 0int), (30int, 0int))) == (120int, 0int)) by (nonlinear_arith);
    assert(edge_fits(PlatonicSolid::Octahedron, 11));
    assert forall|e: int| 0 <= e < 12 implies #[trigger] edge_fits(PlatonicSolid::Octahedron, e) by {
        if e == 0 {} else if e == 1 {} else if e == 2 {} else if e == 3 {} else if e == 4 {} else if e == 5 {} else if e == 6 {} else if e == 7 {} else if e == 8 {} else if e == 9 {} else if e == 10 {} else if e == 11 {}
    }
}

pub(crate) proof fn lemma_dodecahedron_edges()
    ensures
        forall|e: int| 0 <= e < 30 ==> #[trigger] edge_fits(PlatonicSolid::Dodecahedron, e),
{
    assert(PlatonicSolid::Dodecahedron.edge(0) == (0int, 1int));
    assert(PlatonicSolid::Dodecahedron.model_row(0) == (0int, 0int, 2int, 2int, 2int, 3int));
    assert(PlatonicSolid::Dodecahedron.model_row(1) == (0int, -1int, 0int, 1int, 2int, 3int));
    assert(PlatonicSolid::Dodecahedron.scale_ints() == ((30int, 0int), (42int, -24int), (42int, -24int)));
    assert(row_distance((0int, 0int, 2int, 2int, 2int, 3int), (0int, -1int, 0int, 1int, 2int, 3int), ((30int, 0int), (42int, -24int), (42int, -24int))) == (120int, 0int)) by (nonlinear_arith);
    assert(edge_fits(PlatonicSolid::Dodecahedron, 0));
    assert(PlatonicSolid::Dodecahedron.edge(1) == (0int, 2int));
    assert(PlatonicSolid::Dodecahedron.model_row(0) == (0int, 0int, 2int, 2int, 2int, 3int));
    assert(PlatonicSolid::Dodecahedron.model_row(2) == (0int, 1int, 0int, 1int, 2int, 3int));
    assert(PlatonicSolid::Dodecahedron.scale_ints() == ((30int, 0int), (42int, -24int), (42int, -24int)));
    assert(row_distance((0int, 0int, 2int, 2int, 2int, 3int), (0int, 1int, 0int, 1int, 2int, 3int), ((30int, 0int), (42int, -24int), (42int, -24int))) == (120int, 0int)) by (nonlinear_arith);
    assert(edge_fits(PlatonicSolid::Dodecahedron, 1));
    assert(PlatonicSolid::Dodecahedron.edge(2) == (0int, 5int));
    assert(PlatonicSolid::Dodecahedron.model_row(0) == (0int, 0int, 2int, 2int, 2int, 3int));
    assert(PlatonicSolid::Dodecahedron.model_row(5) == (0int, 0int, 2int, 4int, 0int, 1int));
    assert(PlatonicSolid::Dodecahedron.scale_ints() == ((30int, 0int), (42int, -24int), (42int, -24int)));
    assert(row_distance((0int, 0int, 2int, 2int, 2int, 3int), (0int, 0int, 2int, 4int, 0int, 1int), ((30int, 0int), (42int, -24int), (42int, -24int))) == (120int, 0int)) by (nonlinear_arith);
    assert(edge_fits(PlatonicSolid::Dodecahedron, 2));
    assert(PlatonicSolid::Dodecahedron.edge(3) == (1int, 3int));
    assert(PlatonicSolid::Dodecahedron.model_row(1) == (0int, -1int, 0int, 1int, 2int, 3int));
    assert(PlatonicSolid::Dodecahedron.model_row(3) == (-1int, 0int, -1int, -2int, 2int, 3int));
    assert(PlatonicSolid::Dodecahedron.scale_ints() == ((30int, 0int), (42int, -24int), (42int, -24int)));
    assert(row_distance((0int, -1int, 0int, 1int, 2int, 3int), (-1int, 0int, -1int, -2int, 2int, 3int), ((30int, 0int), (42int, -24int), (42int, -24int))) == (120int, 0int)) by (nonlinear_arith);
    assert(edge_fits(PlatonicSolid::Dodecahedron, 3));
    assert(PlatonicSolid::Dodecahedron.edge(4) == (1int, 6int));
    assert(PlatonicSolid::Dodecahedron.model_row(1) == (0int, -1int, 0int, 1int, 2int, 3int));
    assert(PlatonicSolid::Dodecahedron.model_row(6) == (-1int, -1int, 1int, 1int, 0int, 1int));
    assert(PlatonicSolid::Dodecahedron.scale_ints() == ((30int, 0int), (42int, -24int), (42int, -24int)));
    assert(row_distance((0int, -1int, 0int, 1int, 2int, 3int), (-1int, -1int, 1int, 1int, 0int, 1int), ((30int, 0int), (42int, -24int), (42int, -24int))) == (120int, 0int)) by (nonlinear_arith);
    assert(edge_fits(PlatonicSolid::Dodecahedron, 4));
    assert(PlatonicSolid::Dodecahedron.edge(5) == (2int, 4int));
    assert(PlatonicSolid::Dodecahedron.model_row(2) == (0int, 1int, 0int, 1int, 2int, 3int));
    assert(PlatonicSolid::Dodecahedron.model_row(4) == (1int, 0int, -1int, -2int, 2int, 3int));
    assert(PlatonicSolid::Dodecahedron.scale_ints() == ((30int, 0int), (42int, -24int), (42int, -24int)));
    assert(row_distance((0int, 1int, 0int, 1int, 2int, 3int), (1int, 0int, -1int, -2int, 2int, 3int), ((30int, 0int), (42int, -24int), (42int, -24int))) == (120int, 0int)) by (nonlinear_arith);
    assert(edge_fits(PlatonicSolid::Dodecahedron, 5));
    assert(PlatonicSolid::Dodecahedron.edge(6) == (2int, 7int));
    assert(PlatonicSolid::Dodecahedron.model_row(2) == (0int, 1int, 0int, 1int, 2int, 3int));
    assert(PlatonicSolid::Dodecahedron.model_row(7) == (1int, 1int, 1int, 1int, 0int, 1int));
    assert(PlatonicSolid::Dodecahedron.scale_ints() == ((30int, 0int), (42int, -24int), (42int, -24int)));
    assert(row_distance((0int, 1int, 0int, 1int, 2int, 3int), (1int, 1int, 1int, 1int, 0int, 1int), ((30int, 0int), (42int, -24int), (42int, -24int))) == (120int, 0int)) by (nonlinear_arith);
    assert(edge_fits(PlatonicSolid::Dodecahedron, 6));
    assert(PlatonicSolid::Dodecahedron.edge(7) == (3int, 4int));
    assert(PlatonicSolid::Dodecahedron.model_row(3) == (-1int, 0int, -1int, -2int, 2int, 3int));
    assert(PlatonicSolid::Dodecahedron.model_row(4) == (1int, 0int, -1int, -2int, 2int, 3int));
    assert(PlatonicSolid::Dodecahedron.scale_ints() == ((30int, 0int), (42int, -24int), (42int, -24int)));
    assert(row_distance((-1int, 0int, -1int, -2int, 2int, 3int), (1int, 0int, -1int, -2int, 2int, 3int), ((30int, 0int), (42int, -24int), (42int, -24int))) == (120int, 0int)) by (nonlinear_arith);
    assert(edge_fits(PlatonicSolid::Dodecahedron, 7));
    assert(PlatonicSolid::Dodecahedron.edge(8) == (3int, 8int));
    assert(PlatonicSolid::Dodecahedron.model_row(3) == (-1int, 0int, -1int, -2int, 2int, 3int));
    assert(PlatonicSolid::Dodecahedron.model_row(8) == (0int, -1int, -2int, -3int, 0int, 1int));
    assert(PlatonicSolid::Dodecahedron.scale_ints() == ((30int, 0int), (42int, -24int), (42int, -24int)));
    assert(row_distance((-1int, 0int, -1int, -2int, 2int, 3int), (0int, -1int, -2int, -3int, 0int, 1int), ((30int, 0int), (42int, -24int), (42int, -24int))) == (120int, 0int)) by (nonlinear_arith);
    assert(edge_fits(PlatonicSolid::Dodecahedron, 8));
    assert(PlatonicSolid::Dodecahedron.edge(9) == (4int, 9int));
    assert(PlatonicSolid::Dodecahedron.model_row(4) == (1int, 0int, -1int, -2int, 2int, 3int));
    assert(PlatonicSolid::Dodecahedron.model_row(9) == (0int, 1int, -2int, -3int, 0int, 1int));
    assert(PlatonicSolid::Dodecahedron.scale_ints() == ((30int, 0int), (42int, -24int), (42int, -24int)));
    assert(row_distance((1int, 0int, -1int, -2int, 2int, 3int), (0int, 1int, -2int, -3int, 0int, 1int), ((30int, 0int), (42int, -24int), (42int, -24int))) == (120int, 0int)) by (nonlinear_arith);
    assert(edge_fits(PlatonicSolid::Dodecahedron, 9));
    assert(PlatonicSolid::Dodecahedron.edge(10) == (5int, 10int));
    assert(PlatonicSolid::Dodecahedron.model_row(5) == (0int, 0int, 2int, 4int, 0int, 1int));
    assert(PlatonicSolid::Dodecahedron.model_row(10) == (0int, -1int, 2int, 3int, 0int, -1int));
    assert(PlatonicSolid::Dodecahedron.scale_ints() == ((30int, 0int), (42int, -24int), (42int, -24int)));
    assert(row_distance((0int, 0int, 2int, 4int, 0int, 1int), (0int, -1int, 2int, 3int, 0int, -1int), ((30int, 0int), (42int, -24int), (42int, -24int))) == (120int, 0int)) by (nonlinear_arith);
    assert(edge_fits(PlatonicSolid::Dodecahedron, 10));
    assert(PlatonicSolid::Dodecahedron.edge(11) == (5int, 11int));
    assert(PlatonicSolid::Dodecahedron.model_row(5) == (0int, 0int, 2int, 4int, 0int, 1int));
    assert(PlatonicSolid::Dodecahedron.model_row(11) == (0int, 1int, 2int, 3int, 0int, -1int));
    assert(PlatonicSolid::Dodecahedron.scale_ints() == ((30int, 0int), (42int, -24int), (42int, -24int)));
    assert(row_distance((0int, 0int, 2int, 4int, 0int, 1int), (0int, 1int, 2int, 3int, 0int, -1int), ((30int, 0int), (42int, -24int), (42int, -24int))) == (120int, 0int)) by (nonlinear_arith);
    assert(edge_fits(PlatonicSolid::Dodecahedron, 11));
    assert(PlatonicSolid::Dodecahedron.edge(12) == (6int, 10int));
    assert(PlatonicSolid::Dodecahedron.model_row(6) == (-1int, -1int, 1int, 1int, 0int, 1int));
    assert(PlatonicSolid::Dodecahedron.model_row(10) == (0int, -1int, 2int, 3int, 0int, -1int));
    assert(PlatonicSolid::Dodecahedron.scale_ints() == ((30int, 0int), (42int, -24int), (42int, -24int)));
    assert(row_distance((-1int, -1int, 1int, 1int, 0int, 1int), (0int, -1int, 2int, 3int, 0int, -1int), ((30int, 0int), (42int, -24int), (42int, -24int))) == (120int, 0int)) by (nonlinear_arith);
    assert(edge_fits(PlatonicSolid::Dodecahedron, 12));
    assert(PlatonicSolid::Dodecahedron.edge(13) == (6int, 12int));
    assert(PlatonicSolid::Dodecahedron.model_row(6) == (-1int, -1int, 1int, 1int, 0int, 1int));
    assert(PlatonicSolid::Dodecahedron.model_row(12) == (-1int, -1int, -1int, -1int, 0int, -1int));
    assert(PlatonicSolid::Dodecahedron.scale_ints() == ((30int, 0int), (42int, -24int), (42int, -24int)));
    assert(row_distance((-1int, -1int, 1int, 1int, 0int, 1int), (-1int, -1int, -1int, -1int, 0int, -1int), ((30int, 0int), (42int, -24int), (42int, -24int))) == (120int, 0int)) by (nonlinear_arith);
    assert(edge_fits(PlatonicSolid::Dodecahedron, 13));
    assert(PlatonicSolid::Dodecahedron.edge(14) == (7int, 11int));
    assert(PlatonicSolid::Dodecahedron.model_row(7) == (1int, 1int, 1int, 1int, 0int, 1int));
    assert(PlatonicSolid::Dodecahedron.model_row(11) == (0int, 1int, 2int, 3int, 0int, -1int));
    assert(PlatonicSolid::Dodecahedron.scale_ints() == ((30int, 0int), (42int, -24int), (42int, -24int)));
    assert(row_distance((1int, 1int, 1int, 1int, 0int, 1int), (0int, 1int, 2int, 3int, 0int, -1int), ((30int, 0int), (42int, -24int), (42int, -24int))) == (120int, 0int)) by (nonlinear_arith);
    assert(edge_fits(PlatonicSolid::Dodecahedron, 14));
    assert(PlatonicSolid::Dodecahedron.edge(15) == (7int, 13int));
    assert(PlatonicSolid::Dodecahedron.model_row(7) == (1int, 1int, 1int, 1int, 0int, 1int));
    assert(PlatonicSolid::Dodecahedron.model_row(13) == (1int, 1int, -1int, -1int, 0int, -1int));
    assert(PlatonicSolid::Dodecahedron.scale_ints() == ((30int, 0int), (42int, -24int), (42int, -24int)));
    assert(row_distance((1int, 1int, 1int, 1int, 0int, 1int), (1int, 1int, -1int, -1int, 0int, -1int), ((30int, 0int), (42int, -24int), (42int, -24int))) == (120int, 0int)) by (nonlinear_arith);
    assert(edge_fits(PlatonicSolid::Dodecahedron, 15));
    assert(PlatonicSolid::Dodecahedron.edge(16) == (8int, 12int));
    assert(PlatonicSolid::Dodecahedron.model_row(8) == (0int, -1int, -2int, -3int, 0int, 1int));
    assert(PlatonicSolid::Dodecahedron.model_row(12) == (-1int, -1int, -1int, -1int, 0int, -1int));
    assert(PlatonicSolid::Dodecahedron.scale_ints() == ((30int, 0int), (42int, -24int), (42int, -24int)));
    assert(row_distance((0int, -1int, -2int, -3int, 0int, 1int), (-1int, -1int, -1int, -1int, 0int, -1int), ((30int, 0int), (42int, -24int), (42int, -24int))) == (120int, 0int)) by (nonlinear_arith);
    assert(edge_fits(PlatonicSolid::Dodecahedron, 16));
    assert(PlatonicSolid::Dodecahedron.edge(17) == (8int, 14int));
    assert(PlatonicSolid::Dodecahedron.model_row(8) == (0int, -1int, -2int, -3int, 0int, 1int));
    assert(PlatonicSolid::Dodecahedron.model_row(14) == (0int, 0int, -2int, -4int, 0int, -1int));
    assert(PlatonicSolid::Dodecahedron.scale_ints() == ((30int, 0int), (42int, -24int), (42int, -24int)));
    assert(row_distance((0int, -1int, -2int, -3int, 0int, 1int), (0int, 0int, -2int, -4int, 0int, -1int), ((30int, 0int), (42int, -24int), (42int, -24int))) == (120int, 0int)) by (nonlinear_arith);
    assert(edge_fits(PlatonicSolid::Dodecahedron, 17));
    assert(PlatonicSolid::Dodecahedron.edge(18) == (9int, 13int));
    assert(PlatonicSolid::Dodecahedron.model_row(9) == (0int, 1int, -2int, -3int, 0int, 1int));
    assert(PlatonicSolid::Dodecahedron.model_row(13) == (1int, 1int, -1int, -1int, 0int, -1int));
    assert(PlatonicSolid::Dodecahedron.scale_ints() == ((30int, 0int), (42int, -24int), (42int, -24int)));
    assert(row_distance((0int, 1int, -2int, -3int, 0int, 1int), (1int, 1int, -1int, -1int, 0int, -1int), ((30int, 0int), (42int, -24int), (42int, -24int))) == (120int, 0int)) by (nonlinear_arith);
    assert(edge_fits(PlatonicSolid::Dodecahedron, 18));
    assert(PlatonicSolid::Dodecahedron.edge(19) == (9int, 14int));
    assert(PlatonicSolid::Dodecahedron.model_row(9) == (0int, 1int, -2int, -3int, 0int, 1int));
    assert(PlatonicSolid::Dodecahedron.model_row(14) == (0int, 0int, -2int, -4int, 0int, -1int));
    assert(PlatonicSolid::Dodecahedron.scale_ints() == ((30int, 0int), (42int, -24int), (42int, -24int)));
    assert(row_distance((0int, 1int, -2int, -3int, 0int, 1int), (0int, 0int, -2int, -4int, 0int, -1int), ((30int, 0int), (42int, -24int), (42int, -24int))) == (120int, 0int)) by (nonlinear_arith);
    assert(edge_fits(PlatonicSolid::Dodecahedron, 19));
    assert(PlatonicSolid::Dodecahedron.edge(20) == (10int, 15int));
    assert(PlatonicSolid::Dodecahedron.model_row(10) == (0int, -1int, 2int, 3int, 0int, -1int));
    assert(PlatonicSolid::Dodecahedron.model_row(15) == (-1int, 0int, 1int, 2int, -2int, -3int));
    assert(PlatonicSolid::Dodecahedron.scale_ints() == ((30int, 0int), (42int, -24int), (42int, -24int)));
    assert(row_distance((0int, -1int, 2int, 3int, 0int, -1int), (-1int, 0int, 1int, 2int, -2int, -3int), ((30int, 0int), (42int, -24int), (42int, -24int))) == (120int, 0int)) by (nonlinear_arith);
    assert(edge_fits(PlatonicSolid::Dodecahedron, 20));
    assert(PlatonicSolid::Dodecahedron.edge(21) == (11int, 16int));
    assert(PlatonicSolid::Dodecahedron.model_row(11) == (0int, 1int, 2int, 3int, 0int, -1int));
    assert(PlatonicSolid::Dodecahedron.model_row(16) == (1int, 0int, 1int, 2int, -2int, -3int));
    assert(PlatonicSolid::Dodecahedron.scale_ints() == ((30int, 0int), (42int, -24int), (42int, -24int)));
    assert(row_distance((0int, 1int, 2int, 3int, 0int, -1int), (1int, 0int, 1int, 2int, -2int, -3int), ((30int, 0int), (42int, -24int), (42int, -24int))) == (120int, 0int)) by (nonlinear_arith);
    assert(edge_fits(PlatonicSolid::Dodecahedron, 21));
    assert(PlatonicSolid::Dodecahedron.edge(22) == (12int, 17int));
    assert(PlatonicSolid::Dodecahedron.model_row(12) == (-1int, -1int, -1int, -1int, 0int, -1int));
    assert(PlatonicSolid::Dodecahedron.model_row(17) == (0int, -1int, 0int, -1int, -2int, -3int));
    assert(PlatonicSolid::Dodecahedron.scale_ints() == ((30int, 0int), (42int, -24int), (42int, -24int)));
    assert(row_distance((-1int, -1int, -1int, -1int, 0int, -1int), (0int, -1int, 0int, -1int, -2int, -3int), ((30int, 0int), (42int, -24int), (42int, -24int))) == (120int, 0int)) by (nonlinear_arith);
    assert(edge_fits(PlatonicSolid::Dodecahedron, 22));
    assert(PlatonicSolid::Dodecahedron.edge(23) == (13int, 18int));
    assert(PlatonicSolid::Dodecahedron.model_row(13) == (1int, 1int, -1int, -1int, 0int, -1int));
    assert(PlatonicSolid::Dodecahedron.model_row(18) == (0int, 1int, 0int, -1int, -2int, -3int));
    assert(PlatonicSolid::Dodecahedron.scale_ints() == ((30int, 0int), (42int, -24int), (42int, -24int)));
    assert(row_distance((1int, 1int, -1int, -1int, 0int, -1int), (0int, 1int, 0int, -1int, -2int, -3int), ((30int, 0int), (42int, -24int), (42int, -24int))) == (120int, 0int)) by (nonlinear_arith);
    assert(edge_fits(PlatonicSolid::Dodecahedron, 23));
    assert(PlatonicSolid::Dodecahedron.edge(24) == (14int, 19int));
    assert(PlatonicSolid::Dodecahedron.model_row(14) == (0int, 0int, -2int, -4int, 0int, -1int));
    assert(PlatonicSolid::Dodecahedron.model_row(19) == (0int, 0int, -2int, -2int, -2int, -3int));
    assert(PlatonicSolid::Dodecahedron.scale_ints() == ((30int, 0int), (42int, -24int), (42int, -24int)));
    assert(row_distance((0int, 0int, -2int, -4int, 0int, -1int), (0int, 0int, -2int, -2int, -2int, -3int), ((30int, 0int), (42int, -24int), (42int, -24int))) == (120int, 0int)) by (nonlinear_arith);
    assert(edge_fits(PlatonicSolid::Dodecahedron, 24));
    assert(PlatonicSolid::Dodecahedron.edge(25) == (15int, 16int));
    assert(PlatonicSolid::Dodecahedron.model_row(15) == (-1int, 0int, 1int, 2int, -2int, -3int));
    assert(PlatonicSolid::Dodecahedron.model_row(16) == (1int, 0int, 1int, 2int, -2int, -3int));
    assert(PlatonicSolid::Dodecahedron.scale_ints() == ((30int, 0int), (42int, -24int), (42int, -24int)));
    assert(row_distance((-1int, 0int, 1int, 2int, -2int, -3int), (1int, 0int, 1int, 2int, -2int, -3int), ((30int, 0int), (42int, -24int), (42int, -24int))) == (120int, 0int)) by (nonlinear_arith);
    assert(edge_fits(PlatonicSolid::Dodecahedron, 25));
    assert(PlatonicSolid::Dodecahedron.edge(26) == (15int, 17int));
    assert(PlatonicSolid::Dodecahedron.model_row(15) == (-1int, 0int, 1int, 2int, -2int, -3int));
    assert(PlatonicSolid::Dodecahedron.model_row(17) == (0int, -1int, 0int, -1int, -2int, -3int));
    assert(PlatonicSolid::Dodecahedron.scale_ints() == ((30int, 0int), (42int, -24int), (42int, -24int)));
    assert(row_distance((-1int, 0int, 1int, 2int, -2int, -3int), (0int, -1int, 0int, -1int, -2int, -3int), ((30int, 0int), (42int, -24int), (42int, -24int))) == (120int, 0int)) by (nonlinear_arith);
    assert(edge_fits(PlatonicSolid::Dodecahedron, 26));
    assert(PlatonicSolid::Dodecahedron.edge(27) == (16int, 18int));
    assert(PlatonicSolid::Dodecahedron.model_row(16) == (1int, 0int, 1int, 2int, -2int, -3int));
    assert(PlatonicSolid::Dodecahedron.model_row(18) == (0int, 1int, 0int, -1int, -2int, -3int));
    assert(PlatonicSolid::Dodecahedron.scale_ints() == ((30int, 0int), (42int, -24int), (42int, -24int)));
    assert(row_distance((1int, 0int, 1int, 2int, -2int, -3int), (0int, 1int, 0int, -1int, -2int, -3int), ((30int, 0int), (42int, -24int), (42int, -24int))) == (120int, 0int)) by (nonlinear_arith);
    assert(edge_fits(PlatonicSolid::Dodecahedron, 27));
    assert(PlatonicSolid::Dodecahedron.edge(28) == (17int, 19int));
    assert(PlatonicSolid::Dodecahedron.model_row(17) == (0int, -1int, 0int, -1int, -2int, -3int));
    assert(PlatonicSolid::Dodecahedron.model_row(19) == (0int, 0int, -2int, -2int, -2int, -3int));
    assert(PlatonicSolid::Dodecahedron.scale_ints() == ((30int, 0int), (42int, -24int), (42int, -24int)));
    assert(row_distance((0int, -1int, 0int, -1int, -2int, -3int), (0int, 0int, -2int, -2int, -2int, -3int), ((30int, 0int), (42int, -24int), (42int, -24int))) == (120int, 0int)) by (nonlinear_arith);
    assert(edge_fits(PlatonicSolid::Dodecahedron, 28));
    assert(PlatonicSolid::Dodecahedron.edge(29) == (18int, 19int));
    assert(PlatonicSolid::Dodecahedron.model_row(18) == (0int, 1int, 0int, -1int, -2int, -3int));
    assert(PlatonicSolid::Dodecahedron.model_row(19) == (0int, 0int, -2int, -2int, -2int, -3int));
    assert(PlatonicSolid::Dodecahedron.scale_ints() == ((30int, 0int), (42int, -24int), (42int, -24int)));
    assert(row_distance((0int, 1int, 0int, -1int, -2int, -3int), (0int, 0int, -2int, -2int, -2int, -3int), ((30int, 0int), (42int, -24int), (42int, -24int))) == (120int, 0int)) by (nonlinear_arith);
    assert(edge_fits(PlatonicSolid::Dodecahedron, 29));
    assert forall|e: int| 0 <= e < 30 implies #[trigger] edge_fits(PlatonicSolid::Dodecahedron, e) by {
        if e == 0 {} else if e == 1 {} else if e == 2 {} else if e == 3 {} else if e == 4 {} else if e == 5 {} else if e == 6 {} else if e == 7 {} else if e == 8 {} else if e == 9 {} else if e == 10 {} else if e == 11 {} else if e == 12 {} else if e == 13 {} else if e == 14 {} else if e == 15 {} else if e == 16 {} else if e == 17 {} else if e == 18 {} else if e == 19 {} else if e == 20 {} else if e == 21 {} else if e == 22 {} else if e == 23 {} else if e == 24 {} else if e == 25 {} else if e == 26 {} else if e == 27 {} else if e == 28 {} else if e == 29 {}
    }
}

pub(crate) proof fn lemma_icosahedron_edges()
    ensures
        forall|e: int| 0 <= e < 30 ==> #[trigger] edge_fits(PlatonicSolid::Icosahedron, e),
{
    assert(PlatonicSolid::Icosahedron.edge(0) == (0int, 1int));
    assert(PlatonicSolid::Icosahedron.model_row(0) == (0int, 0int, -1int, 2int, 0int, 0int));
    assert(PlatonicSolid::Icosahedron.model_row(1) == (0int, 0int, 1int, 0int, -2int, -2int));
    assert(PlatonicSolid::Icosahedron.scale_ints() == ((30int, 0int), (12int, 6int), (42int, -24int)));
    assert(row_distance((0int, 0int, -1int, 2int, 0int, 0int), (0int, 0int, 1int, 0int, -2int, -2int), ((30int, 0int), (12int, 6int), (42int, -24int))) == (120int, 0int)) by (nonlinear_arith);
    assert(edge_fits(PlatonicSolid::Icosahedron, 0));
    assert(PlatonicSolid::Icosahedron.edge(1) == (0int, 2int));
    assert(PlatonicSolid::Icosahedron.model_row(0) == (0int, 0int, -1int, 2int, 0int, 0int));
    assert(PlatonicSolid::Icosahedron.model_row(2) == (0int, -1int, 1int, 0int, 0int, -1int));
    assert(PlatonicSolid::Icosahedron.scale_ints() == ((30int, 0int), (12int, 6int), (42int, -24int)));
    assert(row_distance((0int, 0int, -1int, 2int, 0int, 0int), (0int, -1int, 1int, 0int, 0int, -1int), ((30int, 0int), (12int, 6int), (42int, -24int))) == (120int, 0int)) by (nonlinear_arith);
    assert(edge_fits(PlatonicSolid::Icosahedron, 1));
    assert(PlatonicSolid::Icosahedron.edge(2) == (0int, 3int));
    assert(PlatonicSolid::Icosahedron.model_row(0) == (0int, 0int, -1int, 2int, 0int, 0int));
    assert(PlatonicSolid::Icosahedron.model_row(3) == (0int, 1int, 1int, 0int, 0int, -1int));
    assert(PlatonicSolid::Icosahedron.scale_ints() == ((30int, 0int), (12int, 6int), (42int, -24int)));
    assert(row_distance((0int, 0int, -1int, 2int, 0int, 0int), (0int, 1int, 1int, 0int, 0int, -1int), ((30int, 0int), (12int, 6int), (42int, -24int))) == (120int, 0int)) by (nonlinear_arith);
    assert(edge_fits(PlatonicSolid::Icosahedron, 2));
    assert(PlatonicSolid::Icosahedron.edge(3) == (0int, 4int));
    assert(PlatonicSolid::Icosahedron.model_row(0) == (0int, 0int, -1int, 2int, 0int, 0int));
    assert(PlatonicSolid::Icosahedron.model_row(4) == (-1int, 0int, 1int, 0int, 1int, 2int));
    assert(PlatonicSolid::Icosahedron.scale_ints() == ((30int, 0int), (12int, 6int), (42int, -24int)));
    assert(row_distance((0int, 0int, -1int, 2int, 0int, 0int), (-1int, 0int, 1int, 0int, 1int, 2int), ((30int, 0int), (12int, 6int), (42int, -24int))) == (120int, 0int)) by (nonlinear_arith);
    assert(edge_fits(PlatonicSolid::Icosahedron, 3));
    assert(PlatonicSolid::Icosahedron.edge(4) == (0int, 5int));
    assert(PlatonicSolid::Icosahedron.model_row(0) == (0int, 0int, -1int, 2int, 0int, 0int));
    assert(PlatonicSolid::Icosahedron.model_row(5) == (1int, 0int, 1int, 0int, 1int, 2int));
    assert(PlatonicSolid::Icosahedron.scale_ints() == ((30int, 0int), (12int, 6int), (42int, -24int)));
    assert(row_distance((0int, 0int, -1int, 2int, 0int, 0int), (1int, 0int, 1int, 0int, 1int, 2int), ((30int, 0int), (12int, 6int), (42int, -24int))) == (120int, 0int)) by (nonlinear_arith);
    assert(edge_fits(PlatonicSolid::Icosahedron, 4));
    assert(PlatonicSolid::Icosahedron.edge(5) == (1int, 2int));
    assert(PlatonicSolid::Icosahedron.model_row(1) == (0int, 0int, 1int, 0int, -2int, -2int));
    assert(PlatonicSolid::Icosahedron.model_row(2) == (0int, -1int, 1int, 0int, 0int, -1int));
    assert(PlatonicSolid::Icosahedron.scale_ints() == ((30int, 0int), (12int, 6int), (42int, -24int)));
    assert(row_distance((0int, 0int, 1int, 0int, -2int, -2int), (0int, -1int, 1int, 0int, 0int, -1int), ((30int, 0int), (12int, 6int), (42int, -24int))) == (120int, 0int)) by (nonlinear_arith);
    assert(edge_fits(PlatonicSolid::Icosahedron, 5));
    assert(PlatonicSolid::Icosahedron.edge(6) == (1int, 3int));
    assert(PlatonicSolid::Icosahedron.model_row(1) == (0int, 0int, 1int, 0int, -2int, -2int));
    assert(PlatonicSolid::Icosahedron.model_row(3) == (0int, 1int, 1int, 0int, 0int, -1int));
    assert(PlatonicSolid::Icosahedron.scale_ints() == ((30int, 0int), (12int, 6int), (42int, -24int)));
    assert(row_distance((0int, 0int, 1int, 0int, -2int, -2int), (0int, 1int, 1int, 0int, 0int, -1int), ((30int, 0int), (12int, 6int), (42int, -24int))) == (120int, 0int)) by (nonlinear_arith);
    assert(edge_fits(PlatonicSolid::Icosahedron, 6));
    assert(PlatonicSolid::Icosahedron.edge(7) == (1int, 6int));
    assert(PlatonicSolid::Icosahedron.model_row(1) == (0int, 0int, 1int, 0int, -2int, -2int));
    assert(PlatonicSolid::Icosahedron.model_row(6) == (-1int, 0int, -1int, 0int, -1int, -2int));
    assert(PlatonicSolid::Icosahedron.scale_ints() == ((30int, 0int), (12int, 6int), (42int, -24int)));
    assert(row_distance((0int, 0int, 1int, 0int, -2int, -2int), (-1int, 0int, -1int, 0int, -1int, -2int), ((30int, 0int), (12int, 6int), (42int, -24int))) == (120int, 0int)) by (nonlinear_arith);
    assert(edge_fits(PlatonicSolid::Icosahedron, 7));
    assert(PlatonicSolid::Icosahedron.edge(8) == (1int, 7int));
    assert(PlatonicSolid::Icosahedron.model_row(1) == (0int, 0int, 1int, 0int, -2int, -2int));
    assert(PlatonicSolid::Icosahedron.model_row(7) == (1int, 0int, -1int, 0int, -1int, -2int));
    assert(PlatonicSolid::Icosahedron.scale_ints() == ((30int, 0int), (12int, 6int), (42int, -24int)));
    assert(row_distance((0int, 0int, 1int, 0int, -2int, -2int), (1int, 0int, -1int, 0int, -1int, -2int), ((30int, 0int), (12int, 6int), (42int, -24int))) == (120int, 0int)) by (nonlinear_arith);
    assert(edge_fits(PlatonicSolid::Icosahedron, 8));
    assert(PlatonicSolid::Icosahedron.edge(9) == (2int, 4int));
    assert(PlatonicSolid::Icosahedron.model_row(2) == (0int, -1int, 1int, 0int, 0int, -1int));
    assert(PlatonicSolid::Icosahedron.model_row(4) == (-1int, 0int, 1int, 0int, 1int, 2int));
    assert(PlatonicSolid::Icosahedron.scale_ints() == ((30int, 0int), (12int, 6int), (42int, -24int)));
    assert(row_distance((0int, -1int, 1int, 0int, 0int, -1int), (-1int, 0int, 1int, 0int, 1int, 2int), ((30int, 0int), (12int, 6int), (42int, -24int))) == (120int, 0int)) by (nonlinear_arith);
    assert(edge_fits(PlatonicSolid::Icosahedron, 9));
    assert(PlatonicSolid::Icosahedron.edge(10) == (2int, 6int));
    assert(PlatonicSolid::Icosahedron.model_row(2) == (0int, -1int, 1int, 0int, 0int, -1int));
    assert(PlatonicSolid::Icosahedron.model_row(6) == (-1int, 0int, -1int, 0int, -1int, -2int));
    assert(PlatonicSolid::Icosahedron.scale_ints() == ((30int, 0int), (12int, 6int), (42int, -24int)));
    assert(row_distance((0int, -1int, 1int, 0int, 0int, -1int), (-1int, 0int, -1int, 0int, -1int, -2int), ((30int, 0int), (12int, 6int), (42int, -24int))) == (120int, 0int)) by (nonlinear_arith);
    assert(edge_fits(PlatonicSolid::Icosahedron, 10));
    assert(PlatonicSolid::Icosahedron.edge(11) == (2int, 8int));
    assert(PlatonicSolid::Icosahedron.model_row(2) == (0int, -1int, 1int, 0int, 0int, -1int));
    assert(PlatonicSolid::Icosahedron.model_row(8) == (0int, -1int, -1int, 0int, 0int, 1int));
    assert(PlatonicSolid::Icosahedron.scale_ints() == ((30int, 0int), (12int, 6int), (42int, -24int)));
    assert(row_distance((0int, -1int, 1int, 0int, 0int, -1int), (0int, -1int, -1int, 0int, 0int, 1int), ((30int, 0int), (12int, 6int), (42int, -24int))) == (120int, 0int)) by (nonlinear_arith);
    assert(edge_fits(PlatonicSolid::Icosahedron, 11));
    assert(PlatonicSolid::Icosahedron.edge(12) == (3int, 5int));
    assert(PlatonicSolid::Icosahedron.model_row(3) == (0int, 1int, 1int, 0int, 0int, -1int));
    assert(PlatonicSolid::Icosahedron.model_row(5) == (1int, 0int, 1int, 0int, 1int, 2int));
    assert(PlatonicSolid::Icosahedron.scale_ints() == ((30int, 0int), (12int, 6int), (42int, -24int)));
    assert(row_distance((0int, 1int, 1int, 0int, 0int, -1int), (1int, 0int, 1int, 0int, 1int, 2int), ((30int, 0int), (12int, 6int), (42int, -24int))) == (120int, 0int)) by (nonlinear_arith);
    assert(edge_fits(PlatonicSolid::Icosahedron, 12));
    assert(PlatonicSolid::Icosahedron.edge(13) == (3int, 7int));
    assert(PlatonicSolid::Icosahedron.model_row(3) == (0int, 1int, 1int, 0int, 0int, -1int));
    assert(PlatonicSolid::Icosahedron.model_row(7) == (1int, 0int, -1int, 0int, -1int, -2int));
    assert(PlatonicSolid::Icosahedron.scale_ints() == ((30int, 0int), (12int, 6int), (42int, -24int)));
    assert(row_distance((0int, 1int, 1int, 0int, 0int, -1int), (1int, 0int, -1int, 0int, -1int, -2int), ((30int, 0int), (12int, 6int), (42int, -24int))) == (120int, 0int)) by (nonlinear_arith);
    assert(edge_fits(PlatonicSolid::Icosahedron, 13));
    assert(PlatonicSolid::Icosahedron.edge(14) == (3int, 9int));
    assert(PlatonicSolid::Icosahedron.model_row(3) == (0int, 1int, 1int, 0int, 0int, -1int));
    assert(PlatonicSolid::Icosahedron.model_row(9) == (0int, 1int, -1int, 0int, 0int, 1int));
    assert(PlatonicSolid::Icosahedron.scale_ints() == ((30int, 0int), (12int, 6int), (42int, -24int)));
    assert(row_distance((0int, 1int, 1int, 0int, 0int, -1int), (0int, 1int, -1int, 0int, 0int, 1int), ((30int, 0int), (12int, 6int), (42int, -24int))) == (120int, 0int)) by (nonlinear_arith);
    assert(edge_fits(PlatonicSolid::Icosahedron, 14));
    assert(PlatonicSolid::Icosahedron.edge(15) == (4int, 5int));
    assert(PlatonicSolid::Icosahedron.model_row(4) == (-1int, 0int, 1int, 0int, 1int, 2int));
    assert(PlatonicSolid::Icosahedron.model_row(5) == (1int, 0int, 1int, 0int, 1int, 2int));
    assert(PlatonicSolid::Icosahedron.scale_ints() == ((30int, 0int), (12int, 6int), (42int, -24int)));
    assert(row_distance((-1int, 0int, 1int, 0int, 1int, 2int), (1int, 0int, 1int, 0int, 1int, 2int), ((30int, 0int), (12int, 6int), (42int, -24int))) == (120int, 0int)) by (nonlinear_arith);
    assert(edge_fits(PlatonicSolid::Icosahedron, 15));
    assert(PlatonicSolid::Icosahedron.edge(16) == (4int, 8int));
    assert(PlatonicSolid::Icosahedron.model_row(4) == (-1int, 0int, 1int, 0int, 1int, 2int));
    assert(PlatonicSolid::Icosahedron.model_row(8) == (0int, -1int, -1int, 0int, 0int, 1int));
    assert(PlatonicSolid::Icosahedron.scale_ints() == ((30int, 0int), (12int, 6int), (42int, -24int)));
    assert(row_distance((-1int, 0int, 1int, 0int, 1int, 2int), (0int, -1int, -1int, 0int, 0int, 1int), ((30int, 0int), (12int, 6int), (42int, -24int))) == (120int, 0int)) by (nonlinear_arith);
    assert(edge_fits(PlatonicSolid::Icosahedron, 16));
    assert(PlatonicSolid::Icosahedron.edge(17) == (4int, 10int));
    assert(PlatonicSolid::Icosahedron.model_row(4) == (-1int, 0int, 1int, 0int, 1int, 2int));
    assert(PlatonicSolid::Icosahedron.model_row(10) == (0int, 0int, -1int, 0int, 2int, 2int));
    assert(PlatonicSolid::Icosahedron.scale_ints() == ((30int, 0int), (12int, 6int), (42int, -24int)));
    assert(row_distance((-1int, 0int, 1int, 0int, 1int, 2int), (0int, 0int, -1int, 0int, 2int, 2int), ((30int, 0int), (12int, 6int), (42int, -24int))) == (120int, 0int)) by (nonlinear_arith);
    assert(edge_fits(PlatonicSolid::Icosahedron, 17));
    assert(PlatonicSolid::Icosahedron.edge(18) == (5int, 9int));
    assert(PlatonicSolid::Icosahedron.model_row(5) == (1int, 0int, 1int, 0int, 1int, 2int));
    assert(PlatonicSolid::Icosahedron.model_row(9) == (0int, 1int, -1int, 0int, 0int, 1int));
    assert(PlatonicSolid::Icosahedron.scale_ints() == ((30int, 0int), (12int, 6int), (42int, -24int)));
    assert(row_distance((1int, 0int, 1int, 0int, 1int, 2int), (0int, 1int, -1int, 0int, 0int, 1int), ((30int, 0int), (12int, 6int), (42int, -24int))) == (120int, 0int)) by (nonlinear_arith);
    assert(edge_fits(PlatonicSolid::Icosahedron, 18));
    assert(PlatonicSolid::Icosahedron.edge(19) == (5int, 10int));
    assert(PlatonicSolid::Icosahedron.model_row(5) == (1int, 0int, 1int, 0int, 1int, 2int));
    assert(PlatonicSolid::Icosahedron.model_row(10) == (0int, 0int, -1int, 0int, 2int, 2int));
    assert(PlatonicSolid::Icosahedron.scale_ints() == ((30int, 0int), (12int, 6int), (42int, -24int)));
    assert(row_distance((1int, 0int, 1int, 0int, 1int, 2int), (0int, 0int, -1int, 0int, 2int, 2int), ((30int, 0int), (12int, 6int), (42int, -24int))) == (120int, 0int)) by (nonlinear_arith);
    assert(edge_fits(PlatonicSolid::Icosahedron, 19));
    assert(PlatonicSolid::Icosahedron.edge(20) == (6int, 7int));
    assert(PlatonicSolid::Icosahedron.model_row(6) == (-1int, 0int, -1int, 0int, -1int, -2int));
    assert(PlatonicSolid::Icosahedron.model_row(7) == (1int, 0int, -1int, 0int, -1int, -2int));
    assert(PlatonicSolid::Icosahedron.scale_ints() == ((30int, 0int), (12int, 6int), (42int, -24int)));
    assert(row_distance((-1int, 0int, -1int, 0int, -1int, -2int), (1int, 0int, -1int, 0int, -1int, -2int), ((30int, 0int), (12int, 6int), (42int, -24int))) == (120int, 0int)) by (nonlinear_arith);
    assert(edge_fits(PlatonicSolid::Icosahedron, 20));
    assert(PlatonicSolid::Icosahedron.edge(21) == (6int, 8int));
    assert(PlatonicSolid::Icosahedron.model_row(6) == (-1int, 0int, -1int, 0int, -1int, -2int));
    assert(PlatonicSolid::Icosahedron.model_row(8) == (0int, -1int, -1int, 0int, 0int, 1int));
    assert(PlatonicSolid::Icosahedron.scale_ints() == ((30int, 0int), (12int, 6int), (42int, -24int)));
    assert(row_distance((-1int, 0int, -1int, 0int, -1int, -2int), (0int, -1int, -1int, 0int, 0int, 1int), ((30int, 0int), (12int, 6int), (42int, -24int))) == (120int, 0int)) by (nonlinear_arith);
    assert(edge_fits(PlatonicSolid::Icosahedron, 21));
    assert(PlatonicSolid::Icosahedron.edge(22) == (6int, 11int));
    assert(PlatonicSolid::Icosahedron.model_row(6) == (-1int, 0int, -1int, 0int, -1int, -2int));
    assert(PlatonicSolid::Icosahedron.model_row(11) == (0int, 0int, 1int, -2int, 0int, 0int));
    assert(PlatonicSolid::Icosahedron.scale_ints() == ((30int, 0int), (12int, 6int), (42int, -24int)));
    assert(row_distance((-1int, 0int, -1int, 0int, -1int, -2int), (0int, 0int, 1int, -2int, 0int, 0int), ((30int, 0int), (12int, 6int), (42int, -24int))) == (120int, 0int)) by (nonlinear_arith);
    assert(edge_fits(PlatonicSolid::Icosahedron, 22));
    assert(PlatonicSolid::Icosahedron.edge(23) == (7int, 9int));
    assert(PlatonicSolid::Icosahedron.model_row(7) == (1int, 0int, -1int, 0int, -1int, -2int));
    assert(PlatonicSolid::Icosahedron.model_row(9) == (0int, 1int, -1int, 0int, 0int, 1int));
    assert(PlatonicSolid::Icosahedron.scale_ints() == ((30int, 0int), (12int, 6int), (42int, -24int)));
    assert(row_distance((1int, 0int, -1int, 0int, -1int, -2int), (0int, 1int, -1int, 0int, 0int, 1int), ((30int, 0int), (12int, 6int), (42int, -24int))) == (120int, 0int)) by (nonlinear_arith);
    assert(edge_fits(PlatonicSolid::Icosahedron, 23));
    assert(PlatonicSolid::Icosahedron.edge(24) == (7int, 11int));
    assert(PlatonicSolid::Icosahedron.model_row(7) == (1int, 0int, -1int, 0int, -1int, -2int));
    assert(PlatonicSolid::Icosahedron.model_row(11) == (0int, 0int, 1int, -2int, 0int, 0int));
    assert(PlatonicSolid::Icosahedron.scale_ints() == ((30int, 0int), (12int, 6int), (42int, -24int)));
    assert(row_distance((1int, 0int, -1int, 0int, -1int, -2int), (0int, 0int, 1int, -2int, 0int, 0int), ((30int, 0int), (12int, 6int), (42int, -24int))) == (120int, 0int)) by (nonlinear_arith);
    assert(edge_fits(PlatonicSolid::Icosahedron, 24));
    assert(PlatonicSolid::Icosahedron.edge(25) == (8int, 10int));
    assert(PlatonicSolid::Icosahedron.model_row(8) == (0int, -1int, -1int, 0int, 0int, 1int));
    assert(PlatonicSolid::Icosahedron.model_row(10) == (0int, 0int, -1int, 0int, 2int, 2int));
    assert(PlatonicSolid::Icosahedron.scale_ints() == ((30int, 0int), (12int, 6int), (42int, -24int)));
    assert(row_distance((0int, -1int, -1int, 0int, 0int, 1int), (0int, 0int, -1int, 0int, 2int, 2int), ((30int, 0int), (12int, 6int), (42int, -24int))) == (120int, 0int)) by (nonlinear_arith);
    assert(edge_fits(PlatonicSolid::Icosahedron, 25));
    assert(PlatonicSolid::Icosahedron.edge(26) == (8int, 11int));
    assert(PlatonicSolid::Icosahedron.model_row(8) == (0int, -1int, -1int, 0int, 0int, 1int));
    assert(PlatonicSolid::Icosahedron.model_row(11) == (0int, 0int, 1int, -2int, 0int, 0int));
    assert(PlatonicSolid::Icosahedron.scale_ints() == ((30int, 0int), (12int, 6int), (42int, -24int)));
    assert(row_distance((0int, -1int, -1int, 0int, 0int, 1int), (0int, 0int, 1int, -2int, 0int, 0int), ((30int, 0int), (12int, 6int), (42int, -24int))) == (120int, 0int)) by (nonlinear_arith);
    assert(edge_fits(PlatonicSolid::Icosahedron, 26));
    assert(PlatonicSolid::Icosahedron.edge(27) == (9int, 10int));
    assert(PlatonicSolid::Icosahedron.model_row(9) == (0int, 1int, -1int, 0int, 0int, 1int));
    assert(PlatonicSolid::Icosahedron.model_row(10) == (0int, 0int, -1int, 0int, 2int, 2int));
    assert(PlatonicSolid::Icosahedron.scale_ints() == ((30int, 0int), (12int, 6int), (42int, -24int)));
    assert(row_distance((0int, 1int, -1int, 0int, 0int, 1int), (0int, 0int, -1int, 0int, 2int, 2int), ((30int, 0int), (12int, 6int), (42int, -24int))) == (120int, 0int)) by (nonlinear_arith);
    assert(edge_fits(PlatonicSolid::Icosahedron, 27));
    assert(PlatonicSolid::Icosahedron.edge(28) == (9int, 11int));
    assert(PlatonicSolid::Icosahedron.model_row(9) == (0int, 1int, -1int, 0int, 0int, 1int));
    assert(PlatonicSolid::Icosahedron.model_row(11) == (0int, 0int, 1int, -2int, 0int, 0int));
    assert(PlatonicSolid::Icosahedron.scale_ints() == ((30int, 0int), (12int, 6int), (42int, -24int)));
    assert(row_distance((0int, 1int, -1int, 0int, 0int, 1int), (0int, 0int, 1int, -2int, 0int, 0int), ((30int, 0int), (12int, 6int), (42int, -24int))) == (120int, 0int)) by (nonlinear_arith);
    assert(edge_fits(PlatonicSolid::Icosahedron, 28));
    assert(PlatonicSolid::Icosahedron.edge(29) == (10int, 11int));
    assert(PlatonicSolid::Icosahedron.model_row(10) == (0int, 0int, -1int, 0int, 2int, 2int));
    assert(PlatonicSolid::Icosahedron.model_row(11) == (0int, 0int, 1int, -2int, 0int, 0int));
    assert(PlatonicSolid::Icosahedron.scale_ints() == ((30int, 0int), (12int, 6int), (42int, -24int)));
    assert(row_distance((0int, 0int, -1int, 0int, 2int, 2int), (0int, 0int, 1int, -2int, 0int, 0int), ((30int, 0int), (12int, 6int), (42int, -24int))) == (120int, 0int)) by (nonlinear_arith);
    assert(edge_fits(PlatonicSolid::Icosahedron, 29));
    assert forall|e: int| 0 <= e < 30 implies #[trigger] edge_fits(PlatonicSolid::Icosahedron, e) by {
        if e == 0 {} else if e == 1 {} else if e == 2 {} else if e == 3 {} else if e == 4 {} else if e == 5 {} else if e == 6 {} else if e == 7 {} else if e == 8 {} else if e == 9 {} else if e == 10 {} else if e == 11 {} else if e == 12 {} else if e == 13 {} else if e == 14 {} else if e == 15 {} else if e == 16 {} else if e == 17 {} else if e == 18 {} else if e == 19 {} else if e == 20 {} else if e == 21 {} else if e == 22 {} else if e == 23 {} else if e == 24 {} else if e == 25 {} else if e == 26 {} else if e == 27 {} else if e == 28 {} else if e == 29 {}
    }
}

pub(crate) proof fn lemma_model_edges(solid: PlatonicSolid)
    ensures
        forall|e: int| 0 <= e < solid.edge_count() ==> #[trigger] edge_fits(solid, e),
{
    match solid {
        PlatonicSolid::Tetrahedron => lemma_tetrahedron_edges(),
        PlatonicSolid::Hexahedron => lemma_hexahedron_edges(),
        PlatonicSolid::Octahedron => lemma_octahedron_edges(),
        PlatonicSolid::Dodecahedron => lemma_dodecahedron_edges(),
        PlatonicSolid::Icosahedron => lemma_icosahedron_edges(),
    }
}

/// Sides `a`, `b` of a strip triangle: the same vertex, an edge, or a face
/// diagonal.
pub(crate) open spec fn side_ok(solid: PlatonicSolid, a: int, b: int) -> bool {
    let d = row_distance(solid.model_row(a), solid.model_row(b), solid.scale_ints());
    &&& 0 <= a < solid.vertex_count()
    &&& 0 <= b < solid.vertex_count()
    &&& a == b || d == (120int, 0int) || d == solid.diagonal_num()
}

/// Every side of triangle `j` of strip `k` is fine.
pub(crate) open spec fn triangle_ok(solid: PlatonicSolid, k: int, j: int) -> bool {
    let t = strip_triangle(solid.spec_strips()[k], j);
    side_ok(solid, t.0 as int, t.1 as int) && side_ok(solid, t.1 as int, t.2 as int) && side_ok(
        solid,
        t.0 as int,
        t.2 as int,
    )
}

#[verifier::spinoff_prover]
pub(crate) proof fn lemma_tetrahedron_strip_sides()
    ensures
        forall|k: int, j: int|
            0 <= k < PlatonicSolid::Tetrahedron.strip_count() && 0 <= j && j + 2 < PlatonicSolid::Tetrahedron.strip_len(k)
                ==> #[trigger] triangle_ok(PlatonicSolid::Tetrahedron, k, j),
{
    let s: ((int, int), (int, int), (int, int)) = ((30int, 0int), (5int, 0int), (10int, 0int));
    assert(PlatonicSolid::Tetrahedron.scale_ints() == s);
    assert(PlatonicSolid::Tetrahedron.model_row(0) == (-1int, 0int, -1int, 0int, 1int, 0int));
    assert(PlatonicSolid::Tetrahedron.model_row(1) == (1int, 0int, -1int, 0int, 1int, 0int));
    assert(PlatonicSolid::Tetrahedron.model_row(2) == (0int, 0int, 3int, 0int, 0int, 0int));
    assert(PlatonicSolid::Tetrahedron.model_row(3) == (0int, 0int, -1int, 0int, -2int, 0int));
    assert(row_distance((-1int, 0int, -1int, 0int, 1int, 0int), (1int, 0int, -1int, 0int, 1int, 0int), ((30int, 0int), (5int, 0int), (10int, 0int))) == (120int, 0int)) by (nonlinear_arith);
    assert(row_distance((1int, 0int, -1int, 0int, 1int, 0int), (-1int, 0int, -1int, 0int, 1int, 0int), ((30int, 0int), (5int, 0int), (10int, 0int))) == (120int, 0int)) by (nonlinear_arith);
    assert(side_ok(PlatonicSolid::Tetrahedron, 0, 1) && side_ok(PlatonicSolid::Tetrahedron, 1, 0));
    assert(row_distance((-1int, 0int, -1int, 0int, 1int, 0int), (0int, 0int, 3int, 0int, 0int, 0int), ((30int, 0int), (5int, 0int), (10int, 0int))) == (120int, 0int)) by (nonlinear_arith);
    assert(row_distance((0int, 0int, 3int, 0int, 0int, 0int), (-1int, 0int, -1int, 0int, 1int, 0int), ((30int, 0int), (5int, 0int), (10int, 0int))) == (120int, 0int)) by (nonlinear_arith);
    assert(side_ok(PlatonicSolid::Tetrahedron, 0, 2) && side_ok(PlatonicSolid::Tetrahedron, 2, 0));
    assert(row_distance((-1int, 0int, -1int, 0int, 1int, 0int), (0int, 0int, -1int, 0int, -2int, 0int), ((30int, 0int), (5int, 0int), (10int, 0int))) == (120int, 0int)) by (nonlinear_arith);
    assert(row_distance((0int, 0int, -1int, 0int, -2int, 0int), (-1int, 0int, -1int, 0int, 1int, 0int), ((30int, 0int), (5int, 0int), (10int, 0int))) == (120int, 0int)) by (nonlinear_arith);
    assert(side_ok(PlatonicSolid::Tetrahedron, 0, 3) && side_ok(PlatonicSolid::Tetrahedron, 3, 0));
    assert(row_distance((1int, 0int, -1int, 0int, 1int, 0int), (0int, 0int, 3int, 0int, 0int, 0int), ((30int, 0int), (5int, 0int), (10int, 0int))) == (120int, 0int)) by (nonlinear_arith);
    assert(row_distance((0int, 0int, 3int, 0int, 0int, 0int), (1int, 0int, -1int, 0int, 1int, 0int), ((30int, 0int), (5int, 0int), (10int, 0int))) == (120int, 0int)) by (nonlinear_arith);
    assert(side_ok(PlatonicSolid::Tetrahedron, 1, 2) && side_ok(PlatonicSolid::Tetrahedron, 2, 1));
    assert(row_distance((1int, 0int, -1int, 0int, 1int, 0int), (0int, 0int, -1int, 0int, -2int, 0int), ((30int, 0int), (5int, 0int), (10int, 0int))) == (120int, 0int)) by (nonlinear_arith);
    assert(row_distance((0int, 0int, -1int, 0int, -2int, 0int), (1int, 0int, -1int, 0int, 1int, 0int), ((30int, 0int), (5int, 0int), (10int, 0int))) == (120int, 0int)) by (nonlinear_arith);
    assert(side_ok(PlatonicSolid::Tetrahedron, 1, 3) && side_ok(PlatonicSolid::Tetrahedron, 3, 1));
    assert(row_distance((0int, 0int, 3int, 0int, 0int, 0int), (0int, 0int, -1int, 0int, -2int, 0int), ((30int, 0int), (5int, 0int), (10int, 0int))) == (120int, 0int)) by (nonlinear_arith);
    assert(row_distance((0int, 0int, -1int, 0int, -2int, 0int), (0int, 0int, 3int, 0int, 0int, 0int), ((30int, 0int), (5int, 0int), (10int, 0int))) == (120int, 0int)) by (nonlinear_arith);
    assert(side_ok(PlatonicSolid::Tetrahedron, 2, 3) && side_ok(PlatonicSolid::Tetrahedron, 3, 2));
    assert(PlatonicSolid::Tetrahedron.strip_entry(0, 0) == 0 && PlatonicSolid::Tetrahedron.strip_entry(0, 1) == 1 && PlatonicSolid::Tetrahedron.strip_entry(0, 2) == 2);
    assert(triangle_ok(PlatonicSolid::Tetrahedron, 0, 0));
    assert(PlatonicSolid::Tetrahedron.strip_entry(0, 1) == 1 && PlatonicSolid::Tetrahedron.strip_entry(0, 2) == 2 && PlatonicSolid::Tetrahedron.strip_entry(0, 3) == 3);
    assert(triangle_ok(PlatonicSolid::Tetrahedron, 0, 1));
    assert(PlatonicSolid::Tetrahedron.strip_entry(0, 2) == 2 && PlatonicSolid::Tetrahedron.strip_entry(0, 3) == 3 && PlatonicSolid::Tetrahedron.strip_entry(0, 4) == 0);
    assert(triangle_ok(PlatonicSolid::Tetrahedron, 0, 2));
    assert(PlatonicSolid::Tetrahedron.strip_entry(0, 3) == 3 && PlatonicSolid::Tetrahedron.strip_entry(0, 4) == 0 && PlatonicSolid::Tetrahedron.strip_entry(0, 5) == 1);
    assert(triangle_ok(PlatonicSolid::Tetrahedron, 0, 3));
    assert forall|k: int, j: int|
        0 <= k < PlatonicSolid::Tetrahedron.strip_count() && 0 <= j && j + 2 < PlatonicSolid::Tetrahedron.strip_len(k)
        implies #[trigger] triangle_ok(PlatonicSolid::Tetrahedron, k, j) by {
        if k == 0 {
            if j == 0 {} else if j == 1 {} else if j == 2 {} else if j == 3 {}
        }
    }
}

#[verifier::spinoff_prover]
pub(crate) proof fn lemma_hexahedron_strip_sides()
    ensures
        forall|k: int, j: int|
            0 <= k < PlatonicSolid::Hexahedron.strip_count() && 0 <= j && j + 2 < PlatonicSolid::Hexahedron.strip_len(k)
                ==> #[trigger] triangle_ok(PlatonicSolid::Hexahedron, k, j),
{
    let s: ((int, int), (int, int), (int, int)) = ((30int, 0int), (30int, 0int), (30int, 0int));
    assert(PlatonicSolid::Hexahedron.scale_ints() == s);
    assert(PlatonicSolid::Hexahedron.model_row(0) == (-1int, 0int, -1int, 0int, 1int, 0int));
    assert(PlatonicSolid::Hexahedron.model_row(1) == (1int, 0int, -1int, 0int, 1int, 0int));
    assert(PlatonicSolid::Hexahedron.model_row(2) == (-1int, 0int, 1int, 0int, 1int, 0int));
    assert(PlatonicSolid::Hexahedron.model_row(3) == (1int, 0int, 1int, 0int, 1int, 0int));
    assert(PlatonicSolid::Hexahedron.model_row(4) == (-1int, 0int, -1int, 0int, -1int, 0int));
    assert(PlatonicSolid::Hexahedron.model_row(5) == (1int, 0int, -1int, 0int, -1int, 0int));
    assert(PlatonicSolid::Hexahedron.model_row(6) == (-1int, 0int, 1int, 0int, -1int, 0int));
    assert(PlatonicSolid::Hexahedron.model_row(7) == (1int, 0int, 1int, 0int, -1int, 0int));
    assert(row_distance((-1int, 0int, -1int, 0int, 1int, 0int), (1int, 0int, -1int, 0int, 1int, 0int), ((30int, 0int), (30int, 0int), (30int, 0int))) == (120int, 0int)) by (nonlinear_arith);
    assert(row_distance((1int, 0int, -1int, 0int, 1int, 0int), (-1int, 0int, -1int, 0int, 1int, 0int), ((30int, 0int), (30int, 0int), (30int, 0int))) == (120int, 0int)) by (nonlinear_arith);
    assert(side_ok(PlatonicSolid::Hexahedron, 0, 1) && side_ok(PlatonicSolid::Hexahedron, 1, 0));
    assert(row_distance((-1int, 0int, -1int, 0int, 1int, 0int), (-1int, 0int, 1int, 0int, 1int, 0int), ((30int, 0int), (30int, 0int), (30int, 0int))) == (120int, 0int)) by (nonlinear_arith);
    assert(row_distance((-1int, 0int, 1int, 0int, 1int, 0int), (-1int, 0int, -1int, 0int, 1int, 0int), ((30int, 0int), (30int, 0int), (30int, 0int))) == (120int, 0int)) by (nonlinear_arith);
    assert(side_ok(PlatonicSolid::Hexahedron, 0, 2) && side_ok(PlatonicSolid::Hexahedron, 2, 0));
    assert(row_distance((-1int, 0int, -1int, 0int, 1int, 0int), (-1int, 0int, -1int, 0int, -1int, 0int), ((30int, 0int), (30int, 0int), (30int, 0int))) == (120int, 0int)) by (nonlinear_arith);
    assert(row_distance((-1int, 0int, -1int, 0int, -1int, 0int), (-1int, 0int, -1int, 0int, 1int, 0int), ((30int, 0int), (30int, 0int), (30int, 0int))) == (120int, 0int)) by (nonlinear_arith);
    assert(side_ok(PlatonicSolid::Hexahedron, 0, 4) && side_ok(PlatonicSolid::Hexahedron, 4, 0));
    assert(row_distance((-1int, 0int, -1int, 0int, 1int, 0int), (1int, 0int, -1int, 0int, -1int, 0int), ((30int, 0int), (30int, 0int), (30int, 0int))) == (240int, 0int)) by (nonlinear_arith);
    assert(row_distance((1int, 0int, -1int, 0int, -1int, 0int), (-1int, 0int, -1int, 0int, 1int, 0int), ((30int, 0int), (30int, 0int), (30int, 0int))) == (240int, 0int)) by (nonlinear_arith);
    assert(side_ok(PlatonicSolid::Hexahedron, 0, 5) && side_ok(PlatonicSolid::Hexahedron, 5, 0));
    assert(row_distance((1int, 0int, -1int, 0int, 1int, 0int), (-1int, 0int, 1int, 0int, 1int, 0int), ((30int, 0int), (30int, 0int), (30int, 0int))) == (240int, 0int)) by (nonlinear_arith);
    assert(row_distance((-1int, 0int, 1int, 0int, 1int, 0int), (1int, 0int, -1int, 0int, 1int, 0int), ((30int, 0int), (30int, 0int), (30int, 0int))) == (240int, 0int)) by (nonlinear_arith);
    assert(side_ok(PlatonicSolid::Hexahedron, 1, 2) && side_ok(PlatonicSolid::Hexahedron, 2, 1));
    assert(row_distance((1int, 0int, -1int, 0int, 1int, 0int), (1int, 0int, 1int, 0int, 1int, 0int), ((30int, 0int), (30int, 0int), (30int, 0int))) == (120int, 0int)) by (nonlinear_arith);
    assert(row_distance((1int, 0int, 1int, 0int, 1int, 0int), (1int, 0int, -1int, 0int, 1int, 0int), ((30int, 0int), (30int, 0int), (30int, 0int))) == (120int, 0int)) by (nonlinear_arith);
    assert(side_ok(PlatonicSolid::Hexahedron, 1, 3) && side_ok(PlatonicSolid::Hexahedron, 3, 1));
    assert(row_distance((1int, 0int, -1int, 0int, 1int, 0int), (1int, 0int, -1int, 0int, -1int, 0int), ((30int, 0int), (30int, 0int), (30int, 0int))) == (120int, 0int)) by (nonlinear_arith);
    assert(row_distance((1int, 0int, -1int, 0int, -1int, 0int), (1int, 0int, -1int, 0int, 1int, 0int), ((30int, 0int), (30int, 0int), (30int, 0int))) == (120int, 0int)) by (nonlinear_arith);
    assert(side_ok(PlatonicSolid::Hexahedron, 1, 5) && side_ok(PlatonicSolid::Hexahedron, 5, 1));
    assert(row_distance((1int, 0int, -1int, 0int, 1int, 0int), (1int, 0int, 1int, 0int, -1int, 0int), ((30int, 0int), (30int, 0int), (30int, 0int))) == (240int, 0int)) by (nonlinear_arith);
    assert(row_distance((1int, 0int, 1int, 0int, -1int, 0int), (1int, 0int, -1int, 0int, 1int, 0int), ((30int, 0int), (30int, 0int), (30int, 0int))) == (240int, 0int)) by (nonlinear_arith);
    assert(side_ok(PlatonicSolid::Hexahedron, 1, 7) && side_ok(PlatonicSolid::Hexahedron, 7, 1));
    assert(row_distance((-1int, 0int, 1int, 0int, 1int, 0int), (1int, 0int, 1int, 0int, 1int, 0int), ((30int, 0int), (30int, 0int), (30int, 0int))) == (120int, 0int)) by (nonlinear_arith);
    assert(row_distance((1int, 0int, 1int, 0int, 1int, 0int), (-1int, 0int, 1int, 0int, 1int, 0int), ((30int, 0int), (30int, 0int), (30int, 0int))) == (120int, 0int)) by (nonlinear_arith);
    assert(side_ok(PlatonicSolid::Hexahedron, 2, 3) && side_ok(PlatonicSolid::Hexahedron, 3, 2));
    assert(row_distance((-1int, 0int, 1int, 0int, 1int, 0int), (-1int, 0int, -1int, 0int, -1int, 0int), ((30int, 0int), (30int, 0int), (30int, 0int))) == (240int, 0int)) by (nonlinear_arith);
    assert(row_distance((-1int, 0int, -1int, 0int, -1int, 0int), (-1int, 0int, 1int, 0int, 1int, 0int), ((30int, 0int), (30int, 0int), (30int, 0int))) == (240int, 0int)) by (nonlinear_arith);
    assert(side_ok(PlatonicSolid::Hexahedron, 2, 4) && side_ok(PlatonicSolid::Hexahedron, 4, 2));
    assert(row_distance((-1int, 0int, 1int, 0int, 1int, 0int), (-1int, 0int, 1int, 0int, -1int, 0int), ((30int, 0int), (30int, 0int), (30int, 0int))) == (120int, 0int)) by (nonlinear_arith);
    assert(row_distance((-1int, 0int, 1int, 0int, -1int, 0int), (-1int, 0int, 1int, 0int, 1int, 0int), ((30int, 0int), (30int, 0int), (30int, 0int))) == (120int, 0int)) by (nonlinear_arith);
    assert(side_ok(PlatonicSolid::Hexahedron, 2, 6) && side_ok(PlatonicSolid::Hexahedron, 6, 2));
    assert(row_distance((-1int, 0int, 1int, 0int, 1int, 0int), (1int, 0int, 1int, 0int, -1int, 0int), ((30int, 0int), (30int, 0int), (30int, 0int))) == (240int, 0int)) by (nonlinear_arith);
    assert(row_distance((1int, 0int, 1int, 0int, -1int, 0int), (-1int, 0int, 1int, 0int, 1int, 0int), ((30int, 0int), (30int, 0int), (30int, 0int))) == (240int, 0int)) by (nonlinear_arith);
    assert(side_ok(PlatonicSolid::Hexahedron, 2, 7) && side_ok(PlatonicSolid::Hexahedron, 7, 2));
    assert(row_distance((1int, 0int, 1int, 0int, 1int, 0int), (1int, 0int, 1int, 0int, -1int, 0int), ((30int, 0int), (30int, 0int), (30int, 0int))) == (120int, 0int)) by (nonlinear_arith);
    assert(row_distance((1int, 0int, 1int, 0int, -1int, 0int), (1int, 0int, 1int, 0int, 1int, 0int), ((30int, 0int), (30int, 0int), (30int, 0int))) == (120int, 0int)) by (nonlinear_arith);
    assert(side_ok(PlatonicSolid::Hexahedron, 3, 7) && side_ok(PlatonicSolid::Hexahedron, 7, 3));
    assert(row_distance((-1int, 0int, -1int, 0int, -1int, 0int), (1int, 0int, -1int, 0int, -1int, 0int), ((30int, 0int), (30int, 0int), (30int, 0int))) == (120int, 0int)) by (nonlinear_arith);
    assert(row_distance((1int, 0int, -1int, 0int, -1int, 0int), (-1int, 0int, -1int, 0int, -1int, 0int), ((30int, 0int), (30int, 0int), (30int, 0int))) == (120int, 0int)) by (nonlinear_arith);
    assert(side_ok(PlatonicSolid::Hexahedron, 4, 5) && side_ok(PlatonicSolid::Hexahedron, 5, 4));
    assert(row_distance((-1int, 0int, -1int, 0int, -1int, 0int), (-1int, 0int, 1int, 0int, -1int, 0int), ((30int, 0int), (30int, 0int), (30int, 0int))) == (120int, 0int)) by (nonlinear_arith);
    assert(row_distance((-1int, 0int, 1int, 0int, -1int, 0int), (-1int, 0int, -1int, 0int, -1int, 0int), ((30int, 0int), (30int, 0int), (30int, 0int))) == (120int, 0int)) by (nonlinear_arith);
    assert(side_ok(PlatonicSolid::Hexahedron, 4, 6) && side_ok(PlatonicSolid::Hexahedron, 6, 4));
    assert(row_distance((-1int, 0int, -1int, 0int, -1int, 0int), (1int, 0int, 1int, 0int, -1int, 0int), ((30int, 0int), (30int, 0int), (30int, 0int))) == (240int, 0int)) by (nonlinear_arith);
    assert(row_distance((1int, 0int, 1int, 0int, -1int, 0int), (-1int, 0int, -1int, 0int, -1int, 0int), ((30int, 0int), (30int, 0int), (30int, 0int))) == (240int, 0int)) by (nonlinear_arith);
    assert(side_ok(PlatonicSolid::Hexahedron, 4, 7) && side_ok(PlatonicSolid::Hexahedron, 7, 4));
    assert(row_distance((1int, 0int, -1int, 0int, -1int, 0int), (1int, 0int, 1int, 0int, -1int, 0int), ((30int, 0int), (30int, 0int), (30int, 0int))) == (120int, 0int)) by (nonlinear_arith);
    assert(row_distance((1int, 0int, 1int, 0int, -1int, 0int), (1int, 0int, -1int, 0int, -1int, 0int), ((30int, 0int), (30int, 0int), (30int, 0int))) == (120int, 0int)) by (nonlinear_arith);
    assert(side_ok(PlatonicSolid::Hexahedron, 5, 7) && side_ok(PlatonicSolid::Hexahedron, 7, 5));
    assert(row_distance((-1int, 0int, 1int, 0int, -1int, 0int), (1int, 0int, 1int, 0int, -1int, 0int), ((30int, 0int), (30int, 0int), (30int, 0int))) == (120int, 0int)) by (nonlinear_arith);
    assert(row_distance((1int, 0int, 1int, 0int, -1int, 0int), (-1int, 0int, 1int, 0int, -1int, 0int), ((30int, 0int), (30int, 0int), (30int, 0int))) == (120int, 0int)) by (nonlinear_arith);
    assert(side_ok(PlatonicSolid::Hexahedron, 6, 7) && side_ok(PlatonicSolid::Hexahedron, 7, 6));
    assert(PlatonicSolid::Hexahedron.strip_entry(0, 0) == 0 && PlatonicSolid::Hexahedron.strip_entry(0, 1) == 1 && PlatonicSolid::Hexahedron.strip_entry(0, 2) == 2);
    assert(triangle_ok(PlatonicSolid::Hexahedron, 0, 0));
    assert(PlatonicSolid::Hexahedron.strip_entry(0, 1) == 1 && PlatonicSolid::Hexahedron.strip_entry(0, 2) == 2 && PlatonicSolid::Hexahedron.strip_entry(0, 3) == 3);
    assert(triangle_ok(PlatonicSolid::Hexahedron, 0, 1));
    assert(PlatonicSolid::Hexahedron.strip_entry(0, 2) == 2 && PlatonicSolid::Hexahedron.strip_entry(0, 3) == 3 && PlatonicSolid::Hexahedron.strip_entry(0, 4) == 7);
    assert(triangle_ok(PlatonicSolid::Hexahedron, 0, 2));
    assert(PlatonicSolid::Hexahedron.strip_entry(0, 3) == 3 && PlatonicSolid::Hexahedron.strip_entry(0, 4) == 7 && PlatonicSolid::Hexahedron.strip_entry(0, 5) == 1);
    assert(triangle_ok(PlatonicSolid::Hexahedron, 0, 3));
    assert(PlatonicSolid::Hexahedron.strip_entry(0, 4) == 7 && PlatonicSolid::Hexahedron.strip_entry(0, 5) == 1 && PlatonicSolid::Hexahedron.strip_entry(0, 6) == 5);
    assert(triangle_ok(PlatonicSolid::Hexahedron, 0, 4));
    assert(PlatonicSolid::Hexahedron.strip_entry(0, 5) == 1 && PlatonicSolid::Hexahedron.strip_entry(0, 6) == 5 && PlatonicSolid::Hexahedron.strip_entry(0, 7) == 0);
    assert(triangle_ok(PlatonicSolid::Hexahedron, 0, 5));
    assert(PlatonicSolid::Hexahedron.strip_entry(0, 6) == 5 && PlatonicSolid::Hexahedron.strip_entry(0, 7) == 0 && PlatonicSolid::Hexahedron.strip_entry(0, 8) == 4);
    assert(triangle_ok(PlatonicSolid::Hexahedron, 0, 6));
    assert(PlatonicSolid::Hexahedron.strip_entry(0, 7) == 0 && PlatonicSolid::Hexahedron.strip_entry(0, 8) == 4 && PlatonicSolid::Hexahedron.strip_entry(0, 9) == 2);
    assert(triangle_ok(PlatonicSolid::Hexahedron, 0, 7));
    assert(PlatonicSolid::Hexahedron.strip_entry(0, 8) == 4 && PlatonicSolid::Hexahedron.strip_entry(0, 9) == 2 && PlatonicSolid::Hexahedron.strip_entry(0, 10) == 6);
    assert(triangle_ok(PlatonicSolid::Hexahedron, 0, 8));
    assert(PlatonicSolid::Hexahedron.strip_entry(0, 9) == 2 && PlatonicSolid::Hexahedron.strip_entry(0, 10) == 6 && PlatonicSolid::Hexahedron.strip_entry(0, 11) == 7);
    assert(triangle_ok(PlatonicSolid::Hexahedron, 0, 9));
    assert(PlatonicSolid::Hexahedron.strip_entry(0, 10) == 6 && PlatonicSolid::Hexahedron.strip_entry(0, 11) == 7 && PlatonicSolid::Hexahedron.strip_entry(0, 12) == 4);
    assert(triangle_ok(PlatonicSolid::Hexahedron, 0, 10));
    assert(PlatonicSolid::Hexahedron.strip_entry(0, 11) == 7 && PlatonicSolid::Hexahedron.strip_entry(0, 12) == 4 && PlatonicSolid::Hexahedron.strip_entry(0, 13) == 5);
    assert(triangle_ok(PlatonicSolid::Hexahedron, 0, 11));
    assert forall|k: int, j: int|
        0 <= k < PlatonicSolid::Hexahedron.strip_count() && 0 <= j && j + 2 < PlatonicSolid::Hexahedron.strip_len(k)
        implies #[trigger] triangle_ok(PlatonicSolid::Hexahedron, k, j) by {
        if k == 0 {
            if j == 0 {} else if j == 1 {} else if j == 2 {} else if j == 3 {} else if j == 4 {} else if j == 5 {} else if j == 6 {} else if j == 7 {} else if j == 8 {} else if j == 9 {} else if j == 10 {} else if j == 11 {}
        }
    }
}

#[verifier::spinoff_prover]
pub(crate) proof fn lemma_octahedron_strip_sides()
    ensures
        forall|k: int, j: int|
            0 <= k < PlatonicSolid::Octahedron.strip_count() && 0 <= j && j + 2 < PlatonicSolid::Octahedron.strip_len(k)
                ==> #[trigger] triangle_ok(PlatonicSolid::Octahedron, k, j),
{
    let s: ((int, int), (int, int), (int, int)) = ((30int, 0int), (60int, 0int), (30int, 0int));
    assert(PlatonicSolid::Octahedron.scale_ints() == s);
    assert(PlatonicSolid::Octahedron.model_row(0) == (0int, 0int, 1int, 0int, 0int, 0int));
    assert(PlatonicSolid::Octahedron.model_row(1) == (-1int, 0int, 0int, 0int, -1int, 0int));
    assert(PlatonicSolid::Octahedron.model_row(2) == (-1int, 0int, 0int, 0int, 1int, 0int));
    assert(PlatonicSolid::Octahedron.model_row(3) == (1int, 0int, 0int, 0int, 1int, 0int));
    assert(PlatonicSolid::Octahedron.model_row(4) == (1int, 0int, 0int, 0int, -1int, 0int));
    assert(PlatonicSolid::Octahedron.model_row(5) == (0int, 0int, -1int, 0int, 0int, 0int));
    assert(row_distance((0int, 0int, 1int, 0int, 0int, 0int), (-1int, 0int, 0int, 0int, -1int, 0int), ((30int, 0int), (60int, 0int), (30int, 0int))) == (120int, 0int)) by (nonlinear_arith);
    assert(row_distance((-1int, 0int, 0int, 0int, -1int, 0int), (0int, 0int, 1int, 0int, 0int, 0int), ((30int, 0int), (60int, 0int), (30int, 0int))) == (120int, 0int)) by (nonlinear_arith);
    assert(side_ok(PlatonicSolid::Octahedron, 0, 1) && side_ok(PlatonicSolid::Octahedron, 1, 0));
    assert(row_distance((0int, 0int, 1int, 0int, 0int, 0int), (-1int, 0int, 0int, 0int, 1int, 0int), ((30int, 0int), (60int, 0int), (30int, 0int))) == (120int, 0int)) by (nonlinear_arith);
    assert(row_distance((-1int, 0int, 0int, 0int, 1int, 0int), (0int, 0int, 1int, 0int, 0int, 0int), ((30int, 0int), (60int, 0int), (30int, 0int))) == (120int, 0int)) by (nonlinear_arith);
    assert(side_ok(PlatonicSolid::Octahedron, 0, 2) && side_ok(PlatonicSolid::Octahedron, 2, 0));
    assert(row_distance((0int, 0int, 1int, 0int, 0int, 0int), (1int, 0int, 0int, 0int, 1int, 0int), ((30int, 0int), (60int, 0int), (30int, 0int))) == (120int, 0int)) by (nonlinear_arith);
    assert(row_distance((1int, 0int, 0int, 0int, 1int, 0int), (0int, 0int, 1int, 0int, 0int, 0int), ((30int, 0int), (60int, 0int), (30int, 0int))) == (120int, 0int)) by (nonlinear_arith);
    assert(side_ok(PlatonicSolid::Octahedron, 0, 3) && side_ok(PlatonicSolid::Octahedron, 3, 0));
    assert(row_distance((0int, 0int, 1int, 0int, 0int, 0int), (1int, 0int, 0int, 0int, -1int, 0int), ((30int, 0int), (60int, 0int), (30int, 0int))) == (120int, 0int)) by (nonlinear_arith);
    assert(row_distance((1int, 0int, 0int, 0int, -1int, 0int), (0int, 0int, 1int, 0int, 0int, 0int), ((30int, 0int), (60int, 0int), (30int, 0int))) == (120int, 0int)) by (nonlinear_arith);
    assert(side_ok(PlatonicSolid::Octahedron, 0, 4) && side_ok(PlatonicSolid::Octahedron, 4, 0));
    assert(row_distance((-1int, 0int, 0int, 0int, -1int, 0int), (-1int, 0int, 0int, 0int, 1int, 0int), ((30int, 0int), (60int, 0int), (30int, 0int))) == (120int, 0int)) by (nonlinear_arith);
    assert(row_distance((-1int, 0int, 0int, 0int, 1int, 0int), (-1int, 0int, 0int, 0int, -1int, 0int), ((30int, 0int), (60int, 0int), (30int, 0int))) == (120int, 0int)) by (nonlinear_arith);
    assert(side_ok(PlatonicSolid::Octahedron, 1, 2) && side_ok(PlatonicSolid::Octahedron, 2, 1));
    assert(row_distance((-1int, 0int, 0int, 0int, -1int, 0int), (1int, 0int, 0int, 0int, -1int, 0int), ((30int, 0int), (60int, 0int), (30int, 0int))) == (120int, 0int)) by (nonlinear_arith);
    assert(row_distance((1int, 0int, 0int, 0int, -1int, 0int), (-1int, 0int, 0int, 0int, -1int, 0int), ((30int, 0int), (60int, 0int), (30int, 0int))) == (120int, 0int)) by (nonlinear_arith);
    assert(side_ok(PlatonicSolid::Octahedron, 1, 4) && side_ok(PlatonicSolid::Octahedron, 4, 1));
    assert(row_distance((-1int, 0int, 0int, 0int, -1int, 0int), (0int, 0int, -1int, 0int, 0int, 0int), ((30int, 0int), (60int, 0int), (30int, 0int))) == (120int, 0int)) by (nonlinear_arith);
    assert(row_distance((0int, 0int, -1int, 0int, 0int, 0int), (-1int, 0int, 0int, 0int, -1int, 0int), ((30int, 0int), (60int, 0int), (30int, 0int))) == (120int, 0int)) by (nonlinear_arith);
    assert(side_ok(PlatonicSolid::Octahedron, 1, 5) && side_ok(PlatonicSolid::Octahedron, 5, 1));
    assert(row_distance((-1int, 0int, 0int, 0int, 1int, 0int), (1int, 0int, 0int, 0int, 1int, 0int), ((30int, 0int), (60int, 0int), (30int, 0int))) == (120int, 0int)) by (nonlinear_arith);
    assert(row_distance((1int, 0int, 0int, 0int, 1int, 0int), (-1int, 0int, 0int, 0int, 1int, 0int), ((30int, 0int), (60int, 0int), (30int, 0int))) == (120int, 0int)) by (nonlinear_arith);
    assert(side_ok(PlatonicSolid::Octahedron, 2, 3) && side_ok(PlatonicSolid::Octahedron, 3, 2));
    assert(row_distance((-1int, 0int, 0int, 0int, 1int, 0int), (0int, 0int, -1int, 0int, 0int, 0int), ((30int, 0int), (60int, 0int), (30int, 0int))) == (120int, 0int)) by (nonlinear_arith);
    assert(row_distance((0int, 0int, -1int, 0int, 0int, 0int), (-1int, 0int, 0int, 0int, 1int, 0int), ((30int, 0int), (60int, 0int), (30int, 0int))) == (120int, 0int)) by (nonlinear_arith);
    assert(side_ok(PlatonicSolid::Octahedron, 2, 5) && side_ok(PlatonicSolid::Octahedron, 5, 2));
    assert(row_distance((1int, 0int, 0int, 0int, 1int, 0int), (1int, 0int, 0int, 0int, -1int, 0int), ((30int, 0int), (60int, 0int), (30int, 0int))) == (120int, 0int)) by (nonlinear_arith);
    assert(row_distance((1int, 0int, 0int, 0int, -1int, 0int), (1int, 0int, 0int, 0int, 1int, 0int), ((30int, 0int), (60int, 0int), (30int, 0int))) == (120int, 0int)) by (nonlinear_arith);
    assert(side_ok(PlatonicSolid::Octahedron, 3, 4) && side_ok(PlatonicSolid::Octahedron, 4, 3));
    assert(row_distance((1int, 0int, 0int, 0int, 1int, 0int), (0int, 0int, -1int, 0int, 0int, 0int), ((30int, 0int), (60int, 0int), (30int, 0int))) == (120int, 0int)) by (nonlinear_arith);
    assert(row_distance((0int, 0int, -1int, 0int, 0int, 0int), (1int, 0int, 0int, 0int, 1int, 0int), ((30int, 0int), (60int, 0int), (30int, 0int))) == (120int, 0int)) by (nonlinear_arith);
    assert(side_ok(PlatonicSolid::Octahedron, 3, 5) && side_ok(PlatonicSolid::Octahedron, 5, 3));
    assert(row_distance((1int, 0int, 0int, 0int, -1int, 0int), (0int, 0int, -1int, 0int, 0int, 0int), ((30int, 0int), (60int, 0int), (30int, 0int))) == (120int, 0int)) by (nonlinear_arith);
    assert(row_distance((0int, 0int, -1int, 0int, 0int, 0int), (1int, 0int, 0int, 0int, -1int, 0int), ((30int, 0int), (60int, 0int), (30int, 0int))) == (120int, 0int)) by (nonlinear_arith);
    assert(side_ok(PlatonicSolid::Octahedron, 4, 5) && side_ok(PlatonicSolid::Octahedron, 5, 4));
    assert(PlatonicSolid::Octahedron.strip_entry(0, 0) == 1 && PlatonicSolid::Octahedron.strip_entry(0, 1) == 0 && PlatonicSolid::Octahedron.strip_entry(0, 2) == 4);
    assert(triangle_ok(PlatonicSolid::Octahedron, 0, 0));
    assert(PlatonicSolid::Octahedron.strip_entry(0, 1) == 0 && PlatonicSolid::Octahedron.strip_entry(0, 2) == 4 && PlatonicSolid::Octahedron.strip_entry(0, 3) == 3);
    assert(triangle_ok(PlatonicSolid::Octahedron, 0, 1));
    assert(PlatonicSolid::Octahedron.strip_entry(0, 2) == 4 && PlatonicSolid::Octahedron.strip_entry(0, 3) == 3 && PlatonicSolid::Octahedron.strip_entry(0, 4) == 5);
    assert(triangle_ok(PlatonicSolid::Octahedron, 0, 2));
    assert(PlatonicSolid::Octahedron.strip_entry(0, 3) == 3 && PlatonicSolid::Octahedron.strip_entry(0, 4) == 5 && PlatonicSolid::Octahedron.strip_entry(0, 5) == 2);
    assert(triangle_ok(PlatonicSolid::Octahedron, 0, 3));
    assert(PlatonicSolid::Octahedron.strip_entry(1, 0) == 3 && PlatonicSolid::Octahedron.strip_entry(1, 1) == 0 && PlatonicSolid::Octahedron.strip_entry(1, 2) == 2);
    assert(triangle_ok(PlatonicSolid::Octahedron, 1, 0));
    assert(PlatonicSolid::Octahedron.strip_entry(1, 1) == 0 && PlatonicSolid::Octahedron.strip_entry(1, 2) == 2 && PlatonicSolid::Octahedron.strip_entry(1, 3) == 1);
    assert(triangle_ok(PlatonicSolid::Octahedron, 1, 1));
    assert(PlatonicSolid::Octahedron.strip_entry(1, 2) == 2 && PlatonicSolid::Octahedron.strip_entry(1, 3) == 1 && PlatonicSolid::Octahedron.strip_entry(1, 4) == 5);
    assert(triangle_ok(PlatonicSolid::Octahedron, 1, 2));
    assert(PlatonicSolid::Octahedron.strip_entry(1, 3) == 1 && PlatonicSolid::Octahedron.strip_entry(1, 4) == 5 && PlatonicSolid::Octahedron.strip_entry(1, 5) == 4);
    assert(triangle_ok(PlatonicSolid::Octahedron, 1, 3));
    assert forall|k: int, j: int|
        0 <= k < PlatonicSolid::Octahedron.strip_count() && 0 <= j && j + 2 < PlatonicSolid::Octahedron.strip_len(k)
        implies #[trigger] triangle_ok(PlatonicSolid::Octahedron, k, j) by {
        if k == 0 {
            if j == 0 {} else if j == 1 {} else if j == 2 {} else if j == 3 {}
        } else if k == 1 {
            if j == 0 {} else if j == 1 {} else if j == 2 {} else if j == 3 {}
        }
    }
}

#[verifier::spinoff_prover]
#[verifier::rlimit(100)]
pub(crate) proof fn lemma_dodecahedron_strip_sides()
    ensures
        forall|k: int, j: int|
            0 <= k < PlatonicSolid::Dodecahedron.strip_count() && 0 <= j && j + 2 < PlatonicSolid::Dodecahedron.strip_len(k)
                ==> #[trigger] triangle_ok(PlatonicSolid::Dodecahedron, k, j),
{
    let s: ((int, int), (int, int), (int, int)) = ((30int, 0int), (42int, -24int), (42int, -24int));
    assert(PlatonicSolid::Dodecahedron.scale_ints() == s);
    assert(PlatonicSolid::Dodecahedron.model_row(0) == (0int, 0int, 2int, 2int, 2int, 3int));
    assert(PlatonicSolid::Dodecahedron.model_row(1) == (0int, -1int, 0int, 1int, 2int, 3int));
    assert(PlatonicSolid::Dodecahedron.model_row(2) == (0int, 1int, 0int, 1int, 2int, 3int));
    assert(PlatonicSolid::Dodecahedron.model_row(3) == (-1int, 0int, -1int, -2int, 2int, 3int));
    assert(PlatonicSolid::Dodecahedron.model_row(4) == (1int, 0int, -1int, -2int, 2int, 3int));
    assert(PlatonicSolid::Dodecahedron.model_row(5) == (0int, 0int, 2int, 4int, 0int, 1int));
    assert(PlatonicSolid::Dodecahedron.model_row(6) == (-1int, -1int, 1int, 1int, 0int, 1int));
    assert(PlatonicSolid::Dodecahedron.model_row(7) == (1int, 1int, 1int, 1int, 0int, 1int));
    assert(PlatonicSolid::Dodecahedron.model_row(8) == (0int, -1int, -2int, -3int, 0int, 1int));
    assert(PlatonicSolid::Dodecahedron.model_row(9) == (0int, 1int, -2int, -3int, 0int, 1int));
    assert(PlatonicSolid::Dodecahedron.model_row(10) == (0int, -1int, 2int, 3int, 0int, -1int));
    assert(PlatonicSolid::Dodecahedron.model_row(11) == (0int, 1int, 2int, 3int, 0int, -1int));
    assert(PlatonicSolid::Dodecahedron.model_row(12) == (-1int, -1int, -1int, -1int, 0int, -1int));
    assert(PlatonicSolid::Dodecahedron.model_row(13) == (1int, 1int, -1int, -1int, 0int, -1int));
    assert(PlatonicSolid::Dodecahedron.model_row(14) == (0int, 0int, -2int, -4int, 0int, -1int));
    assert(PlatonicSolid::Dodecahedron.model_row(15) == (-1int, 0int, 1int, 2int, -2int, -3int));
    assert(PlatonicSolid::Dodecahedron.model_row(16) == (1int, 0int, 1int, 2int, -2int, -3int));
    assert(PlatonicSolid::Dodecahedron.model_row(17) == (0int, -1int, 0int, -1int, -2int, -3int));
    assert(PlatonicSolid::Dodecahedron.model_row(18) == (0int, 1int, 0int, -1int, -2int, -3int));
    assert(PlatonicSolid::Dodecahedron.model_row(19) == (0int, 0int, -2int, -2int, -2int, -3int));
    assert(row_distance((0int, 0int, 2int, 2int, 2int, 3int), (0int, -1int, 0int, 1int, 2int, 3int), ((30int, 0int), (42int, -24int), (42int, -24int))) == (120int, 0int)) by (nonlinear_arith);
    assert(row_distance((0int, -1int, 0int, 1int, 2int, 3int), (0int, 0int, 2int, 2int, 2int, 3int), ((30int, 0int), (42int, -24int), (42int, -24int))) == (120int, 0int)) by (nonlinear_arith);
    assert(side_ok(PlatonicSolid::Dodecahedron, 0, 1) && side_ok(PlatonicSolid::Dodecahedron, 1, 0));
    assert(row_distance((0int, 0int, 2int, 2int, 2int, 3int), (0int, 1int, 0int, 1int, 2int, 3int), ((30int, 0int), (42int, -24int), (42int, -24int))) == (120int, 0int)) by (nonlinear_arith);
    assert(row_distance((0int, 1int, 0int, 1int, 2int, 3int), (0int, 0int, 2int, 2int, 2int, 3int), ((30int, 0int), (42int, -24int), (42int, -24int))) == (120int, 0int)) by (nonlinear_arith);
    assert(side_ok(PlatonicSolid::Dodecahedron, 0, 2) && side_ok(PlatonicSolid::Dodecahedron, 2, 0));
    assert(row_distance((0int, 0int, 2int, 2int, 2int, 3int), (-1int, 0int, -1int, -2int, 2int, 3int), ((30int, 0int), (42int, -24int), (42int, -24int))) == (120int, 120int)) by (nonlinear_arith);
    assert(row_distance((-1int, 0int, -1int, -2int, 2int, 3int), (0int, 0int, 2int, 2int, 2int, 3int), ((30int, 0int), (42int, -24int), (42int, -24int))) == (120int, 120int)) by (nonlinear_arith);
    assert(side_ok(PlatonicSolid::Dodecahedron, 0, 3) && side_ok(PlatonicSolid::Dodecahedron, 3, 0));
    assert(row_distance((0int, 0int, 2int, 2int, 2int, 3int), (1int, 0int, -1int, -2int, 2int, 3int), ((30int, 0int), (42int, -24int), (42int, -24int))) == (120int, 120int)) by (nonlinear_arith);
    assert(row_distance((1int, 0int, -1int, -2int, 2int, 3int), (0int, 0int, 2int, 2int, 2int, 3int), ((30int, 0int), (42int, -24int), (42int, -24int))) == (120int, 120int)) by (nonlinear_arith);
    assert(side_ok(PlatonicSolid::Dodecahedron, 0, 4) && side_ok(PlatonicSolid::Dodecahedron, 4, 0));
    assert(row_distance((0int, 0int, 2int, 2int, 2int, 3int), (0int, 0int, 2int, 4int, 0int, 1int), ((30int, 0int), (42int, -24int), (42int, -24int))) == (120int, 0int)) by (nonlinear_arith);
    assert(row_distance((0int, 0int, 2int, 4int, 0int, 1int), (0int, 0int, 2int, 2int, 2int, 3int), ((30int, 0int), (42int, -24int), (42int, -24int))) == (120int, 0int)) by (nonlinear_arith);
    assert(side_ok(PlatonicSolid::Dodecahedron, 0, 5) && side_ok(PlatonicSolid::Dodecahedron, 5, 0));
    assert(row_distance((0int, 0int, 2int, 2int, 2int, 3int), (-1int, -1int, 1int, 1int, 0int, 1int), ((30int, 0int), (42int, -24int), (42int, -24int))) == (120int, 120int)) by (nonlinear_arith);
    assert(row_distance((-1int, -1int, 1int, 1int, 0int, 1int), (0int, 0int, 2int, 2int, 2int, 3int), ((30int, 0int), (42int, -24int), (42int, -24int))) == (120int, 120int)) by (nonlinear_arith);
    assert(side_ok(PlatonicSolid::Dodecahedron, 0, 6) && side_ok(PlatonicSolid::Dodecahedron, 6, 0));
    assert(row_distance((0int, 0int, 2int, 2int, 2int, 3int), (1int, 1int, 1int, 1int, 0int, 1int), ((30int, 0int), (42int, -24int), (42int, -24int))) == (120int, 120int)) by (nonlinear_arith);
    assert(row_distance((1int, 1int, 1int, 1int, 0int, 1int), (0int, 0int, 2int, 2int, 2int, 3int), ((30int, 0int), (42int, -24int), (42int, -24int))) == (120int, 120int)) by (nonlinear_arith);
    assert(side_ok(PlatonicSolid::Dodecahedron, 0, 7) && side_ok(PlatonicSolid::Dodecahedron, 7, 0));
    assert(row_distance((0int, 0int, 2int, 2int, 2int, 3int), (0int, -1int, 2int, 3int, 0int, -1int), ((30int, 0int), (42int, -24int), (42int, -24int))) == (120int, 120int)) by (nonlinear_arith);
    assert(row_distance((0int, -1int, 2int, 3int, 0int, -1int), (0int, 0int, 2int, 2int, 2int, 3int), ((30int, 0int), (42int, -24int), (42int, -24int))) == (120int, 120int)) by (nonlinear_arith);
    assert(side_ok(PlatonicSolid::Dodecahedron, 0, 10) && side_ok(PlatonicSolid::Dodecahedron, 10, 0));
    assert(row_distance((0int, 0int, 2int, 2int, 2int, 3int), (0int, 1int, 2int, 3int, 0int, -1int), ((30int, 0int), (42int, -24int), (42int, -24int))) == (120int, 120int)) by (nonlinear_arith);
    assert(row_distance((0int, 1int, 2int, 3int, 0int, -1int), (0int, 0int, 2int, 2int, 2int, 3int), ((30int, 0int), (42int, -24int), (42int, -24int))) == (120int, 120int)) by (nonlinear_arith);
    assert(side_ok(PlatonicSolid::Dodecahedron, 0, 11) && side_ok(PlatonicSolid::Dodecahedron, 11, 0));
    assert(row_distance((0int, -1int, 0int, 1int, 2int, 3int), (-1int, 0int, -1int, -2int, 2int, 3int), ((30int, 0int), (42int, -24int), (42int, -24int))) == (120int, 0int)) by (nonlinear_arith);
    assert(row_distance((-1int, 0int, -1int, -2int, 2int, 3int), (0int, -1int, 0int, 1int, 2int, 3int), ((30int, 0int), (42int, -24int), (42int, -24int))) == (120int, 0int)) by (nonlinear_arith);
    assert(side_ok(PlatonicSolid::Dodecahedron, 1, 3) && side_ok(PlatonicSolid::Dodecahedron, 3, 1));
    assert(row_distance((0int, -1int, 0int, 1int, 2int, 3int), (-1int, -1int, 1int, 1int, 0int, 1int), ((30int, 0int), (42int, -24int), (42int, -24int))) == (120int, 0int)) by (nonlinear_arith);
    assert(row_distance((-1int, -1int, 1int, 1int, 0int, 1int), (0int, -1int, 0int, 1int, 2int, 3int), ((30int, 0int), (42int, -24int), (42int, -24int))) == (120int, 0int)) by (nonlinear_arith);
    assert(side_ok(PlatonicSolid::Dodecahedron, 1, 6) && side_ok(PlatonicSolid::Dodecahedron, 6, 1));
    assert(row_distance((0int, -1int, 0int, 1int, 2int, 3int), (-1int, -1int, -1int, -1int, 0int, -1int), ((30int, 0int), (42int, -24int), (42int, -24int))) == (120int, 120int)) by (nonlinear_arith);
    assert(row_distance((-1int, -1int, -1int, -1int, 0int, -1int), (0int, -1int, 0int, 1int, 2int, 3int), ((30int, 0int), (42int, -24int), (42int, -24int))) == (120int, 120int)) by (nonlinear_arith);
    assert(side_ok(PlatonicSolid::Dodecahedron, 1, 12) && side_ok(PlatonicSolid::Dodecahedron, 12, 1));
    assert(row_distance((0int, 1int, 0int, 1int, 2int, 3int), (1int, 0int, -1int, -2int, 2int, 3int), ((30int, 0int), (42int, -24int), (42int, -24int))) == (120int, 0int)) by (nonlinear_arith);
    assert(row_distance((1int, 0int, -1int, -2int, 2int, 3int), (0int, 1int, 0int, 1int, 2int, 3int), ((30int, 0int), (42int, -24int), (42int, -24int))) == (120int, 0int)) by (nonlinear_arith);
    assert(side_ok(PlatonicSolid::Dodecahedron, 2, 4) && side_ok(PlatonicSolid::Dodecahedron, 4, 2));
    assert(row_distance((0int, 1int, 0int, 1int, 2int, 3int), (1int, 1int, 1int, 1int, 0int, 1int), ((30int, 0int), (42int, -24int), (42int, -24int))) == (120int, 0int)) by (nonlinear_arith);
    assert(row_distance((1int, 1int, 1int, 1int, 0int, 1int), (0int, 1int, 0int, 1int, 2int, 3int), ((30int, 0int), (42int, -24int), (42int, -24int))) == (120int, 0int)) by (nonlinear_arith);
    assert(side_ok(PlatonicSolid::Dodecahedron, 2, 7) && side_ok(PlatonicSolid::Dodecahedron, 7, 2));
    assert(row_distance((-1int, 0int, -1int, -2int, 2int, 3int), (1int, 0int, -1int, -2int, 2int, 3int), ((30int, 0int), (42int, -24int), (42int, -24int))) == (120int, 0int)) by (nonlinear_arith);
    assert(row_distance((1int, 0int, -1int, -2int, 2int, 3int), (-1int, 0int, -1int, -2int, 2int, 3int), ((30int, 0int), (42int, -24int), (42int, -24int))) == (120int, 0int)) by (nonlinear_arith);
    assert(side_ok(PlatonicSolid::Dodecahedron, 3, 4) && side_ok(PlatonicSolid::Dodecahedron, 4, 3));
    assert(row_distance((-1int, 0int, -1int, -2int, 2int, 3int), (0int, -1int, -2int, -3int, 0int, 1int), ((30int, 0int), (42int, -24int), (42int, -24int))) == (120int, 0int)) by (nonlinear_arith);
    assert(row_distance((0int, -1int, -2int, -3int, 0int, 1int), (-1int, 0int, -1int, -2int, 2int, 3int), ((30int, 0int), (42int, -24int), (42int, -24int))) == (120int, 0int)) by (nonlinear_arith);
    assert(side_ok(PlatonicSolid::Dodecahedron, 3, 8) && side_ok(PlatonicSolid::Dodecahedron, 8, 3));
    assert(row_distance((-1int, 0int, -1int, -2int, 2int, 3int), (-1int, -1int, -1int, -1int, 0int, -1int), ((30int, 0int), (42int, -24int), (42int, -24int))) == (120int, 120int)) by (nonlinear_arith);
    assert(row_distance((-1int, -1int, -1int, -1int, 0int, -1int), (-1int, 0int, -1int, -2int, 2int, 3int), ((30int, 0int), (42int, -24int), (42int, -24int))) == (120int, 120int)) by (nonlinear_arith);
    assert(side_ok(PlatonicSolid::Dodecahedron, 3, 12) && side_ok(PlatonicSolid::Dodecahedron, 12, 3));
    assert(row_distance((1int, 0int, -1int, -2int, 2int, 3int), (1int, 1int, 1int, 1int, 0int, 1int), ((30int, 0int), (42int, -24int), (42int, -24int))) == (120int, 120int)) by (nonlinear_arith);
    assert(row_distance((1int, 1int, 1int, 1int, 0int, 1int), (1int, 0int, -1int, -2int, 2int, 3int), ((30int, 0int), (42int, -24int), (42int, -24int))) == (120int, 120int)) by (nonlinear_arith);
    assert(side_ok(PlatonicSolid::Dodecahedron, 4, 7) && side_ok(PlatonicSolid::Dodecahedron, 7, 4));
    assert(row_distance((1int, 0int, -1int, -2int, 2int, 3int), (0int, -1int, -2int, -3int, 0int, 1int), ((30int, 0int), (42int, -24int), (42int, -24int))) == (120int, 120int)) by (nonlinear_arith);
    assert(row_distance((0int, -1int, -2int, -3int, 0int, 1int), (1int, 0int, -1int, -2int, 2int, 3int), ((30int, 0int), (42int, -24int), (42int, -24int))) == (120int, 120int)) by (nonlinear_arith);
    assert(side_ok(PlatonicSolid::Dodecahedron, 4, 8) && side_ok(PlatonicSolid::Dodecahedron, 8, 4));
    assert(row_distance((1int, 0int, -1int, -2int, 2int, 3int), (0int, 1int, -2int, -3int, 0int, 1int), ((30int, 0int), (42int, -24int), (42int, -24int))) == (120int, 0int)) by (nonlinear_arith);
    assert(row_distance((0int, 1int, -2int, -3int, 0int, 1int), (1int, 0int, -1int, -2int, 2int, 3int), ((30int, 0int), (42int, -24int), (42int, -24int))) == (120int, 0int)) by (nonlinear_arith);
    assert(side_ok(PlatonicSolid::Dodecahedron, 4, 9) && side_ok(PlatonicSolid::Dodecahedron, 9, 4));
    assert(row_distance((0int, 0int, 2int, 4int, 0int, 1int), (0int, -1int, 2int, 3int, 0int, -1int), ((30int, 0int), (42int, -24int), (42int, -24int))) == (120int, 0int)) by (nonlinear_arith);
    assert(row_distance((0int, -1int, 2int, 3int, 0int, -1int), (0int, 0int, 2int, 4int, 0int, 1int), ((30int, 0int), (42int, -24int), (42int, -24int))) == (120int, 0int)) by (nonlinear_arith);
    assert(side_ok(PlatonicSolid::Dodecahedron, 5, 10) && side_ok(PlatonicSolid::Dodecahedron, 10, 5));
    assert(row_distance((0int, 0int, 2int, 4int, 0int, 1int), (0int, 1int, 2int, 3int, 0int, -1int), ((30int, 0int), (42int, -24int), (42int, -24int))) == (120int, 0int)) by (nonlinear_arith);
    assert(row_distance((0int, 1int, 2int, 3int, 0int, -1int), (0int, 0int, 2int, 4int, 0int, 1int), ((30int, 0int), (42int, -24int), (42int, -24int))) == (120int, 0int)) by (nonlinear_arith);
    assert(side_ok(PlatonicSolid::Dodecahedron, 5, 11) && side_ok(PlatonicSolid::Dodecahedron, 11, 5));
    assert(row_distance((-1int, -1int, 1int, 1int, 0int, 1int), (0int, -1int, 2int, 3int, 0int, -1int), ((30int, 0int), (42int, -24int), (42int, -24int))) == (120int, 0int)) by (nonlinear_arith);
    assert(row_distance((0int, -1int, 2int, 3int, 0int, -1int), (-1int, -1int, 1int, 1int, 0int, 1int), ((30int, 0int), (42int, -24int), (42int, -24int))) == (120int, 0int)) by (nonlinear_arith);
    assert(side_ok(PlatonicSolid::Dodecahedron, 6, 10) && side_ok(PlatonicSolid::Dodecahedron, 10, 6));
    assert(row_distance((-1int, -1int, 1int, 1int, 0int, 1int), (-1int, -1int, -1int, -1int, 0int, -1int), ((30int, 0int), (42int, -24int), (42int, -24int))) == (120int, 0int)) by (nonlinear_arith);
    assert(row_distance((-1int, -1int, -1int, -1int, 0int, -1int), (-1int, -1int, 1int, 1int, 0int, 1int), ((30int, 0int), (42int, -24int), (42int, -24int))) == (120int, 0int)) by (nonlinear_arith);
    assert(side_ok(PlatonicSolid::Dodecahedron, 6, 12) && side_ok(PlatonicSolid::Dodecahedron, 12, 6));
    assert(row_distance((-1int, -1int, 1int, 1int, 0int, 1int), (-1int, 0int, 1int, 2int, -2int, -3int), ((30int, 0int), (42int, -24int), (42int, -24int))) == (120int, 120int)) by (nonlinear_arith);
    assert(row_distance((-1int, 0int, 1int, 2int, -2int, -3int), (-1int, -1int, 1int, 1int, 0int, 1int), ((30int, 0int), (42int, -24int), (42int, -24int))) == (120int, 120int)) by (nonlinear_arith);
    assert(side_ok(PlatonicSolid::Dodecahedron, 6, 15) && side_ok(PlatonicSolid::Dodecahedron, 15, 6));
    assert(row_distance((-1int, -1int, 1int, 1int, 0int, 1int), (0int, -1int, 0int, -1int, -2int, -3int), ((30int, 0int), (42int, -24int), (42int, -24int))) == (120int, 120int)) by (nonlinear_arith);
    assert(row_distance((0int, -1int, 0int, -1int, -2int, -3int), (-1int, -1int, 1int, 1int, 0int, 1int), ((30int, 0int), (42int, -24int), (42int, -24int))) == (120int, 120int)) by (nonlinear_arith);
    assert(side_ok(PlatonicSolid::Dodecahedron, 6, 17) && side_ok(PlatonicSolid::Dodecahedron, 17, 6));
    assert(row_distance((1int, 1int, 1int, 1int, 0int, 1int), (0int, 1int, -2int, -3int, 0int, 1int), ((30int, 0int), (42int, -24int), (42int, -24int))) == (120int, 120int)) by (nonlinear_arith);
    assert(row_distance((0int, 1int, -2int, -3int, 0int, 1int), (1int, 1int, 1int, 1int, 0int, 1int), ((30int, 0int), (42int, -24int), (42int, -24int))) == (120int, 120int)) by (nonlinear_arith);
    assert(side_ok(PlatonicSolid::Dodecahedron, 7, 9) && side_ok(PlatonicSolid::Dodecahedron, 9, 7));
    assert(row_distance((1int, 1int, 1int, 1int, 0int, 1int), (0int, 1int, 2int, 3int, 0int, -1int), ((30int, 0int), (42int, -24int), (42int, -24int))) == (120int, 0int)) by (nonlinear_arith);
    assert(row_distance((0int, 1int, 2int, 3int, 0int, -1int), (1int, 1int, 1int, 1int, 0int, 1int), ((30int, 0int), (42int, -24int), (42int, -24int))) == (120int, 0int)) by (nonlinear_arith);
    assert(side_ok(PlatonicSolid::Dodecahedron, 7, 11) && side_ok(PlatonicSolid::Dodecahedron, 11, 7));
    assert(row_distance((1int, 1int, 1int, 1int, 0int, 1int), (1int, 1int, -1int, -1int, 0int, -1int), ((30int, 0int), (42int, -24int), (42int, -24int))) == (120int, 0int)) by (nonlinear_arith);
    assert(row_distance((1int, 1int, -1int, -1int, 0int, -1int), (1int, 1int, 1int, 1int, 0int, 1int), ((30int, 0int), (42int, -24int), (42int, -24int))) == (120int, 0int)) by (nonlinear_arith);
    assert(side_ok(PlatonicSolid::Dodecahedron, 7, 13) && side_ok(PlatonicSolid::Dodecahedron, 13, 7));
    assert(row_distance((0int, -1int, -2int, -3int, 0int, 1int), (0int, 1int, -2int, -3int, 0int, 1int), ((30int, 0int), (42int, -24int), (42int, -24int))) == (120int, 120int)) by (nonlinear_arith);
    assert(row_distance((0int, 1int, -2int, -3int, 0int, 1int), (0int, -1int, -2int, -3int, 0int, 1int), ((30int, 0int), (42int, -24int), (42int, -24int))) == (120int, 120int)) by (nonlinear_arith);
    assert(side_ok(PlatonicSolid::Dodecahedron, 8, 9) && side_ok(PlatonicSolid::Dodecahedron, 9, 8));
    assert(row_distance((0int, -1int, -2int, -3int, 0int, 1int), (-1int, -1int, -1int, -1int, 0int, -1int), ((30int, 0int), (42int, -24int), (42int, -24int))) == (120int, 0int)) by (nonlinear_arith);
    assert(row_distance((-1int, -1int, -1int, -1int, 0int, -1int), (0int, -1int, -2int, -3int, 0int, 1int), ((30int, 0int), (42int, -24int), (42int, -24int))) == (120int, 0int)) by (nonlinear_arith);
    assert(side_ok(PlatonicSolid::Dodecahedron, 8, 12) && side_ok(PlatonicSolid::Dodecahedron, 12, 8));
    assert(row_distance((0int, -1int, -2int, -3int, 0int, 1int), (0int, 0int, -2int, -4int, 0int, -1int), ((30int, 0int), (42int, -24int), (42int, -24int))) == (120int, 0int)) by (nonlinear_arith);
    assert(row_distance((0int, 0int, -2int, -4int, 0int, -1int), (0int, -1int, -2int, -3int, 0int, 1int), ((30int, 0int), (42int, -24int), (42int, -24int))) == (120int, 0int)) by (nonlinear_arith);
    assert(side_ok(PlatonicSolid::Dodecahedron, 8, 14) && side_ok(PlatonicSolid::Dodecahedron, 14, 8));
    assert(row_distance((0int, -1int, -2int, -3int, 0int, 1int), (0int, 0int, -2int, -2int, -2int, -3int), ((30int, 0int), (42int, -24int), (42int, -24int))) == (120int, 120int)) by (nonlinear_arith);
    assert(row_distance((0int, 0int, -2int, -2int, -2int, -3int), (0int, -1int, -2int, -3int, 0int, 1int), ((30int, 0int), (42int, -24int), (42int, -24int))) == (120int, 120int)) by (nonlinear_arith);
    assert(side_ok(PlatonicSolid::Dodecahedron, 8, 19) && side_ok(PlatonicSolid::Dodecahedron, 19, 8));
    assert(row_distance((0int, 1int, -2int, -3int, 0int, 1int), (1int, 1int, -1int, -1int, 0int, -1int), ((30int, 0int), (42int, -24int), (42int, -24int))) == (120int, 0int)) by (nonlinear_arith);
    assert(row_distance((1int, 1int, -1int, -1int, 0int, -1int), (0int, 1int, -2int, -3int, 0int, 1int), ((30int, 0int), (42int, -24int), (42int, -24int))) == (120int, 0int)) by (nonlinear_arith);
    assert(side_ok(PlatonicSolid::Dodecahedron, 9, 13) && side_ok(PlatonicSolid::Dodecahedron, 13, 9));
    assert(row_distance((0int, 1int, -2int, -3int, 0int, 1int), (0int, 0int, -2int, -4int, 0int, -1int), ((30int, 0int), (42int, -24int), (42int, -24int))) == (120int, 0int)) by (nonlinear_arith);
    assert(row_distance((0int, 0int, -2int, -4int, 0int, -1int), (0int, 1int, -2int, -3int, 0int, 1int), ((30int, 0int), (42int, -24int), (42int, -24int))) == (120int, 0int)) by (nonlinear_arith);
    assert(side_ok(PlatonicSolid::Dodecahedron, 9, 14) && side_ok(PlatonicSolid::Dodecahedron, 14, 9));
    assert(row_distance((0int, 1int, -2int, -3int, 0int, 1int), (0int, 0int, -2int, -2int, -2int, -3int), ((30int, 0int), (42int, -24int), (42int, -24int))) == (120int, 120int)) by (nonlinear_arith);
    assert(row_distance((0int, 0int, -2int, -2int, -2int, -3int), (0int, 1int, -2int, -3int, 0int, 1int), ((30int, 0int), (42int, -24int), (42int, -24int))) == (120int, 120int)) by (nonlinear_arith);
    assert(side_ok(PlatonicSolid::Dodecahedron, 9, 19) && side_ok(PlatonicSolid::Dodecahedron, 19, 9));
    assert(row_distance((0int, -1int, 2int, 3int, 0int, -1int), (0int, 1int, 2int, 3int, 0int, -1int), ((30int, 0int), (42int, -24int), (42int, -24int))) == (120int, 120int)) by (nonlinear_arith);
    assert(row_distance((0int, 1int, 2int, 3int, 0int, -1int), (0int, -1int, 2int, 3int, 0int, -1int), ((30int, 0int), (42int, -24int), (42int, -24int))) == (120int, 120int)) by (nonlinear_arith);
    assert(side_ok(PlatonicSolid::Dodecahedron, 10, 11) && side_ok(PlatonicSolid::Dodecahedron, 11, 10));
    assert(row_distance((0int, -1int, 2int, 3int, 0int, -1int), (-1int, 0int, 1int, 2int, -2int, -3int), ((30int, 0int), (42int, -24int), (42int, -24int))) == (120int, 0int)) by (nonlinear_arith);
    assert(row_distance((-1int, 0int, 1int, 2int, -2int, -3int), (0int, -1int, 2int, 3int, 0int, -1int), ((30int, 0int), (42int, -24int), (42int, -24int))) == (120int, 0int)) by (nonlinear_arith);
    assert(side_ok(PlatonicSolid::Dodecahedron, 10, 15) && side_ok(PlatonicSolid::Dodecahedron, 15, 10));
    assert(row_distance((0int, -1int, 2int, 3int, 0int, -1int), (1int, 0int, 1int, 2int, -2int, -3int), ((30int, 0int), (42int, -24int), (42int, -24int))) == (120int, 120int)) by (nonlinear_arith);
    assert(row_distance((1int, 0int, 1int, 2int, -2int, -3int), (0int, -1int, 2int, 3int, 0int, -1int), ((30int, 0int), (42int, -24int), (42int, -24int))) == (120int, 120int)) by (nonlinear_arith);
    assert(side_ok(PlatonicSolid::Dodecahedron, 10, 16) && side_ok(PlatonicSolid::Dodecahedron, 16, 10));
    assert(row_distance((0int, 1int, 2int, 3int, 0int, -1int), (1int, 1int, -1int, -1int, 0int, -1int), ((30int, 0int), (42int, -24int), (42int, -24int))) == (120int, 120int)) by (nonlinear_arith);
    assert(row_distance((1int, 1int, -1int, -1int, 0int, -1int), (0int, 1int, 2int, 3int, 0int, -1int), ((30int, 0int), (42int, -24int), (42int, -24int))) == (120int, 120int)) by (nonlinear_arith);
    assert(side_ok(PlatonicSolid::Dodecahedron, 11, 13) && side_ok(PlatonicSolid::Dodecahedron, 13, 11));
    assert(row_distance((0int, 1int, 2int, 3int, 0int, -1int), (1int, 0int, 1int, 2int, -2int, -3int), ((30int, 0int), (42int, -24int), (42int, -24int))) == (120int, 0int)) by (nonlinear_arith);
    assert(row_distance((1int, 0int, 1int, 2int, -2int, -3int), (0int, 1int, 2int, 3int, 0int, -1int), ((30int, 0int), (42int, -24int), (42int, -24int))) == (120int, 0int)) by (nonlinear_arith);
    assert(side_ok(PlatonicSolid::Dodecahedron, 11, 16) && side_ok(PlatonicSolid::Dodecahedron, 16, 11));
    assert(row_distance((-1int, -1int, -1int, -1int, 0int, -1int), (0int, -1int, 0int, -1int, -2int, -3int), ((30int, 0int), (42int, -24int), (42int, -24int))) == (120int, 0int)) by (nonlinear_arith);
    assert(row_distance((0int, -1int, 0int, -1int, -2int, -3int), (-1int, -1int, -1int, -1int, 0int, -1int), ((30int, 0int), (42int, -24int), (42int, -24int))) == (120int, 0int)) by (nonlinear_arith);
    assert(side_ok(PlatonicSolid::Dodecahedron, 12, 17) && side_ok(PlatonicSolid::Dodecahedron, 17, 12));
    assert(row_distance((-1int, -1int, -1int, -1int, 0int, -1int), (0int, 0int, -2int, -2int, -2int, -3int), ((30int, 0int), (42int, -24int), (42int, -24int))) == (120int, 120int)) by (nonlinear_arith);
    assert(row_distance((0int, 0int, -2int, -2int, -2int, -3int), (-1int, -1int, -1int, -1int, 0int, -1int), ((30int, 0int), (42int, -24int), (42int, -24int))) == (120int, 120int)) by (nonlinear_arith);
    assert(side_ok(PlatonicSolid::Dodecahedron, 12, 19) && side_ok(PlatonicSolid::Dodecahedron, 19, 12));
    assert(row_distance((1int, 1int, -1int, -1int, 0int, -1int), (1int, 0int, 1int, 2int, -2int, -3int), ((30int, 0int), (42int, -24int), (42int, -24int))) == (120int, 120int)) by (nonlinear_arith);
    assert(row_distance((1int, 0int, 1int, 2int, -2int, -3int), (1int, 1int, -1int, -1int, 0int, -1int), ((30int, 0int), (42int, -24int), (42int, -24int))) == (120int, 120int)) by (nonlinear_arith);
    assert(side_ok(PlatonicSolid::Dodecahedron, 13, 16) && side_ok(PlatonicSolid::Dodecahedron, 16, 13));
    assert(row_distance((1int, 1int, -1int, -1int, 0int, -1int), (0int, 1int, 0int, -1int, -2int, -3int), ((30int, 0int), (42int, -24int), (42int, -24int))) == (120int, 0int)) by (nonlinear_arith);
    assert(row_distance((0int, 1int, 0int, -1int, -2int, -3int), (1int, 1int, -1int, -1int, 0int, -1int), ((30int, 0int), (42int, -24int), (42int, -24int))) == (120int, 0int)) by (nonlinear_arith);
    assert(side_ok(PlatonicSolid::Dodecahedron, 13, 18) && side_ok(PlatonicSolid::Dodecahedron, 18, 13));
    assert(row_distance((1int, 1int, -1int, -1int, 0int, -1int), (0int, 0int, -2int, -2int, -2int, -3int), ((30int, 0int), (42int, -24int), (42int, -24int))) == (120int, 120int)) by (nonlinear_arith);
    assert(row_distance((0int, 0int, -2int, -2int, -2int, -3int), (1int, 1int, -1int, -1int, 0int, -1int), ((30int, 0int), (42int, -24int), (42int, -24int))) == (120int, 120int)) by (nonlinear_arith);
    assert(side_ok(PlatonicSolid::Dodecahedron, 13, 19) && side_ok(PlatonicSolid::Dodecahedron, 19, 13));
    assert(row_distance((0int, 0int, -2int, -4int, 0int, -1int), (0int, 0int, -2int, -2int, -2int, -3int), ((30int, 0int), (42int, -24int), (42int, -24int))) == (120int, 0int)) by (nonlinear_arith);
    assert(row_distance((0int, 0int, -2int, -2int, -2int, -3int), (0int, 0int, -2int, -4int, 0int, -1int), ((30int, 0int), (42int, -24int), (42int, -24int))) == (120int, 0int)) by (nonlinear_arith);
    assert(side_ok(PlatonicSolid::Dodecahedron, 14, 19) && side_ok(PlatonicSolid::Dodecahedron, 19, 14));
    assert(row_distance((-1int, 0int, 1int, 2int, -2int, -3int), (1int, 0int, 1int, 2int, -2int, -3int), ((30int, 0int), (42int, -24int), (42int, -24int))) == (120int, 0int)) by (nonlinear_arith);
    assert(row_distance((1int, 0int, 1int, 2int, -2int, -3int), (-1int, 0int, 1int, 2int, -2int, -3int), ((30int, 0int), (42int, -24int), (42int, -24int))) == (120int, 0int)) by (nonlinear_arith);
    assert(side_ok(PlatonicSolid::Dodecahedron, 15, 16) && side_ok(PlatonicSolid::Dodecahedron, 16, 15));
    assert(row_distance((-1int, 0int, 1int, 2int, -2int, -3int), (0int, -1int, 0int, -1int, -2int, -3int), ((30int, 0int), (42int, -24int), (42int, -24int))) == (120int, 0int)) by (nonlinear_arith);
    assert(row_distance((0int, -1int, 0int, -1int, -2int, -3int), (-1int, 0int, 1int, 2int, -2int, -3int), ((30int, 0int), (42int, -24int), (42int, -24int))) == (120int, 0int)) by (nonlinear_arith);
    assert(side_ok(PlatonicSolid::Dodecahedron, 15, 17) && side_ok(PlatonicSolid::Dodecahedron, 17, 15));
    assert(row_distance((-1int, 0int, 1int, 2int, -2int, -3int), (0int, 0int, -2int, -2int, -2int, -3int), ((30int, 0int), (42int, -24int), (42int, -24int))) == (120int, 120int)) by (nonlinear_arith);
    assert(row_distance((0int, 0int, -2int, -2int, -2int, -3int), (-1int, 0int, 1int, 2int, -2int, -3int), ((30int, 0int), (42int, -24int), (42int, -24int))) == (120int, 120int)) by (nonlinear_arith);
    assert(side_ok(PlatonicSolid::Dodecahedron, 15, 19) && side_ok(PlatonicSolid::Dodecahedron, 19, 15));
    assert(row_distance((1int, 0int, 1int, 2int, -2int, -3int), (0int, 1int, 0int, -1int, -2int, -3int), ((30int, 0int), (42int, -24int), (42int, -24int))) == (120int, 0int)) by (nonlinear_arith);
    assert(row_distance((0int, 1int, 0int, -1int, -2int, -3int), (1int, 0int, 1int, 2int, -2int, -3int), ((30int, 0int), (42int, -24int), (42int, -24int))) == (120int, 0int)) by (nonlinear_arith);
    assert(side_ok(PlatonicSolid::Dodecahedron, 16, 18) && side_ok(PlatonicSolid::Dodecahedron, 18, 16));
    assert(row_distance((1int, 0int, 1int, 2int, -2int, -3int), (0int, 0int, -2int, -2int, -2int, -3int), ((30int, 0int), (42int, -24int), (42int, -24int))) == (120int, 120int)) by (nonlinear_arith);
    assert(row_distance((0int, 0int, -2int, -2int, -2int, -3int), (1int, 0int, 1int, 2int, -2int, -3int), ((30int, 0int), (42int, -24int), (42int, -24int))) == (120int, 120int)) by (nonlinear_arith);
    assert(side_ok(PlatonicSolid::Dodecahedron, 16, 19) && side_ok(PlatonicSolid::Dodecahedron, 19, 16));
    assert(row_distance((0int, -1int, 0int, -1int, -2int, -3int), (0int, 0int, -2int, -2int, -2int, -3int), ((30int, 0int), (42int, -24int), (42int, -24int))) == (120int, 0int)) by (nonlinear_arith);
    assert(row_distance((0int, 0int, -2int, -2int, -2int, -3int), (0int, -1int, 0int, -1int, -2int, -3int), ((30int, 0int), (42int, -24int), (42int, -24int))) == (120int, 0int)) by (nonlinear_arith);
    assert(side_ok(PlatonicSolid::Dodecahedron, 17, 19) && side_ok(PlatonicSolid::Dodecahedron, 19, 17));
    assert(row_distance((0int, 1int, 0int, -1int, -2int, -3int), (0int, 0int, -2int, -2int, -2int, -3int), ((30int, 0int), (42int, -24int), (42int, -24int))) == (120int, 0int)) by (nonlinear_arith);
    assert(row_distance((0int, 0int, -2int, -2int, -2int, -3int), (0int, 1int, 0int, -1int, -2int, -3int), ((30int, 0int), (42int, -24int), (42int, -24int))) == (120int, 0int)) by (nonlinear_arith);
    assert(side_ok(PlatonicSolid::Dodecahedron, 18, 19) && side_ok(PlatonicSolid::Dodecahedron, 19, 18));
    assert(PlatonicSolid::Dodecahedron.strip_entry(0, 0) == 1 && PlatonicSolid::Dodecahedron.strip_entry(0, 1) == 3 && PlatonicSolid::Dodecahedron.strip_entry(0, 2) == 0);
    assert(triangle_ok(PlatonicSolid::Dodecahedron, 0, 0));
    assert(PlatonicSolid::Dodecahedron.strip_entry(0, 1) == 3 && PlatonicSolid::Dodecahedron.strip_entry(0, 2) == 0 && PlatonicSolid::Dodecahedron.strip_entry(0, 3) == 4);
    assert(triangle_ok(PlatonicSolid::Dodecahedron, 0, 1));
    assert(PlatonicSolid::Dodecahedron.strip_entry(0, 2) == 0 && PlatonicSolid::Dodecahedron.strip_entry(0, 3) == 4 && PlatonicSolid::Dodecahedron.strip_entry(0, 4) == 2);
    assert(triangle_ok(PlatonicSolid::Dodecahedron, 0, 2));
    assert(PlatonicSolid::Dodecahedron.strip_entry(0, 3) == 4 && PlatonicSolid::Dodecahedron.strip_entry(0, 4) == 2 && PlatonicSolid::Dodecahedron.strip_entry(0, 5) == 7);
    assert(triangle_ok(PlatonicSolid::Dodecahedron, 0, 3));
    assert(PlatonicSolid::Dodecahedron.strip_entry(0, 4) == 2 && PlatonicSolid::Dodecahedron.strip_entry(0, 5) == 7 && PlatonicSolid::Dodecahedron.strip_entry(0, 6) == 0);
    assert(triangle_ok(PlatonicSolid::Dodecahedron, 0, 4));
    assert(PlatonicSolid::Dodecahedron.strip_entry(0, 5) == 7 && PlatonicSolid::Dodecahedron.strip_entry(0, 6) == 0 && PlatonicSolid::Dodecahedron.strip_entry(0, 7) == 11);
    assert(triangle_ok(PlatonicSolid::Dodecahedron, 0, 5));
    assert(PlatonicSolid::Dodecahedron.strip_entry(0, 6) == 0 && PlatonicSolid::Dodecahedron.strip_entry(0, 7) == 11 && PlatonicSolid::Dodecahedron.strip_entry(0, 8) == 5);
    assert(triangle_ok(PlatonicSolid::Dodecahedron, 0, 6));
    assert(PlatonicSolid::Dodecahedron.strip_entry(0, 7) == 11 && PlatonicSolid::Dodecahedron.strip_entry(0, 8) == 5 && PlatonicSolid::Dodecahedron.strip_entry(0, 9) == 10);
    assert(triangle_ok(PlatonicSolid::Dodecahedron, 0, 7));
    assert(PlatonicSolid::Dodecahedron.strip_entry(0, 8) == 5 && PlatonicSolid::Dodecahedron.strip_entry(0, 9) == 10 && PlatonicSolid::Dodecahedron.strip_entry(0, 10) == 0);
    assert(triangle_ok(PlatonicSolid::Dodecahedron, 0, 8));
    assert(PlatonicSolid::Dodecahedron.strip_entry(0, 9) == 10 && PlatonicSolid::Dodecahedron.strip_entry(0, 10) == 0 && PlatonicSolid::Dodecahedron.strip_entry(0, 11) == 6);
    assert(triangle_ok(PlatonicSolid::Dodecahedron, 0, 9));
    assert(PlatonicSolid::Dodecahedron.strip_entry(0, 10) == 0 && PlatonicSolid::Dodecahedron.strip_entry(0, 11) == 6 && PlatonicSolid::Dodecahedron.strip_entry(0, 12) == 1);
    assert(triangle_ok(PlatonicSolid::Dodecahedron, 0, 10));
    assert(PlatonicSolid::Dodecahedron.strip_entry(0, 11) == 6 && PlatonicSolid::Dodecahedron.strip_entry(0, 12) == 1 && PlatonicSolid::Dodecahedron.strip_entry(0, 13) == 12);
    assert(triangle_ok(PlatonicSolid::Dodecahedron, 0, 11));
    assert(PlatonicSolid::Dodecahedron.strip_entry(0, 12) == 1 && PlatonicSolid::Dodecahedron.strip_entry(0, 13) == 12 && PlatonicSolid::Dodecahedron.strip_entry(0, 14) == 3);
    assert(triangle_ok(PlatonicSolid::Dodecahedron, 0, 12));
    assert(PlatonicSolid::Dodecahedron.strip_entry(0, 13) == 12 && PlatonicSolid::Dodecahedron.strip_entry(0, 14) == 3 && PlatonicSolid::Dodecahedron.strip_entry(0, 15) == 8);
    assert(triangle_ok(PlatonicSolid::Dodecahedron, 0, 13));
    assert(PlatonicSolid::Dodecahedron.strip_entry(0, 14) == 3 && PlatonicSolid::Dodecahedron.strip_entry(0, 15) == 8 && PlatonicSolid::Dodecahedron.strip_entry(0, 16) == 4);
    assert(triangle_ok(PlatonicSolid::Dodecahedron, 0, 14));
    assert(PlatonicSolid::Dodecahedron.strip_entry(0, 15) == 8 && PlatonicSolid::Dodecahedron.strip_entry(0, 16) == 4 && PlatonicSolid::Dodecahedron.strip_entry(0, 17) == 9);
    assert(triangle_ok(PlatonicSolid::Dodecahedron, 0, 15));
    assert(PlatonicSolid::Dodecahedron.strip_entry(0, 16) == 4 && PlatonicSolid::Dodecahedron.strip_entry(0, 17) == 9 && PlatonicSolid::Dodecahedron.strip_entry(0, 18) == 7);
    assert(triangle_ok(PlatonicSolid::Dodecahedron, 0, 16));
    assert(PlatonicSolid::Dodecahedron.strip_entry(0, 17) == 9 && PlatonicSolid::Dodecahedron.strip_entry(0, 18) == 7 && PlatonicSolid::Dodecahedron.strip_entry(0, 19) == 13);
    assert(triangle_ok(PlatonicSolid::Dodecahedron, 0, 17));
    assert(PlatonicSolid::Dodecahedron.strip_entry(0, 18) == 7 && PlatonicSolid::Dodecahedron.strip_entry(0, 19) == 13 && PlatonicSolid::Dodecahedron.strip_entry(0, 20) == 11);
    assert(triangle_ok(PlatonicSolid::Dodecahedron, 0, 18));
    assert(PlatonicSolid::Dodecahedron.strip_entry(0, 19) == 13 && PlatonicSolid::Dodecahedron.strip_entry(0, 20) == 11 && PlatonicSolid::Dodecahedron.strip_entry(0, 21) == 16);
    assert(triangle_ok(PlatonicSolid::Dodecahedron, 0, 19));
    assert(PlatonicSolid::Dodecahedron.strip_entry(0, 20) == 11 && PlatonicSolid::Dodecahedron.strip_entry(0, 21) == 16 && PlatonicSolid::Dodecahedron.strip_entry(0, 22) == 10);
    assert(triangle_ok(PlatonicSolid::Dodecahedron, 0, 20));
    assert(PlatonicSolid::Dodecahedron.strip_entry(0, 21) == 16 && PlatonicSolid::Dodecahedron.strip_entry(0, 22) == 10 && PlatonicSolid::Dodecahedron.strip_entry(0, 23) == 15);
    assert(triangle_ok(PlatonicSolid::Dodecahedron, 0, 21));
    assert(PlatonicSolid::Dodecahedron.strip_entry(0, 22) == 10 && PlatonicSolid::Dodecahedron.strip_entry(0, 23) == 15 && PlatonicSolid::Dodecahedron.strip_entry(0, 24) == 6);
    assert(triangle_ok(PlatonicSolid::Dodecahedron, 0, 22));
    assert(PlatonicSolid::Dodecahedron.strip_entry(0, 23) == 15 && PlatonicSolid::Dodecahedron.strip_entry(0, 24) == 6 && PlatonicSolid::Dodecahedron.strip_entry(0, 25) == 17);
    assert(triangle_ok(PlatonicSolid::Dodecahedron, 0, 23));
    assert(PlatonicSolid::Dodecahedron.strip_entry(0, 24) == 6 && PlatonicSolid::Dodecahedron.strip_entry(0, 25) == 17 && PlatonicSolid::Dodecahedron.strip_entry(0, 26) == 12);
    assert(triangle_ok(PlatonicSolid::Dodecahedron, 0, 24));
    assert(PlatonicSolid::Dodecahedron.strip_entry(0, 25) == 17 && PlatonicSolid::Dodecahedron.strip_entry(0, 26) == 12 && PlatonicSolid::Dodecahedron.strip_entry(0, 27) == 19);
    assert(triangle_ok(PlatonicSolid::Dodecahedron, 0, 25));
    assert(PlatonicSolid::Dodecahedron.strip_entry(0, 26) == 12 && PlatonicSolid::Dodecahedron.strip_entry(0, 27) == 19 && PlatonicSolid::Dodecahedron.strip_entry(0, 28) == 8);
    assert(triangle_ok(PlatonicSolid::Dodecahedron, 0, 26));
    assert(PlatonicSolid::Dodecahedron.strip_entry(0, 27) == 19 && PlatonicSolid::Dodecahedron.strip_entry(0, 28) == 8 && PlatonicSolid::Dodecahedron.strip_entry(0, 29) == 14);
    assert(triangle_ok(PlatonicSolid::Dodecahedron, 0, 27));
    assert(PlatonicSolid::Dodecahedron.strip_entry(0, 28) == 8 && PlatonicSolid::Dodecahedron.strip_entry(0, 29) == 14 && PlatonicSolid::Dodecahedron.strip_entry(0, 30) == 9);
    assert(triangle_ok(PlatonicSolid::Dodecahedron, 0, 28));
    assert(PlatonicSolid::Dodecahedron.strip_entry(0, 29) == 14 && PlatonicSolid::Dodecahedron.strip_entry(0, 30) == 9 && PlatonicSolid::Dodecahedron.strip_entry(0, 31) == 19);
    assert(triangle_ok(PlatonicSolid::Dodecahedron, 0, 29));
    assert(PlatonicSolid::Dodecahedron.strip_entry(0, 30) == 9 && PlatonicSolid::Dodecahedron.strip_entry(0, 31) == 19 && PlatonicSolid::Dodecahedron.strip_entry(0, 32) == 13);
    assert(triangle_ok(PlatonicSolid::Dodecahedron, 0, 30));
    assert(PlatonicSolid::Dodecahedron.strip_entry(0, 31) == 19 && PlatonicSolid::Dodecahedron.strip_entry(0, 32) == 13 && PlatonicSolid::Dodecahedron.strip_entry(0, 33) == 18);
    assert(triangle_ok(PlatonicSolid::Dodecahedron, 0, 31));
    assert(PlatonicSolid::Dodecahedron.strip_entry(0, 32) == 13 && PlatonicSolid::Dodecahedron.strip_entry(0, 33) == 18 && PlatonicSolid::Dodecahedron.strip_entry(0, 34) == 16);
    assert(triangle_ok(PlatonicSolid::Dodecahedron, 0, 32));
    assert(PlatonicSolid::Dodecahedron.strip_entry(0, 33) == 18 && PlatonicSolid::Dodecahedron.strip_entry(0, 34) == 16 && PlatonicSolid::Dodecahedron.strip_entry(0, 35) == 19);
    assert(triangle_ok(PlatonicSolid::Dodecahedron, 0, 33));
    assert(PlatonicSolid::Dodecahedron.strip_entry(0, 34) == 16 && PlatonicSolid::Dodecahedron.strip_entry(0, 35) == 19 && PlatonicSolid::Dodecahedron.strip_entry(0, 36) == 15);
    assert(triangle_ok(PlatonicSolid::Dodecahedron, 0, 34));
    assert(PlatonicSolid::Dodecahedron.strip_entry(0, 35) == 19 && PlatonicSolid::Dodecahedron.strip_entry(0, 36) == 15 && PlatonicSolid::Dodecahedron.strip_entry(0, 37) == 17);
    assert(triangle_ok(PlatonicSolid::Dodecahedron, 0, 35));
    assert forall|k: int, j: int|
        0 <= k < PlatonicSolid::Dodecahedron.strip_count() && 0 <= j && j + 2 < PlatonicSolid::Dodecahedron.strip_len(k)
        implies #[trigger] triangle_ok(PlatonicSolid::Dodecahedron, k, j) by {
        if k == 0 {
            if j == 0 {} else if j == 1 {} else if j == 2 {} else if j == 3 {} else if j == 4 {} else if j == 5 {} else if j == 6 {} else if j == 7 {} else if j == 8 {} else if j == 9 {} else if j == 10 {} else if j == 11 {} else if j == 12 {} else if j == 13 {} else if j == 14 {} else if j == 15 {} else if j == 16 {} else if j == 17 {} else if j == 18 {} else if j == 19 {} else if j == 20 {} else if j == 21 {} else if j == 22 {} else if j == 23 {} else if j == 24 {} else if j == 25 {} else if j == 26 {} else if j == 27 {} else if j == 28 {} else if j == 29 {} else if j == 30 {} else if j == 31 {} else if j == 32 {} else if j == 33 {} else if j == 34 {} else if j == 35 {}
        }
    }
}

#[verifier::spinoff_prover]
#[verifier::rlimit(100)]
pub(crate) proof fn lemma_icosahedron_strip_sides()
    ensures
        forall|k: int, j: int|
            0 <= k < PlatonicSolid::Icosahedron.strip_count() && 0 <= j && j + 2 < PlatonicSolid::Icosahedron.strip_len(k)
                ==> #[trigger] triangle_ok(PlatonicSolid::Icosahedron, k, j),
{
    let s: ((int, int), (int, int), (int, int)) = ((30int, 0int), (12int, 6int), (42int, -24int));
    assert(PlatonicSolid::Icosahedron.scale_ints() == s);
    assert(PlatonicSolid::Icosahedron.model_row(0) == (0int, 0int, -1int, 2int, 0int, 0int));
    assert(PlatonicSolid::Icosahedron.model_row(1) == (0int, 0int, 1int, 0int, -2int, -2int));
    assert(PlatonicSolid::Icosahedron.model_row(2) == (0int, -1int, 1int, 0int, 0int, -1int));
    assert(PlatonicSolid::Icosahedron.model_row(3) == (0int, 1int, 1int, 0int, 0int, -1int));
    assert(PlatonicSolid::Icosahedron.model_row(4) == (-1int, 0int, 1int, 0int, 1int, 2int));
    assert(PlatonicSolid::Icosahedron.model_row(5) == (1int, 0int, 1int, 0int, 1int, 2int));
    assert(PlatonicSolid::Icosahedron.model_row(6) == (-1int, 0int, -1int, 0int, -1int, -2int));
    assert(PlatonicSolid::Icosahedron.model_row(7) == (1int, 0int, -1int, 0int, -1int, -2int));
    assert(PlatonicSolid::Icosahedron.model_row(8) == (0int, -1int, -1int, 0int, 0int, 1int));
    assert(PlatonicSolid::Icosahedron.model_row(9) == (0int, 1int, -1int, 0int, 0int, 1int));
    assert(PlatonicSolid::Icosahedron.model_row(10) == (0int, 0int, -1int, 0int, 2int, 2int));
    assert(PlatonicSolid::Icosahedron.model_row(11) == (0int, 0int, 1int, -2int, 0int, 0int));
    assert(row_distance((0int, 0int, -1int, 2int, 0int, 0int), (0int, 0int, 1int, 0int, -2int, -2int), ((30int, 0int), (12int, 6int), (42int, -24int))) == (120int, 0int)) by (nonlinear_arith);
    assert(row_distance((0int, 0int, 1int, 0int, -2int, -2int), (0int, 0int, -1int, 2int, 0int, 0int), ((30int, 0int), (12int, 6int), (42int, -24int))) == (120int, 0int)) by (nonlinear_arith);
    assert(side_ok(PlatonicSolid::Icosahedron, 0, 1) && side_ok(PlatonicSolid::Icosahedron, 1, 0));
    assert(row_distance((0int, 0int, -1int, 2int, 0int, 0int), (0int, -1int, 1int, 0int, 0int, -1int), ((30int, 0int), (12int, 6int), (42int, -24int))) == (120int, 0int)) by (nonlinear_arith);
    assert(row_distance((0int, -1int, 1int, 0int, 0int, -1int), (0int, 0int, -1int, 2int, 0int, 0int), ((30int, 0int), (12int, 6int), (42int, -24int))) == (120int, 0int)) by (nonlinear_arith);
    assert(side_ok(PlatonicSolid::Icosahedron, 0, 2) && side_ok(PlatonicSolid::Icosahedron, 2, 0));
    assert(row_distance((0int, 0int, -1int, 2int, 0int, 0int), (0int, 1int, 1int, 0int, 0int, -1int), ((30int, 0int), (12int, 6int), (42int, -24int))) == (120int, 0int)) by (nonlinear_arith);
    assert(row_distance((0int, 1int, 1int, 0int, 0int, -1int), (0int, 0int, -1int, 2int, 0int, 0int), ((30int, 0int), (12int, 6int), (42int, -24int))) == (120int, 0int)) by (nonlinear_arith);
    assert(side_ok(PlatonicSolid::Icosahedron, 0, 3) && side_ok(PlatonicSolid::Icosahedron, 3, 0));
    assert(row_distance((0int, 0int, -1int, 2int, 0int, 0int), (-1int, 0int, 1int, 0int, 1int, 2int), ((30int, 0int), (12int, 6int), (42int, -24int))) == (120int, 0int)) by (nonlinear_arith);
    assert(row_distance((-1int, 0int, 1int, 0int, 1int, 2int), (0int, 0int, -1int, 2int, 0int, 0int), ((30int, 0int), (12int, 6int), (42int, -24int))) == (120int, 0int)) by (nonlinear_arith);
    assert(side_ok(PlatonicSolid::Icosahedron, 0, 4) && side_ok(PlatonicSolid::Icosahedron, 4, 0));
    assert(row_distance((0int, 0int, -1int, 2int, 0int, 0int), (1int, 0int, 1int, 0int, 1int, 2int), ((30int, 0int), (12int, 6int), (42int, -24int))) == (120int, 0int)) by (nonlinear_arith);
    assert(row_distance((1int, 0int, 1int, 0int, 1int, 2int), (0int, 0int, -1int, 2int, 0int, 0int), ((30int, 0int), (12int, 6int), (42int, -24int))) == (120int, 0int)) by (nonlinear_arith);
    assert(side_ok(PlatonicSolid::Icosahedron, 0, 5) && side_ok(PlatonicSolid::Icosahedron, 5, 0));
    assert(row_distance((0int, 0int, 1int, 0int, -2int, -2int), (0int, -1int, 1int, 0int, 0int, -1int), ((30int, 0int), (12int, 6int), (42int, -24int))) == (120int, 0int)) by (nonlinear_arith);
    assert(row_distance((0int, -1int, 1int, 0int, 0int, -1int), (0int, 0int, 1int, 0int, -2int, -2int), ((30int, 0int), (12int, 6int), (42int, -24int))) == (120int, 0int)) by (nonlinear_arith);
    assert(side_ok(PlatonicSolid::Icosahedron, 1, 2) && side_ok(PlatonicSolid::Icosahedron, 2, 1));
    assert(row_distance((0int, 0int, 1int, 0int, -2int, -2int), (0int, 1int, 1int, 0int, 0int, -1int), ((30int, 0int), (12int, 6int), (42int, -24int))) == (120int, 0int)) by (nonlinear_arith);
    assert(row_distance((0int, 1int, 1int, 0int, 0int, -1int), (0int, 0int, 1int, 0int, -2int, -2int), ((30int, 0int), (12int, 6int), (42int, -24int))) == (120int, 0int)) by (nonlinear_arith);
    assert(side_ok(PlatonicSolid::Icosahedron, 1, 3) && side_ok(PlatonicSolid::Icosahedron, 3, 1));
    assert(row_distance((0int, 0int, 1int, 0int, -2int, -2int), (-1int, 0int, -1int, 0int, -1int, -2int), ((30int, 0int), (12int, 6int), (42int, -24int))) == (120int, 0int)) by (nonlinear_arith);
    assert(row_distance((-1int, 0int, -1int, 0int, -1int, -2int), (0int, 0int, 1int, 0int, -2int, -2int), ((30int, 0int), (12int, 6int), (42int, -24int))) == (120int, 0int)) by (nonlinear_arith);
    assert(side_ok(PlatonicSolid::Icosahedron, 1, 6) && side_ok(PlatonicSolid::Icosahedron, 6, 1));
    assert(row_distance((0int, 0int, 1int, 0int, -2int, -2int), (1int, 0int, -1int, 0int, -1int, -2int), ((30int, 0int), (12int, 6int), (42int, -24int))) == (120int, 0int)) by (nonlinear_arith);
    assert(row_distance((1int, 0int, -1int, 0int, -1int, -2int), (0int, 0int, 1int, 0int, -2int, -2int), ((30int, 0int), (12int, 6int), (42int, -24int))) == (120int, 0int)) by (nonlinear_arith);
    assert(side_ok(PlatonicSolid::Icosahedron, 1, 7) && side_ok(PlatonicSolid::Icosahedron, 7, 1));
    assert(row_distance((0int, -1int, 1int, 0int, 0int, -1int), (-1int, 0int, 1int, 0int, 1int, 2int), ((30int, 0int), (12int, 6int), (42int, -24int))) == (120int, 0int)) by (nonlinear_arith);
    assert(row_distance((-1int, 0int, 1int, 0int, 1int, 2int), (0int, -1int, 1int, 0int, 0int, -1int), ((30int, 0int), (12int, 6int), (42int, -24int))) == (120int, 0int)) by (nonlinear_arith);
    assert(side_ok(PlatonicSolid::Icosahedron, 2, 4) && side_ok(PlatonicSolid::Icosahedron, 4, 2));
    assert(row_distance((0int, -1int, 1int, 0int, 0int, -1int), (-1int, 0int, -1int, 0int, -1int, -2int), ((30int, 0int), (12int, 6int), (42int, -24int))) == (120int, 0int)) by (nonlinear_arith);
    assert(row_distance((-1int, 0int, -1int, 0int, -1int, -2int), (0int, -1int, 1int, 0int, 0int, -1int), ((30int, 0int), (12int, 6int), (42int, -24int))) == (120int, 0int)) by (nonlinear_arith);
    assert(side_ok(PlatonicSolid::Icosahedron, 2, 6) && side_ok(PlatonicSolid::Icosahedron, 6, 2));
    assert(row_distance((0int, -1int, 1int, 0int, 0int, -1int), (0int, -1int, -1int, 0int, 0int, 1int), ((30int, 0int), (12int, 6int), (42int, -24int))) == (120int, 0int)) by (nonlinear_arith);
    assert(row_distance((0int, -1int, -1int, 0int, 0int, 1int), (0int, -1int, 1int, 0int, 0int, -1int), ((30int, 0int), (12int, 6int), (42int, -24int))) == (120int, 0int)) by (nonlinear_arith);
    assert(side_ok(PlatonicSolid::Icosahedron, 2, 8) && side_ok(PlatonicSolid::Icosahedron, 8, 2));
    assert(row_distance((0int, 1int, 1int, 0int, 0int, -1int), (1int, 0int, 1int, 0int, 1int, 2int), ((30int, 0int), (12int, 6int), (42int, -24int))) == (120int, 0int)) by (nonlinear_arith);
    assert(row_distance((1int, 0int, 1int, 0int, 1int, 2int), (0int, 1int, 1int, 0int, 0int, -1int), ((30int, 0int), (12int, 6int), (42int, -24int))) == (120int, 0int)) by (nonlinear_arith);
    assert(side_ok(PlatonicSolid::Icosahedron, 3, 5) && side_ok(PlatonicSolid::Icosahedron, 5, 3));
    assert(row_distance((0int, 1int, 1int, 0int, 0int, -1int), (1int, 0int, -1int, 0int, -1int, -2int), ((30int, 0int), (12int, 6int), (42int, -24int))) == (120int, 0int)) by (nonlinear_arith);
    assert(row_distance((1int, 0int, -1int, 0int, -1int, -2int), (0int, 1int, 1int, 0int, 0int, -1int), ((30int, 0int), (12int, 6int), (42int, -24int))) == (120int, 0int)) by (nonlinear_arith);
    assert(side_ok(PlatonicSolid::Icosahedron, 3, 7) && side_ok(PlatonicSolid::Icosahedron, 7, 3));
    assert(row_distance((0int, 1int, 1int, 0int, 0int, -1int), (0int, 1int, -1int, 0int, 0int, 1int), ((30int, 0int), (12int, 6int), (42int, -24int))) == (120int, 0int)) by (nonlinear_arith);
    assert(row_distance((0int, 1int, -1int, 0int, 0int, 1int), (0int, 1int, 1int, 0int, 0int, -1int), ((30int, 0int), (12int, 6int), (42int, -24int))) == (120int, 0int)) by (nonlinear_arith);
    assert(side_ok(PlatonicSolid::Icosahedron, 3, 9) && side_ok(PlatonicSolid::Icosahedron, 9, 3));
    assert(row_distance((-1int, 0int, 1int, 0int, 1int, 2int), (1int, 0int, 1int, 0int, 1int, 2int), ((30int, 0int), (12int, 6int), (42int, -24int))) == (120int, 0int)) by (nonlinear_arith);
    assert(row_distance((1int, 0int, 1int, 0int, 1int, 2int), (-1int, 0int, 1int, 0int, 1int, 2int), ((30int, 0int), (12int, 6int), (42int, -24int))) == (120int, 0int)) by (nonlinear_arith);
    assert(side_ok(PlatonicSolid::Icosahedron, 4, 5) && side_ok(PlatonicSolid::Icosahedron, 5, 4));
    assert(row_distance((-1int, 0int, 1int, 0int, 1int, 2int), (0int, -1int, -1int, 0int, 0int, 1int), ((30int, 0int), (12int, 6int), (42int, -24int))) == (120int, 0int)) by (nonlinear_arith);
    assert(row_distance((0int, -1int, -1int, 0int, 0int, 1int), (-1int, 0int, 1int, 0int, 1int, 2int), ((30int, 0int), (12int, 6int), (42int, -24int))) == (120int, 0int)) by (nonlinear_arith);
    assert(side_ok(PlatonicSolid::Icosahedron, 4, 8) && side_ok(PlatonicSolid::Icosahedron, 8, 4));
    assert(row_distance((-1int, 0int, 1int, 0int, 1int, 2int), (0int, 0int, -1int, 0int, 2int, 2int), ((30int, 0int), (12int, 6int), (42int, -24int))) == (120int, 0int)) by (nonlinear_arith);
    assert(row_distance((0int, 0int, -1int, 0int, 2int, 2int), (-1int, 0int, 1int, 0int, 1int, 2int), ((30int, 0int), (12int, 6int), (42int, -24int))) == (120int, 0int)) by (nonlinear_arith);
    assert(side_ok(PlatonicSolid::Icosahedron, 4, 10) && side_ok(PlatonicSolid::Icosahedron, 10, 4));
    assert(row_distance((1int, 0int, 1int, 0int, 1int, 2int), (0int, 1int, -1int, 0int, 0int, 1int), ((30int, 0int), (12int, 6int), (42int, -24int))) == (120int, 0int)) by (nonlinear_arith);
    assert(row_distance((0int, 1int, -1int, 0int, 0int, 1int), (1int, 0int, 1int, 0int, 1int, 2int), ((30int, 0int), (12int, 6int), (42int, -24int))) == (120int, 0int)) by (nonlinear_arith);
    assert(side_ok(PlatonicSolid::Icosahedron, 5, 9) && side_ok(PlatonicSolid::Icosahedron, 9, 5));
    assert(row_distance((1int, 0int, 1int, 0int, 1int, 2int), (0int, 0int, -1int, 0int, 2int, 2int), ((30int, 0int), (12int, 6int), (42int, -24int))) == (120int, 0int)) by (nonlinear_arith);
    assert(row_distance((0int, 0int, -1int, 0int, 2int, 2int), (1int, 0int, 1int, 0int, 1int, 2int), ((30int, 0int), (12int, 6int), (42int, -24int))) == (120int, 0int)) by (nonlinear_arith);
    assert(side_ok(PlatonicSolid::Icosahedron, 5, 10) && side_ok(PlatonicSolid::Icosahedron, 10, 5));
    assert(row_distance((-1int, 0int, -1int, 0int, -1int, -2int), (1int, 0int, -1int, 0int, -1int, -2int), ((30int, 0int), (12int, 6int), (42int, -24int))) == (120int, 0int)) by (nonlinear_arith);
    assert(row_distance((1int, 0int, -1int, 0int, -1int, -2int), (-1int, 0int, -1int, 0int, -1int, -2int), ((30int, 0int), (12int, 6int), (42int, -24int))) == (120int, 0int)) by (nonlinear_arith);
    assert(side_ok(PlatonicSolid::Icosahedron, 6, 7) && side_ok(PlatonicSolid::Icosahedron, 7, 6));
    assert(row_distance((-1int, 0int, -1int, 0int, -1int, -2int), (0int, -1int, -1int, 0int, 0int, 1int), ((30int, 0int), (12int, 6int), (42int, -24int))) == (120int, 0int)) by (nonlinear_arith);
    assert(row_distance((0int, -1int, -1int, 0int, 0int, 1int), (-1int, 0int, -1int, 0int, -1int, -2int), ((30int, 0int), (12int, 6int), (42int, -24int))) == (120int, 0int)) by (nonlinear_arith);
    assert(side_ok(PlatonicSolid::Icosahedron, 6, 8) && side_ok(PlatonicSolid::Icosahedron, 8, 6));
    assert(row_distance((-1int, 0int, -1int, 0int, -1int, -2int), (0int, 0int, 1int, -2int, 0int, 0int), ((30int, 0int), (12int, 6int), (42int, -24int))) == (120int, 0int)) by (nonlinear_arith);
    assert(row_distance((0int, 0int, 1int, -2int, 0int, 0int), (-1int, 0int, -1int, 0int, -1int, -2int), ((30int, 0int), (12int, 6int), (42int, -24int))) == (120int, 0int)) by (nonlinear_arith);
    assert(side_ok(PlatonicSolid::Icosahedron, 6, 11) && side_ok(PlatonicSolid::Icosahedron, 11, 6));
    assert(row_distance((1int, 0int, -1int, 0int, -1int, -2int), (0int, 1int, -1int, 0int, 0int, 1int), ((30int, 0int), (12int, 6int), (42int, -24int))) == (120int, 0int)) by (nonlinear_arith);
    assert(row_distance((0int, 1int, -1int, 0int, 0int, 1int), (1int, 0int, -1int, 0int, -1int, -2int), ((30int, 0int), (12int, 6int), (42int, -24int))) == (120int, 0int)) by (nonlinear_arith);
    assert(side_ok(PlatonicSolid::Icosahedron, 7, 9) && side_ok(PlatonicSolid::Icosahedron, 9, 7));
    assert(row_distance((1int, 0int, -1int, 0int, -1int, -2int), (0int, 0int, 1int, -2int, 0int, 0int), ((30int, 0int), (12int, 6int), (42int, -24int))) == (120int, 0int)) by (nonlinear_arith);
    assert(row_distance((0int, 0int, 1int, -2int, 0int, 0int), (1int, 0int, -1int, 0int, -1int, -2int), ((30int, 0int), (12int, 6int), (42int, -24int))) == (120int, 0int)) by (nonlinear_arith);
    assert(side_ok(PlatonicSolid::Icosahedron, 7, 11) && side_ok(PlatonicSolid::Icosahedron, 11, 7));
    assert(row_distance((0int, -1int, -1int, 0int, 0int, 1int), (0int, 0int, -1int, 0int, 2int, 2int), ((30int, 0int), (12int, 6int), (42int, -24int))) == (120int, 0int)) by (nonlinear_arith);
    assert(row_distance((0int, 0int, -1int, 0int, 2int, 2int), (0int, -1int, -1int, 0int, 0int, 1int), ((30int, 0int), (12int, 6int), (42int, -24int))) == (120int, 0int)) by (nonlinear_arith);
    assert(side_ok(PlatonicSolid::Icosahedron, 8, 10) && side_ok(PlatonicSolid::Icosahedron, 10, 8));
    assert(row_distance((0int, -1int, -1int, 0int, 0int, 1int), (0int, 0int, 1int, -2int, 0int, 0int), ((30int, 0int), (12int, 6int), (42int, -24int))) == (120int, 0int)) by (nonlinear_arith);
    assert(row_distance((0int, 0int, 1int, -2int, 0int, 0int), (0int, -1int, -1int, 0int, 0int, 1int), ((30int, 0int), (12int, 6int), (42int, -24int))) == (120int, 0int)) by (nonlinear_arith);
    assert(side_ok(PlatonicSolid::Icosahedron, 8, 11) && side_ok(PlatonicSolid::Icosahedron, 11, 8));
    assert(row_distance((0int, 1int, -1int, 0int, 0int, 1int), (0int, 0int, -1int, 0int, 2int, 2int), ((30int, 0int), (12int, 6int), (42int, -24int))) == (120int, 0int)) by (nonlinear_arith);
    assert(row_distance((0int, 0int, -1int, 0int, 2int, 2int), (0int, 1int, -1int, 0int, 0int, 1int), ((30int, 0int), (12int, 6int), (42int, -24int))) == (120int, 0int)) by (nonlinear_arith);
    assert(side_ok(PlatonicSolid::Icosahedron, 9, 10) && side_ok(PlatonicSolid::Icosahedron, 10, 9));
    assert(row_distance((0int, 1int, -1int, 0int, 0int, 1int), (0int, 0int, 1int, -2int, 0int, 0int), ((30int, 0int), (12int, 6int), (42int, -24int))) == (120int, 0int)) by (nonlinear_arith);
    assert(row_distance((0int, 0int, 1int, -2int, 0int, 0int), (0int, 1int, -1int, 0int, 0int, 1int), ((30int, 0int), (12int, 6int), (42int, -24int))) == (120int, 0int)) by (nonlinear_arith);
    assert(side_ok(PlatonicSolid::Icosahedron, 9, 11) && side_ok(PlatonicSolid::Icosahedron, 11, 9));
    assert(row_distance((0int, 0int, -1int, 0int, 2int, 2int), (0int, 0int, 1int, -2int, 0int, 0int), ((30int, 0int), (12int, 6int), (42int, -24int))) == (120int, 0int)) by (nonlinear_arith);
    assert(row_distance((0int, 0int, 1int, -2int, 0int, 0int), (0int, 0int, -1int, 0int, 2int, 2int), ((30int, 0int), (12int, 6int), (42int, -24int))) == (120int, 0int)) by (nonlinear_arith);
    assert(side_ok(PlatonicSolid::Icosahedron, 10, 11) && side_ok(PlatonicSolid::Icosahedron, 11, 10));
    assert(PlatonicSolid::Icosahedron.strip_entry(0, 0) == 0 && PlatonicSolid::Icosahedron.strip_entry(0, 1) == 1 && PlatonicSolid::Icosahedron.strip_entry(0, 2) == 2);
    assert(triangle_ok(PlatonicSolid::Icosahedron, 0, 0));
    assert(PlatonicSolid::Icosahedron.strip_entry(0, 1) == 1 && PlatonicSolid::Icosahedron.strip_entry(0, 2) == 2 && PlatonicSolid::Icosahedron.strip_entry(0, 3) == 6);
    assert(triangle_ok(PlatonicSolid::Icosahedron, 0, 1));
    assert(PlatonicSolid::Icosahedron.strip_entry(0, 2) == 2 && PlatonicSolid::Icosahedron.strip_entry(0, 3) == 6 && PlatonicSolid::Icosahedron.strip_entry(0, 4) == 8);
    assert(triangle_ok(PlatonicSolid::Icosahedron, 0, 2));
    assert(PlatonicSolid::Icosahedron.strip_entry(0, 3) == 6 && PlatonicSolid::Icosahedron.strip_entry(0, 4) == 8 && PlatonicSolid::Icosahedron.strip_entry(0, 5) == 11);
    assert(triangle_ok(PlatonicSolid::Icosahedron, 0, 3));
    assert(PlatonicSolid::Icosahedron.strip_entry(0, 4) == 8 && PlatonicSolid::Icosahedron.strip_entry(0, 5) == 11 && PlatonicSolid::Icosahedron.strip_entry(0, 6) == 10);
    assert(triangle_ok(PlatonicSolid::Icosahedron, 0, 4));
    assert(PlatonicSolid::Icosahedron.strip_entry(0, 5) == 11 && PlatonicSolid::Icosahedron.strip_entry(0, 6) == 10 && PlatonicSolid::Icosahedron.strip_entry(0, 7) == 9);
    assert(triangle_ok(PlatonicSolid::Icosahedron, 0, 5));
    assert(PlatonicSolid::Icosahedron.strip_entry(0, 6) == 10 && PlatonicSolid::Icosahedron.strip_entry(0, 7) == 9 && PlatonicSolid::Icosahedron.strip_entry(0, 8) == 5);
    assert(triangle_ok(PlatonicSolid::Icosahedron, 0, 6));
    assert(PlatonicSolid::Icosahedron.strip_entry(1, 0) == 2 && PlatonicSolid::Icosahedron.strip_entry(1, 1) == 4 && PlatonicSolid::Icosahedron.strip_entry(1, 2) == 0);
    assert(triangle_ok(PlatonicSolid::Icosahedron, 1, 0));
    assert(PlatonicSolid::Icosahedron.strip_entry(1, 1) == 4 && PlatonicSolid::Icosahedron.strip_entry(1, 2) == 0 && PlatonicSolid::Icosahedron.strip_entry(1, 3) == 5);
    assert(triangle_ok(PlatonicSolid::Icosahedron, 1, 1));
    assert(PlatonicSolid::Icosahedron.strip_entry(1, 2) == 0 && PlatonicSolid::Icosahedron.strip_entry(1, 3) == 5 && PlatonicSolid::Icosahedron.strip_entry(1, 4) == 3);
    assert(triangle_ok(PlatonicSolid::Icosahedron, 1, 2));
    assert(PlatonicSolid::Icosahedron.strip_entry(1, 3) == 5 && PlatonicSolid::Icosahedron.strip_entry(1, 4) == 3 && PlatonicSolid::Icosahedron.strip_entry(1, 5) == 9);
    assert(triangle_ok(PlatonicSolid::Icosahedron, 1, 3));
    assert(PlatonicSolid::Icosahedron.strip_entry(1, 4) == 3 && PlatonicSolid::Icosahedron.strip_entry(1, 5) == 9 && PlatonicSolid::Icosahedron.strip_entry(1, 6) == 7);
    assert(triangle_ok(PlatonicSolid::Icosahedron, 1, 4));
    assert(PlatonicSolid::Icosahedron.strip_entry(1, 5) == 9 && PlatonicSolid::Icosahedron.strip_entry(1, 6) == 7 && PlatonicSolid::Icosahedron.strip_entry(1, 7) == 11);
    assert(triangle_ok(PlatonicSolid::Icosahedron, 1, 5));
    assert(PlatonicSolid::Icosahedron.strip_entry(1, 6) == 7 && PlatonicSolid::Icosahedron.strip_entry(1, 7) == 11 && PlatonicSolid::Icosahedron.strip_entry(1, 8) == 6);
    assert(triangle_ok(PlatonicSolid::Icosahedron, 1, 6));
    assert(PlatonicSolid::Icosahedron.strip_entry(2, 0) == 0 && PlatonicSolid::Icosahedron.strip_entry(2, 1) == 3 && PlatonicSolid::Icosahedron.strip_entry(2, 2) == 1);
    assert(triangle_ok(PlatonicSolid::Icosahedron, 2, 0));
    assert(PlatonicSolid::Icosahedron.strip_entry(2, 1) == 3 && PlatonicSolid::Icosahedron.strip_entry(2, 2) == 1 && PlatonicSolid::Icosahedron.strip_entry(2, 3) == 7);
    assert(triangle_ok(PlatonicSolid::Icosahedron, 2, 1));
    assert(PlatonicSolid::Icosahedron.strip_entry(2, 2) == 1 && PlatonicSolid::Icosahedron.strip_entry(2, 3) == 7 && PlatonicSolid::Icosahedron.strip_entry(2, 4) == 6);
    assert(triangle_ok(PlatonicSolid::Icosahedron, 2, 2));
    assert(PlatonicSolid::Icosahedron.strip_entry(3, 0) == 2 && PlatonicSolid::Icosahedron.strip_entry(3, 1) == 8 && PlatonicSolid::Icosahedron.strip_entry(3, 2) == 4);
    assert(triangle_ok(PlatonicSolid::Icosahedron, 3, 0));
    assert(PlatonicSolid::Icosahedron.strip_entry(3, 1) == 8 && PlatonicSolid::Icosahedron.strip_entry(3, 2) == 4 && PlatonicSolid::Icosahedron.strip_entry(3, 3) == 10);
    assert(triangle_ok(PlatonicSolid::Icosahedron, 3, 1));
    assert(PlatonicSolid::Icosahedron.strip_entry(3, 2) == 4 && PlatonicSolid::Icosahedron.strip_entry(3, 3) == 10 && PlatonicSolid::Icosahedron.strip_entry(3, 4) == 5);
    assert(triangle_ok(PlatonicSolid::Icosahedron, 3, 2));
    assert forall|k: int, j: int|
        0 <= k < PlatonicSolid::Icosahedron.strip_count() && 0 <= j && j + 2 < PlatonicSolid::Icosahedron.strip_len(k)
        implies #[trigger] triangle_ok(PlatonicSolid::Icosahedron, k, j) by {
        if k == 0 {
            if j == 0 {} else if j == 1 {} else if j == 2 {} else if j == 3 {} else if j == 4 {} else if j == 5 {} else if j == 6 {}
        } else if k == 1 {
            if j == 0 {} else if j == 1 {} else if j == 2 {} else if j == 3 {} else if j == 4 {} else if j == 5 {} else if j == 6 {}
        } else if k == 2 {
            if j == 0 {} else if j == 1 {} else if j == 2 {}
        } else if k == 3 {
            if j == 0 {} else if j == 1 {} else if j == 2 {}
        }
    }
}

pub(crate) proof fn lemma_strip_sides(solid: PlatonicSolid)
    ensures
        forall|k: int, j: int|
            0 <= k < solid.strip_count() && 0 <= j && j + 2 < solid.strip_len(k) ==> #[trigger] triangle_ok(
                solid,
                k,
                j,
            ),
{
    match solid {
        PlatonicSolid::Tetrahedron => lemma_tetrahedron_strip_sides(),
        PlatonicSolid::Hexahedron => lemma_hexahedron_strip_sides(),
        PlatonicSolid::Octahedron => lemma_octahedron_strip_sides(),
        PlatonicSolid::Dodecahedron => lemma_dodecahedron_strip_sides(),
        PlatonicSolid::Icosahedron => lemma_icosahedron_strip_sides(),
    }
}

/// The golden coefficients of a row, axis by axis.
pub(crate) open spec fn row_coefficients(r: (int, int, int, int, int, int)) -> ((int, int), (int, int), (int, int)) {
    ((r.0, r.1), (r.2, r.3), (r.4, r.5))
}

/// Triangle `j` of strip `k` has three distinct corners `a, b, c` with
/// `a · (b × c) > 0`: with the origin inside the solid, the triangle runs
/// counterclockwise seen from outside.
pub(crate) open spec fn triangle_front(solid: PlatonicSolid, k: int, j: int) -> bool {
    let t = strip_triangle(solid.spec_strips()[k], j);
    !is_degenerate(t) && golden_positive(
        g_det(
            row_coefficients(solid.model_row(t.0 as int)),
            row_coefficients(solid.model_row(t.1 as int)),
            row_coefficients(solid.model_row(t.2 as int)),
        ),
    )
}

#[verifier::spinoff_prover]
#[verifier::rlimit(100)]
pub(crate) proof fn lemma_tetrahedron_strip_fronts()
    ensures
        forall|k: int, j: int|
            0 <= k < PlatonicSolid::Tetrahedron.strip_count() && 0 <= j && j + 2 < PlatonicSolid::Tetrahedron.strip_len(k)
                ==> #[trigger] triangle_front(PlatonicSolid::Tetrahedron, k, j),
{
    assert(row_coefficients(PlatonicSolid::Tetrahedron.model_row(0)) == ((-1int, 0int), (-1int, 0int), (1int, 0int)));
    assert(row_coefficients(PlatonicSolid::Tetrahedron.model_row(1)) == ((1int, 0int), (-1int, 0int), (1int, 0int)));
    assert(row_coefficients(PlatonicSolid::Tetrahedron.model_row(2)) == ((0int, 0int), (3int, 0int), (0int, 0int)));
    assert(row_coefficients(PlatonicSolid::Tetrahedron.model_row(3)) == ((0int, 0int), (-1int, 0int), (-2int, 0int)));
    assert(PlatonicSolid::Tetrahedron.strip_entry(0, 0) == 0 && PlatonicSolid::Tetrahedron.strip_entry(0, 1) == 1 && PlatonicSolid::Tetrahedron.strip_entry(0, 2) == 2);
    assert(golden_positive(g_det(((-1int, 0int), (-1int, 0int), (1int, 0int)), ((1int, 0int), (-1int, 0int), (1int, 0int)), ((0int, 0int), (3int, 0int), (0int, 0int))))) by (nonlinear_arith);
    assert(triangle_front(PlatonicSolid::Tetrahedron, 0, 0));
    assert(PlatonicSolid::Tetrahedron.strip_entry(0, 1) == 1 && PlatonicSolid::Tetrahedron.strip_entry(0, 2) == 2 && PlatonicSolid::Tetrahedron.strip_entry(0, 3) == 3);
    assert(golden_positive(g_det(((0int, 0int), (3int, 0int), (0int, 0int)), ((1int, 0int), (-1int, 0int), (1int, 0int)), ((0int, 0int), (-1int, 0int), (-2int, 0int))))) by (nonlinear_arith);
    assert(triangle_front(PlatonicSolid::Tetrahedron, 0, 1));
    assert(PlatonicSolid::Tetrahedron.strip_entry(0, 2) == 2 && PlatonicSolid::Tetrahedron.strip_entry(0, 3) == 3 && PlatonicSolid::Tetrahedron.strip_entry(0, 4) == 0);
    assert(golden_positive(g_det(((0int, 0int), (3int, 0int), (0int, 0int)), ((0int, 0int), (-1int, 0int), (-2int, 0int)), ((-1int, 0int), (-1int, 0int), (1int, 0int))))) by (nonlinear_arith);
    assert(triangle_front(PlatonicSolid::Tetrahedron, 0, 2));
    assert(PlatonicSolid::Tetrahedron.strip_entry(0, 3) == 3 && PlatonicSolid::Tetrahedron.strip_entry(0, 4) == 0 && PlatonicSolid::Tetrahedron.strip_entry(0, 5) == 1);
    assert(golden_positive(g_det(((-1int, 0int), (-1int, 0int), (1int, 0int)), ((0int, 0int), (-1int, 0int), (-2int, 0int)), ((1int, 0int), (-1int, 0int), (1int, 0int))))) by (nonlinear_arith);
    assert(triangle_front(PlatonicSolid::Tetrahedron, 0, 3));
    assert forall|k: int, j: int|
        0 <= k < PlatonicSolid::Tetrahedron.strip_count() && 0 <= j && j + 2 < PlatonicSolid::Tetrahedron.strip_len(k)
        implies #[trigger] triangle_front(PlatonicSolid::Tetrahedron, k, j) by {
        if k == 0 {
            if j == 0 {} else if j == 1 {} else if j == 2 {} else if j == 3 {}
        }
    }
}

#[verifier::spinoff_prover]
#[verifier::rlimit(100)]
pub(crate) proof fn lemma_hexahedron_strip_fronts()
    ensures
        forall|k: int, j: int|
            0 <= k < PlatonicSolid::Hexahedron.strip_count() && 0 <= j && j + 2 < PlatonicSolid::Hexahedron.strip_len(k)
                ==> #[trigger] triangle_front(PlatonicSolid::Hexahedron, k, j),
{
    assert(row_coefficients(PlatonicSolid::Hexahedron.model_row(0)) == ((-1int, 0int), (-1int, 0int), (1int, 0int)));
    assert(row_coefficients(PlatonicSolid::Hexahedron.model_row(1)) == ((1int, 0int), (-1int, 0int), (1int, 0int)));
    assert(row_coefficients(PlatonicSolid::Hexahedron.model_row(2)) == ((-1int, 0int), (1int, 0int), (1int, 0int)));
    assert(row_coefficients(PlatonicSolid::Hexahedron.model_row(3)) == ((1int, 0int), (1int, 0int), (1int, 0int)));
    assert(row_coefficients(PlatonicSolid::Hexahedron.model_row(4)) == ((-1int, 0int), (-1int, 0int), (-1int, 0int)));
    assert(row_coefficients(PlatonicSolid::Hexahedron.model_row(5)) == ((1int, 0int), (-1int, 0int), (-1int, 0int)));
    assert(row_coefficients(PlatonicSolid::Hexahedron.model_row(6)) == ((-1int, 0int), (1int, 0int), (-1int, 0int)));
    assert(row_coefficients(PlatonicSolid::Hexahedron.model_row(7)) == ((1int, 0int), (1int, 0int), (-1int, 0int)));
    assert(PlatonicSolid::Hexahedron.strip_entry(0, 0) == 0 && PlatonicSolid::Hexahedron.strip_entry(0, 1) == 1 && PlatonicSolid::Hexahedron.strip_entry(0, 2) == 2);
    assert(golden_positive(g_det(((-1int, 0int), (-1int, 0int), (1int, 0int)), ((1int, 0int), (-1int, 0int), (1int, 0int)), ((-1int, 0int), (1int, 0int), (1int, 0int))))) by (nonlinear_arith);
    assert(triangle_front(PlatonicSolid::Hexahedron, 0, 0));
    assert(PlatonicSolid::Hexahedron.strip_entry(0, 1) == 1 && PlatonicSolid::Hexahedron.strip_entry(0, 2) == 2 && PlatonicSolid::Hexahedron.strip_entry(0, 3) == 3);
    assert(golden_positive(g_det(((-1int, 0int), (1int, 0int), (1int, 0int)), ((1int, 0int), (-1int, 0int), (1int, 0int)), ((1int, 0int), (1int, 0int), (1int, 0int))))) by (nonlinear_arith);
    assert(triangle_front(PlatonicSolid::Hexahedron, 0, 1));
    assert(PlatonicSolid::Hexahedron.strip_entry(0, 2) == 2 && PlatonicSolid::Hexahedron.strip_entry(0, 3) == 3 && PlatonicSolid::Hexahedron.strip_entry(0, 4) == 7);
    assert(golden_positive(g_det(((-1int, 0int), (1int, 0int), (1int, 0int)), ((1int, 0int), (1int, 0int), (1int, 0int)), ((1int, 0int), (1int, 0int), (-1int, 0int))))) by (nonlinear_arith);
    assert(triangle_front(PlatonicSolid::Hexahedron, 0, 2));
    assert(PlatonicSolid::Hexahedron.strip_entry(0, 3) == 3 && PlatonicSolid::Hexahedron.strip_entry(0, 4) == 7 && PlatonicSolid::Hexahedron.strip_entry(0, 5) == 1);
    assert(golden_positive(g_det(((1int, 0int), (1int, 0int), (-1int, 0int)), ((1int, 0int), (1int, 0int), (1int, 0int)), ((1int, 0int), (-1int, 0int), (1int, 0int))))) by (nonlinear_arith);
    assert(triangle_front(PlatonicSolid::Hexahedron, 0, 3));
    assert(PlatonicSolid::Hexahedron.strip_entry(0, 4) == 7 && PlatonicSolid::Hexahedron.strip_entry(0, 5) == 1 && PlatonicSolid::Hexahedron.strip_entry(0, 6) == 5);
    assert(golden_positive(g_det(((1int, 0int), (1int, 0int), (-1int, 0int)), ((1int, 0int), (-1int, 0int), (1int, 0int)), ((1int, 0int), (-1int, 0int), (-1int, 0int))))) by (nonlinear_arith);
    assert(triangle_front(PlatonicSolid::Hexahedron, 0, 4));
    assert(PlatonicSolid::Hexahedron.strip_entry(0, 5) == 1 && PlatonicSolid::Hexahedron.strip_entry(0, 6) == 5 && PlatonicSolid::Hexahedron.strip_entry(0, 7) == 0);
    assert(golden_positive(g_det(((1int, 0int), (-1int, 0int), (-1int, 0int)), ((1int, 0int), (-1int, 0int), (1int, 0int)), ((-1int, 0int), (-1int, 0int), (1int, 0int))))) by (nonlinear_arith);
    assert(triangle_front(PlatonicSolid::Hexahedron, 0, 5));
    assert(PlatonicSolid::Hexahedron.strip_entry(0, 6) == 5 && PlatonicSolid::Hexahedron.strip_entry(0, 7) == 0 && PlatonicSolid::Hexahedron.strip_entry(0, 8) == 4);
    assert(golden_positive(g_det(((1int, 0int), (-1int, 0int), (-1int, 0int)), ((-1int, 0int), (-1int, 0int), (1int, 0int)), ((-1int, 0int), (-1int, 0int), (-1int, 0int))))) by (nonlinear_arith);
    assert(triangle_front(PlatonicSolid::Hexahedron, 0, 6));
    assert(PlatonicSolid::Hexahedron.strip_entry(0, 7) == 0 && PlatonicSolid::Hexahedron.strip_entry(0, 8) == 4 && PlatonicSolid::Hexahedron.strip_entry(0, 9) == 2);
    assert(golden_positive(g_det(((-1int, 0int), (-1int, 0int), (-1int, 0int)), ((-1int, 0int), (-1int, 0int), (1int, 0int)), ((-1int, 0int), (1int, 0int), (1int, 0int))))) by (nonlinear_arith);
    assert(triangle_front(PlatonicSolid::Hexahedron, 0, 7));
    assert(PlatonicSolid::Hexahedron.strip_entry(0, 8) == 4 && PlatonicSolid::Hexahedron.strip_entry(0, 9) == 2 && PlatonicSolid::Hexahedron.strip_entry(0, 10) == 6);
    assert(golden_positive(g_det(((-1int, 0int), (-1int, 0int), (-1int, 0int)), ((-1int, 0int), (1int, 0int), (1int, 0int)), ((-1int, 0int), (1int, 0int), (-1int, 0int))))) by (nonlinear_arith);
    assert(triangle_front(PlatonicSolid::Hexahedron, 0, 8));
    assert(PlatonicSolid::Hexahedron.strip_entry(0, 9) == 2 && PlatonicSolid::Hexahedron.strip_entry(0, 10) == 6 && PlatonicSolid::Hexahedron.strip_entry(0, 11) == 7);
    assert(golden_positive(g_det(((-1int, 0int), (1int, 0int), (-1int, 0int)), ((-1int, 0int), (1int, 0int), (1int, 0int)), ((1int, 0int), (1int, 0int), (-1int, 0int))))) by (nonlinear_arith);
    assert(triangle_front(PlatonicSolid::Hexahedron, 0, 9));
    assert(PlatonicSolid::Hexahedron.strip_entry(0, 10) == 6 && PlatonicSolid::Hexahedron.strip_entry(0, 11) == 7 && PlatonicSolid::Hexahedron.strip_entry(0, 12) == 4);
    assert(golden_positive(g_det(((-1int, 0int), (1int, 0int), (-1int, 0int)), ((1int, 0int), (1int, 0int), (-1int, 0int)), ((-1int, 0int), (-1int, 0int), (-1int, 0int))))) by (nonlinear_arith);
    assert(triangle_front(PlatonicSolid::Hexahedron, 0, 10));
    assert(PlatonicSolid::Hexahedron.strip_entry(0, 11) == 7 && PlatonicSolid::Hexahedron.strip_entry(0, 12) == 4 && PlatonicSolid::Hexahedron.strip_entry(0, 13) == 5);
    assert(golden_positive(g_det(((-1int, 0int), (-1int, 0int), (-1int, 0int)), ((1int, 0int), (1int, 0int), (-1int, 0int)), ((1int, 0int), (-1int, 0int), (-1int, 0int))))) by (nonlinear_arith);
    assert(triangle_front(PlatonicSolid::Hexahedron, 0, 11));
    assert forall|k: int, j: int|
        0 <= k < PlatonicSolid::Hexahedron.strip_count() && 0 <= j && j + 2 < PlatonicSolid::Hexahedron.strip_len(k)
        implies #[trigger] triangle_front(PlatonicSolid::Hexahedron, k, j) by {
        if k == 0 {
            if j == 0 {} else if j == 1 {} else if j == 2 {} else if j == 3 {} else if j == 4 {} else if j == 5 {} else if j == 6 {} else if j == 7 {} else if j == 8 {} else if j == 9 {} else if j == 10 {} else if j == 11 {}
        }
    }
}

#[verifier::spinoff_prover]
#[verifier::rlimit(100)]
pub(crate) proof fn lemma_octahedron_strip_fronts()
    ensures
        forall|k: int, j: int|
            0 <= k < PlatonicSolid::Octahedron.strip_count() && 0 <= j && j + 2 < PlatonicSolid::Octahedron.strip_len(k)
                ==> #[trigger] triangle_front(PlatonicSolid::Octahedron, k, j),
{
    assert(row_coefficients(PlatonicSolid::Octahedron.model_row(0)) == ((0int, 0int), (1int, 0int), (0int, 0int)));
    assert(row_coefficients(PlatonicSolid::Octahedron.model_row(1)) == ((-1int, 0int), (0int, 0int), (-1int, 0int)));
    assert(row_coefficients(PlatonicSolid::Octahedron.model_row(2)) == ((-1int, 0int), (0int, 0int), (1int, 0int)));
    assert(row_coefficients(PlatonicSolid::Octahedron.model_row(3)) == ((1int, 0int), (0int, 0int), (1int, 0int)));
    assert(row_coefficients(PlatonicSolid::Octahedron.model_row(4)) == ((1int, 0int), (0int, 0int), (-1int, 0int)));
    assert(row_coefficients(PlatonicSolid::Octahedron.model_row(5)) == ((0int, 0int), (-1int, 0int), (0int, 0int)));
    assert(PlatonicSolid::Octahedron.strip_entry(0, 0) == 1 && PlatonicSolid::Octahedron.strip_entry(0, 1) == 0 && PlatonicSolid::Octahedron.strip_entry(0, 2) == 4);
    assert(golden_positive(g_det(((-1int, 0int), (0int, 0int), (-1int, 0int)), ((0int, 0int), (1int, 0int), (0int, 0int)), ((1int, 0int), (0int, 0int), (-1int, 0int))))) by (nonlinear_arith);
    assert(triangle_front(PlatonicSolid::Octahedron, 0, 0));
    assert(PlatonicSolid::Octahedron.strip_entry(0, 1) == 0 && PlatonicSolid::Octahedron.strip_entry(0, 2) == 4 && PlatonicSolid::Octahedron.strip_entry(0, 3) == 3);
    assert(golden_positive(g_det(((1int, 0int), (0int, 0int), (-1int, 0int)), ((0int, 0int), (1int, 0int), (0int, 0int)), ((1int, 0int), (0int, 0int), (1int, 0int))))) by (nonlinear_arith);
    assert(triangle_front(PlatonicSolid::Octahedron, 0, 1));
    assert(PlatonicSolid::Octahedron.strip_entry(0, 2) == 4 && PlatonicSolid::Octahedron.strip_entry(0, 3) == 3 && PlatonicSolid::Octahedron.strip_entry(0, 4) == 5);
    assert(golden_positive(g_det(((1int, 0int), (0int, 0int), (-1int, 0int)), ((1int, 0int), (0int, 0int), (1int, 0int)), ((0int, 0int), (-1int, 0int), (0int, 0int))))) by (nonlinear_arith);
    assert(triangle_front(PlatonicSolid::Octahedron, 0, 2));
    assert(PlatonicSolid::Octahedron.strip_entry(0, 3) == 3 && PlatonicSolid::Octahedron.strip_entry(0, 4) == 5 && PlatonicSolid::Octahedron.strip_entry(0, 5) == 2);
    assert(golden_positive(g_det(((0int, 0int), (-1int, 0int), (0int, 0int)), ((1int, 0int), (0int, 0int), (1int, 0int)), ((-1int, 0int), (0int, 0int), (1int, 0int))))) by (nonlinear_arith);
    assert(triangle_front(PlatonicSolid::Octahedron, 0, 3));
    assert(PlatonicSolid::Octahedron.strip_entry(1, 0) == 3 && PlatonicSolid::Octahedron.strip_entry(1, 1) == 0 && PlatonicSolid::Octahedron.strip_entry(1, 2) == 2);
    assert(golden_positive(g_det(((1int, 0int), (0int, 0int), (1int, 0int)), ((0int, 0int), (1int, 0int), (0int, 0int)), ((-1int, 0int), (0int, 0int), (1int, 0int))))) by (nonlinear_arith);
    assert(triangle_front(PlatonicSolid::Octahedron, 1, 0));
    assert(PlatonicSolid::Octahedron.strip_entry(1, 1) == 0 && PlatonicSolid::Octahedron.strip_entry(1, 2) == 2 && PlatonicSolid::Octahedron.strip_entry(1, 3) == 1);
    assert(golden_positive(g_det(((-1int, 0int), (0int, 0int), (1int, 0int)), ((0int, 0int), (1int, 0int), (0int, 0int)), ((-1int, 0int), (0int, 0int), (-1int, 0int))))) by (nonlinear_arith);
    assert(triangle_front(PlatonicSolid::Octahedron, 1, 1));
    assert(PlatonicSolid::Octahedron.strip_entry(1, 2) == 2 && PlatonicSolid::Octahedron.strip_entry(1, 3) == 1 && PlatonicSolid::Octahedron.strip_entry(1, 4) == 5);
    assert(golden_positive(g_det(((-1int, 0int), (0int, 0int), (1int, 0int)), ((-1int, 0int), (0int, 0int), (-1int, 0int)), ((0int, 0int), (-1int, 0int), (0int, 0int))))) by (nonlinear_arith);
    assert(triangle_front(PlatonicSolid::Octahedron, 1, 2));
    assert(PlatonicSolid::Octahedron.strip_entry(1, 3) == 1 && PlatonicSolid::Octahedron.strip_entry(1, 4) == 5 && PlatonicSolid::Octahedron.strip_entry(1, 5) == 4);
    assert(golden_positive(g_det(((0int, 0int), (-1int, 0int), (0int, 0int)), ((-1int, 0int), (0int, 0int), (-1int, 0int)), ((1int, 0int), (0int, 0int), (-1int, 0int))))) by (nonlinear_arith);
    assert(triangle_front(PlatonicSolid::Octahedron, 1, 3));
    assert forall|k: int, j: int|
        0 <= k < PlatonicSolid::Octahedron.strip_count() && 0 <= j && j + 2 < PlatonicSolid::Octahedron.strip_len(k)
        implies #[trigger] triangle_front(PlatonicSolid::Octahedron, k, j) by {
        if k == 0 {
            if j == 0 {} else if j == 1 {} else if j == 2 {} else if j == 3 {}
        } else if k == 1 {
            if j == 0 {} else if j == 1 {} else if j == 2 {} else if j == 3 {}
        }
    }
}

#[verifier::spinoff_prover]
#[verifier::rlimit(100)]
pub(crate) proof fn lemma_dodecahedron_strip_fronts()
    ensures
        forall|k: int, j: int|
            0 <= k < PlatonicSolid::Dodecahedron.strip_count() && 0 <= j && j + 2 < PlatonicSolid::Dodecahedron.strip_len(k)
                ==> #[trigger] triangle_front(PlatonicSolid::Dodecahedron, k, j),
{
    assert(row_coefficients(PlatonicSolid::Dodecahedron.model_row(0)) == ((0int, 0int), (2int, 2int), (2int, 3int)));
    assert(row_coefficients(PlatonicSolid::Dodecahedron.model_row(1)) == ((0int, -1int), (0int, 1int), (2int, 3int)));
    assert(row_coefficients(PlatonicSolid::Dodecahedron.model_row(2)) == ((0int, 1int), (0int, 1int), (2int, 3int)));
    assert(row_coefficients(PlatonicSolid::Dodecahedron.model_row(3)) == ((-1int, 0int), (-1int, -2int), (2int, 3int)));
    assert(row_coefficients(PlatonicSolid::Dodecahedron.model_row(4)) == ((1int, 0int), (-1int, -2int), (2int, 3int)));
    assert(row_coefficients(PlatonicSolid::Dodecahedron.model_row(5)) == ((0int, 0int), (2int, 4int), (0int, 1int)));
    assert(row_coefficients(PlatonicSolid::Dodecahedron.model_row(6)) == ((-1int, -1int), (1int, 1int), (0int, 1int)));
    assert(row_coefficients(PlatonicSolid::Dodecahedron.model_row(7)) == ((1int, 1int), (1int, 1int), (0int, 1int)));
    assert(row_coefficients(PlatonicSolid::Dodecahedron.model_row(8)) == ((0int, -1int), (-2int, -3int), (0int, 1int)));
    assert(row_coefficients(PlatonicSolid::Dodecahedron.model_row(9)) == ((0int, 1int), (-2int, -3int), (0int, 1int)));
    assert(row_coefficients(PlatonicSolid::Dodecahedron.model_row(10)) == ((0int, -1int), (2int, 3int), (0int, -1int)));
    assert(row_coefficients(PlatonicSolid::Dodecahedron.model_row(11)) == ((0int, 1int), (2int, 3int), (0int, -1int)));
    assert(row_coefficients(PlatonicSolid::Dodecahedron.model_row(12)) == ((-1int, -1int), (-1int, -1int), (0int, -1int)));
    assert(row_coefficients(PlatonicSolid::Dodecahedron.model_row(13)) == ((1int, 1int), (-1int, -1int), (0int, -1int)));
    assert(row_coefficients(PlatonicSolid::Dodecahedron.model_row(14)) == ((0int, 0int), (-2int, -4int), (0int, -1int)));
    assert(row_coefficients(PlatonicSolid::Dodecahedron.model_row(15)) == ((-1int, 0int), (1int, 2int), (-2int, -3int)));
    assert(row_coefficients(PlatonicSolid::Dodecahedron.model_row(16)) == ((1int, 0int), (1int, 2int), (-2int, -3int)));
    assert(row_coefficients(PlatonicSolid::Dodecahedron.model_row(17)) == ((0int, -1int), (0int, -1int), (-2int, -3int)));
    assert(row_coefficients(PlatonicSolid::Dodecahedron.model_row(18)) == ((0int, 1int), (0int, -1int), (-2int, -3int)));
    assert(row_coefficients(PlatonicSolid::Dodecahedron.model_row(19)) == ((0int, 0int), (-2int, -2int), (-2int, -3int)));
    assert(PlatonicSolid::Dodecahedron.strip_entry(0, 0) == 1 && PlatonicSolid::Dodecahedron.strip_entry(0, 1) == 3 && PlatonicSolid::Dodecahedron.strip_entry(0, 2) == 0);
    assert(golden_positive(g_det(((0int, -1int), (0int, 1int), (2int, 3int)), ((-1int, 0int), (-1int, -2int), (2int, 3int)), ((0int, 0int), (2int, 2int), (2int, 3int))))) by (nonlinear_arith);
    assert(triangle_front(PlatonicSolid::Dodecahedron, 0, 0));
    assert(PlatonicSolid::Dodecahedron.strip_entry(0, 1) == 3 && PlatonicSolid::Dodecahedron.strip_entry(0, 2) == 0 && PlatonicSolid::Dodecahedron.strip_entry(0, 3) == 4);
    assert(golden_positive(g_det(((0int, 0int), (2int, 2int), (2int, 3int)), ((-1int, 0int), (-1int, -2int), (2int, 3int)), ((1int, 0int), (-1int, -2int), (2int, 3int))))) by (nonlinear_arith);
    assert(triangle_front(PlatonicSolid::Dodecahedron, 0, 1));
    assert(PlatonicSolid::Dodecahedron.strip_entry(0, 2) == 0 && PlatonicSolid::Dodecahedron.strip_entry(0, 3) == 4 && PlatonicSolid::Dodecahedron.strip_entry(0, 4) == 2);
    assert(golden_positive(g_det(((0int, 0int), (2int, 2int), (2int, 3int)), ((1int, 0int), (-1int, -2int), (2int, 3int)), ((0int, 1int), (0int, 1int), (2int, 3int))))) by (nonlinear_arith);
    assert(triangle_front(PlatonicSolid::Dodecahedron, 0, 2));
    assert(PlatonicSolid::Dodecahedron.strip_entry(0, 3) == 4 && PlatonicSolid::Dodecahedron.strip_entry(0, 4) == 2 && PlatonicSolid::Dodecahedron.strip_entry(0, 5) == 7);
    assert(golden_positive(g_det(((0int, 1int), (0int, 1int), (2int, 3int)), ((1int, 0int), (-1int, -2int), (2int, 3int)), ((1int, 1int), (1int, 1int), (0int, 1int))))) by (nonlinear_arith);
    assert(triangle_front(PlatonicSolid::Dodecahedron, 0, 3));
    assert(PlatonicSolid::Dodecahedron.strip_entry(0, 4) == 2 && PlatonicSolid::Dodecahedron.strip_entry(0, 5) == 7 && PlatonicSolid::Dodecahedron.strip_entry(0, 6) == 0);
    assert(golden_positive(g_det(((0int, 1int), (0int, 1int), (2int, 3int)), ((1int, 1int), (1int, 1int), (0int, 1int)), ((0int, 0int), (2int, 2int), (2int, 3int))))) by (nonlinear_arith);
    assert(triangle_front(PlatonicSolid::Dodecahedron, 0, 4));
    assert(PlatonicSolid::Dodecahedron.strip_entry(0, 5) == 7 && PlatonicSolid::Dodecahedron.strip_entry(0, 6) == 0 && PlatonicSolid::Dodecahedron.strip_entry(0, 7) == 11);
    assert(golden_positive(g_det(((0int, 0int), (2int, 2int), (2int, 3int)), ((1int, 1int), (1int, 1int), (0int, 1int)), ((0int, 1int), (2int, 3int), (0int, -1int))))) by (nonlinear_arith);
    assert(triangle_front(PlatonicSolid::Dodecahedron, 0, 5));
    assert(PlatonicSolid::Dodecahedron.strip_entry(0, 6) == 0 && PlatonicSolid::Dodecahedron.strip_entry(0, 7) == 11 && PlatonicSolid::Dodecahedron.strip_entry(0, 8) == 5);
    assert(golden_positive(g_det(((0int, 0int), (2int, 2int), (2int, 3int)), ((0int, 1int), (2int, 3int), (0int, -1int)), ((0int, 0int), (2int, 4int), (0int, 1int))))) by (nonlinear_arith);
    assert(triangle_front(PlatonicSolid::Dodecahedron, 0, 6));
    assert(PlatonicSolid::Dodecahedron.strip_entry(0, 7) == 11 && PlatonicSolid::Dodecahedron.strip_entry(0, 8) == 5 && PlatonicSolid::Dodecahedron.strip_entry(0, 9) == 10);
    assert(golden_positive(g_det(((0int, 0int), (2int, 4int), (0int, 1int)), ((0int, 1int), (2int, 3int), (0int, -1int)), ((0int, -1int), (2int, 3int), (0int, -1int))))) by (nonlinear_arith);
    assert(triangle_front(PlatonicSolid::Dodecahedron, 0, 7));
    assert(PlatonicSolid::Dodecahedron.strip_entry(0, 8) == 5 && PlatonicSolid::Dodecahedron.strip_entry(0, 9) == 10 && PlatonicSolid::Dodecahedron.strip_entry(0, 10) == 0);
    assert(golden_positive(g_det(((0int, 0int), (2int, 4int), (0int, 1int)), ((0int, -1int), (2int, 3int), (0int, -1int)), ((0int, 0int), (2int, 2int), (2int, 3int))))) by (nonlinear_arith);
    assert(triangle_front(PlatonicSolid::Dodecahedron, 0, 8));
    assert(PlatonicSolid::Dodecahedron.strip_entry(0, 9) == 10 && PlatonicSolid::Dodecahedron.strip_entry(0, 10) == 0 && PlatonicSolid::Dodecahedron.strip_entry(0, 11) == 6);
    assert(golden_positive(g_det(((0int, 0int), (2int, 2int), (2int, 3int)), ((0int, -1int), (2int, 3int), (0int, -1int)), ((-1int, -1int), (1int, 1int), (0int, 1int))))) by (nonlinear_arith);
    assert(triangle_front(PlatonicSolid::Dodecahedron, 0, 9));
    assert(PlatonicSolid::Dodecahedron.strip_entry(0, 10) == 0 && PlatonicSolid::Dodecahedron.strip_entry(0, 11) == 6 && PlatonicSolid::Dodecahedron.strip_entry(0, 12) == 1);
    assert(golden_positive(g_det(((0int, 0int), (2int, 2int), (2int, 3int)), ((-1int, -1int), (1int, 1int), (0int, 1int)), ((0int, -1int), (0int, 1int), (2int, 3int))))) by (nonlinear_arith);
    assert(triangle_front(PlatonicSolid::Dodecahedron, 0, 10));
    assert(PlatonicSolid::Dodecahedron.strip_entry(0, 11) == 6 && PlatonicSolid::Dodecahedron.strip_entry(0, 12) == 1 && PlatonicSolid::Dodecahedron.strip_entry(0, 13) == 12);
    assert(golden_positive(g_det(((0int, -1int), (0int, 1int), (2int, 3int)), ((-1int, -1int), (1int, 1int), (0int, 1int)), ((-1int, -1int), (-1int, -1int), (0int, -1int))))) by (nonlinear_arith);
    assert(triangle_front(PlatonicSolid::Dodecahedron, 0, 11));
    assert(PlatonicSolid::Dodecahedron.strip_entry(0, 12) == 1 && PlatonicSolid::Dodecahedron.strip_entry(0, 13) == 12 && PlatonicSolid::Dodecahedron.strip_entry(0, 14) == 3);
    assert(golden_positive(g_det(((0int, -1int), (0int, 1int), (2int, 3int)), ((-1int, -1int), (-1int, -1int), (0int, -1int)), ((-1int, 0int), (-1int, -2int), (2int, 3int))))) by (nonlinear_arith);
    assert(triangle_front(PlatonicSolid::Dodecahedron, 0, 12));
    assert(PlatonicSolid::Dodecahedron.strip_entry(0, 13) == 12 && PlatonicSolid::Dodecahedron.strip_entry(0, 14) == 3 && PlatonicSolid::Dodecahedron.strip_entry(0, 15) == 8);
    assert(golden_positive(g_det(((-1int, 0int), (-1int, -2int), (2int, 3int)), ((-1int, -1int), (-1int, -1int), (0int, -1int)), ((0int, -1int), (-2int, -3int), (0int, 1int))))) by (nonlinear_arith);
    assert(triangle_front(PlatonicSolid::Dodecahedron, 0, 13));
    assert(PlatonicSolid::Dodecahedron.strip_entry(0, 14) == 3 && PlatonicSolid::Dodecahedron.strip_entry(0, 15) == 8 && PlatonicSolid::Dodecahedron.strip_entry(0, 16) == 4);
    assert(golden_positive(g_det(((-1int, 0int), (-1int, -2int), (2int, 3int)), ((0int, -1int), (-2int, -3int), (0int, 1int)), ((1int, 0int), (-1int, -2int), (2int, 3int))))) by (nonlinear_arith);
    assert(triangle_front(PlatonicSolid::Dodecahedron, 0, 14));
    assert(PlatonicSolid::Dodecahedron.strip_entry(0, 15) == 8 && PlatonicSolid::Dodecahedron.strip_entry(0, 16) == 4 && PlatonicSolid::Dodecahedron.strip_entry(0, 17) == 9);
    assert(golden_positive(g_det(((1int, 0int), (-1int, -2int), (2int, 3int)), ((0int, -1int), (-2int, -3int), (0int, 1int)), ((0int, 1int), (-2int, -3int), (0int, 1int))))) by (nonlinear_arith);
    assert(triangle_front(PlatonicSolid::Dodecahedron, 0, 15));
    assert(PlatonicSolid::Dodecahedron.strip_entry(0, 16) == 4 && PlatonicSolid::Dodecahedron.strip_entry(0, 17) == 9 && PlatonicSolid::Dodecahedron.strip_entry(0, 18) == 7);
    assert(golden_positive(g_det(((1int, 0int), (-1int, -2int), (2int, 3int)), ((0int, 1int), (-2int, -3int), (0int, 1int)), ((1int, 1int), (1int, 1int), (0int, 1int))))) by (nonlinear_arith);
    assert(triangle_front(PlatonicSolid::Dodecahedron, 0, 16));
    assert(PlatonicSolid::Dodecahedron.strip_entry(0, 17) == 9 && PlatonicSolid::Dodecahedron.strip_entry(0, 18) == 7 && PlatonicSolid::Dodecahedron.strip_entry(0, 19) == 13);
    assert(golden_positive(g_det(((1int, 1int), (1int, 1int), (0int, 1int)), ((0int, 1int), (-2int, -3int), (0int, 1int)), ((1int, 1int), (-1int, -1int), (0int, -1int))))) by (nonlinear_arith);
    assert(triangle_front(PlatonicSolid::Dodecahedron, 0, 17));
    assert(PlatonicSolid::Dodecahedron.strip_entry(0, 18) == 7 && PlatonicSolid::Dodecahedron.strip_entry(0, 19) == 13 && PlatonicSolid::Dodecahedron.strip_entry(0, 20) == 11);
    assert(golden_positive(g_det(((1int, 1int), (1int, 1int), (0int, 1int)), ((1int, 1int), (-1int, -1int), (0int, -1int)), ((0int, 1int), (2int, 3int), (0int, -1int))))) by (nonlinear_arith);
    assert(triangle_front(PlatonicSolid::Dodecahedron, 0, 18));
    assert(PlatonicSolid::Dodecahedron.strip_entry(0, 19) == 13 && PlatonicSolid::Dodecahedron.strip_entry(0, 20) == 11 && PlatonicSolid::Dodecahedron.strip_entry(0, 21) == 16);
    assert(golden_positive(g_det(((0int, 1int), (2int, 3int), (0int, -1int)), ((1int, 1int), (-1int, -1int), (0int, -1int)), ((1int, 0int), (1int, 2int), (-2int, -3int))))) by (nonlinear_arith);
    assert(triangle_front(PlatonicSolid::Dodecahedron, 0, 19));
    assert(PlatonicSolid::Dodecahedron.strip_entry(0, 20) == 11 && PlatonicSolid::Dodecahedron.strip_entry(0, 21) == 16 && PlatonicSolid::Dodecahedron.strip_entry(0, 22) == 10);
    assert(golden_positive(g_det(((0int, 1int), (2int, 3int), (0int, -1int)), ((1int, 0int), (1int, 2int), (-2int, -3int)), ((0int, -1int), (2int, 3int), (0int, -1int))))) by (nonlinear_arith);
    assert(triangle_front(PlatonicSolid::Dodecahedron, 0, 20));
    assert(PlatonicSolid::Dodecahedron.strip_entry(0, 21) == 16 && PlatonicSolid::Dodecahedron.strip_entry(0, 22) == 10 && PlatonicSolid::Dodecahedron.strip_entry(0, 23) == 15);
    assert(golden_positive(g_det(((0int, -1int), (2int, 3int), (0int, -1int)), ((1int, 0int), (1int, 2int), (-2int, -3int)), ((-1int, 0int), (1int, 2int), (-2int, -3int))))) by (nonlinear_arith);
    assert(triangle_front(PlatonicSolid::Dodecahedron, 0, 21));
    assert(PlatonicSolid::Dodecahedron.strip_entry(0, 22) == 10 && PlatonicSolid::Dodecahedron.strip_entry(0, 23) == 15 && PlatonicSolid::Dodecahedron.strip_entry(0, 24) == 6);
    assert(golden_positive(g_det(((0int, -1int), (2int, 3int), (0int, -1int)), ((-1int, 0int), (1int, 2int), (-2int, -3int)), ((-1int, -1int), (1int, 1int), (0int, 1int))))) by (nonlinear_arith);
    assert(triangle_front(PlatonicSolid::Dodecahedron, 0, 22));
    assert(PlatonicSolid::Dodecahedron.strip_entry(0, 23) == 15 && PlatonicSolid::Dodecahedron.strip_entry(0, 24) == 6 && PlatonicSolid::Dodecahedron.strip_entry(0, 25) == 17);
    assert(golden_positive(g_det(((-1int, -1int), (1int, 1int), (0int, 1int)), ((-1int, 0int), (1int, 2int), (-2int, -3int)), ((0int, -1int), (0int, -1int), (-2int, -3int))))) by (nonlinear_arith);
    assert(triangle_front(PlatonicSolid::Dodecahedron, 0, 23));
    assert(PlatonicSolid::Dodecahedron.strip_entry(0, 24) == 6 && PlatonicSolid::Dodecahedron.strip_entry(0, 25) == 17 && PlatonicSolid::Dodecahedron.strip_entry(0, 26) == 12);
    assert(golden_positive(g_det(((-1int, -1int), (1int, 1int), (0int, 1int)), ((0int, -1int), (0int, -1int), (-2int, -3int)), ((-1int, -1int), (-1int, -1int), (0int, -1int))))) by (nonlinear_arith);
    assert(triangle_front(PlatonicSolid::Dodecahedron, 0, 24));
    assert(PlatonicSolid::Dodecahedron.strip_entry(0, 25) == 17 && PlatonicSolid::Dodecahedron.strip_entry(0, 26) == 12 && PlatonicSolid::Dodecahedron.strip_entry(0, 27) == 19);
    assert(golden_positive(g_det(((-1int, -1int), (-1int, -1int), (0int, -1int)), ((0int, -1int), (0int, -1int), (-2int, -3int)), ((0int, 0int), (-2int, -2int), (-2int, -3int))))) by (nonlinear_arith);
    assert(triangle_front(PlatonicSolid::Dodecahedron, 0, 25));
    assert(PlatonicSolid::Dodecahedron.strip_entry(0, 26) == 12 && PlatonicSolid::Dodecahedron.strip_entry(0, 27) == 19 && PlatonicSolid::Dodecahedron.strip_entry(0, 28) == 8);
    assert(golden_positive(g_det(((-1int, -1int), (-1int, -1int), (0int, -1int)), ((0int, 0int), (-2int, -2int), (-2int, -3int)), ((0int, -1int), (-2int, -3int), (0int, 1int))))) by (nonlinear_arith);
    assert(triangle_front(PlatonicSolid::Dodecahedron, 0, 26));
    assert(PlatonicSolid::Dodecahedron.strip_entry(0, 27) == 19 && PlatonicSolid::Dodecahedron.strip_entry(0, 28) == 8 && PlatonicSolid::Dodecahedron.strip_entry(0, 29) == 14);
    assert(golden_positive(g_det(((0int, -1int), (-2int, -3int), (0int, 1int)), ((0int, 0int), (-2int, -2int), (-2int, -3int)), ((0int, 0int), (-2int, -4int), (0int, -1int))))) by (nonlinear_arith);
    assert(triangle_front(PlatonicSolid::Dodecahedron, 0, 27));
    assert(PlatonicSolid::Dodecahedron.strip_entry(0, 28) == 8 && PlatonicSolid::Dodecahedron.strip_entry(0, 29) == 14 && PlatonicSolid::Dodecahedron.strip_entry(0, 30) == 9);
    assert(golden_positive(g_det(((0int, -1int), (-2int, -3int), (0int, 1int)), ((0int, 0int), (-2int, -4int), (0int, -1int)), ((0int, 1int), (-2int, -3int), (0int, 1int))))) by (nonlinear_arith);
    assert(triangle_front(PlatonicSolid::Dodecahedron, 0, 28));
    assert(PlatonicSolid::Dodecahedron.strip_entry(0, 29) == 14 && PlatonicSolid::Dodecahedron.strip_entry(0, 30) == 9 && PlatonicSolid::Dodecahedron.strip_entry(0, 31) == 19);
    assert(golden_positive(g_det(((0int, 1int), (-2int, -3int), (0int, 1int)), ((0int, 0int), (-2int, -4int), (0int, -1int)), ((0int, 0int), (-2int, -2int), (-2int, -3int))))) by (nonlinear_arith);
    assert(triangle_front(PlatonicSolid::Dodecahedron, 0, 29));
    assert(PlatonicSolid::Dodecahedron.strip_entry(0, 30) == 9 && PlatonicSolid::Dodecahedron.strip_entry(0, 31) == 19 && PlatonicSolid::Dodecahedron.strip_entry(0, 32) == 13);
    assert(golden_positive(g_det(((0int, 1int), (-2int, -3int), (0int, 1int)), ((0int, 0int), (-2int, -2int), (-2int, -3int)), ((1int, 1int), (-1int, -1int), (0int, -1int))))) by (nonlinear_arith);
    assert(triangle_front(PlatonicSolid::Dodecahedron, 0, 30));
    assert(PlatonicSolid::Dodecahedron.strip_entry(0, 31) == 19 && PlatonicSolid::Dodecahedron.strip_entry(0, 32) == 13 && PlatonicSolid::Dodecahedron.strip_entry(0, 33) == 18);
    assert(golden_positive(g_det(((1int, 1int), (-1int, -1int), (0int, -1int)), ((0int, 0int), (-2int, -2int), (-2int, -3int)), ((0int, 1int), (0int, -1int), (-2int, -3int))))) by (nonlinear_arith);
    assert(triangle_front(PlatonicSolid::Dodecahedron, 0, 31));
    assert(PlatonicSolid::Dodecahedron.strip_entry(0, 32) == 13 && PlatonicSolid::Dodecahedron.strip_entry(0, 33) == 18 && PlatonicSolid::Dodecahedron.strip_entry(0, 34) == 16);
    assert(golden_positive(g_det(((1int, 1int), (-1int, -1int), (0int, -1int)), ((0int, 1int), (0int, -1int), (-2int, -3int)), ((1int, 0int), (1int, 2int), (-2int, -3int))))) by (nonlinear_arith);
    assert(triangle_front(PlatonicSolid::Dodecahedron, 0, 32));
    assert(PlatonicSolid::Dodecahedron.strip_entry(0, 33) == 18 && PlatonicSolid::Dodecahedron.strip_entry(0, 34) == 16 && PlatonicSolid::Dodecahedron.strip_entry(0, 35) == 19);
    assert(golden_positive(g_det(((1int, 0int), (1int, 2int), (-2int, -3int)), ((0int, 1int), (0int, -1int), (-2int, -3int)), ((0int, 0int), (-2int, -2int), (-2int, -3int))))) by (nonlinear_arith);
    assert(triangle_front(PlatonicSolid::Dodecahedron, 0, 33));
    assert(PlatonicSolid::Dodecahedron.strip_entry(0, 34) == 16 && PlatonicSolid::Dodecahedron.strip_entry(0, 35) == 19 && PlatonicSolid::Dodecahedron.strip_entry(0, 36) == 15);
    assert(golden_positive(g_det(((1int, 0int), (1int, 2int), (-2int, -3int)), ((0int, 0int), (-2int, -2int), (-2int, -3int)), ((-1int, 0int), (1int, 2int), (-2int, -3int))))) by (nonlinear_arith);
    assert(triangle_front(PlatonicSolid::Dodecahedron, 0, 34));
    assert(PlatonicSolid::Dodecahedron.strip_entry(0, 35) == 19 && PlatonicSolid::Dodecahedron.strip_entry(0, 36) == 15 && PlatonicSolid::Dodecahedron.strip_entry(0, 37) == 17);
    assert(golden_positive(g_det(((-1int, 0int), (1int, 2int), (-2int, -3int)), ((0int, 0int), (-2int, -2int), (-2int, -3int)), ((0int, -1int), (0int, -1int), (-2int, -3int))))) by (nonlinear_arith);
    assert(triangle_front(PlatonicSolid::Dodecahedron, 0, 35));
    assert forall|k: int, j: int|
        0 <= k < PlatonicSolid::Dodecahedron.strip_count() && 0 <= j && j + 2 < PlatonicSolid::Dodecahedron.strip_len(k)
        implies #[trigger] triangle_front(PlatonicSolid::Dodecahedron, k, j) by {
        if k == 0 {
            if j == 0 {} else if j == 1 {} else if j == 2 {} else if j == 3 {} else if j == 4 {} else if j == 5 {} else if j == 6 {} else if j == 7 {} else if j == 8 {} else if j == 9 {} else if j == 10 {} else if j == 11 {} else if j == 12 {} else if j == 13 {} else if j == 14 {} else if j == 15 {} else if j == 16 {} else if j == 17 {} else if j == 18 {} else if j == 19 {} else if j == 20 {} else if j == 21 {} else if j == 22 {} else if j == 23 {} else if j == 24 {} else if j == 25 {} else if j == 26 {} else if j == 27 {} else if j == 28 {} else if j == 29 {} else if j == 30 {} else if j == 31 {} else if j == 32 {} else if j == 33 {} else if j == 34 {} else if j == 35 {}
        }
    }
}

#[verifier::spinoff_prover]
#[verifier::rlimit(100)]
pub(crate) proof fn lemma_icosahedron_strip_fronts()
    ensures
        forall|k: int, j: int|
            0 <= k < PlatonicSolid::Icosahedron.strip_count() && 0 <= j && j + 2 < PlatonicSolid::Icosahedron.strip_len(k)
                ==> #[trigger] triangle_front(PlatonicSolid::Icosahedron, k, j),
{
    assert(row_coefficients(PlatonicSolid::Icosahedron.model_row(0)) == ((0int, 0int), (-1int, 2int), (0int, 0int)));
    assert(row_coefficients(PlatonicSolid::Icosahedron.model_row(1)) == ((0int, 0int), (1int, 0int), (-2int, -2int)));
    assert(row_coefficients(PlatonicSolid::Icosahedron.model_row(2)) == ((0int, -1int), (1int, 0int), (0int, -1int)));
    assert(row_coefficients(PlatonicSolid::Icosahedron.model_row(3)) == ((0int, 1int), (1int, 0int), (0int, -1int)));
    assert(row_coefficients(PlatonicSolid::Icosahedron.model_row(4)) == ((-1int, 0int), (1int, 0int), (1int, 2int)));
    assert(row_coefficients(PlatonicSolid::Icosahedron.model_row(5)) == ((1int, 0int), (1int, 0int), (1int, 2int)));
    assert(row_coefficients(PlatonicSolid::Icosahedron.model_row(6)) == ((-1int, 0int), (-1int, 0int), (-1int, -2int)));
    assert(row_coefficients(PlatonicSolid::Icosahedron.model_row(7)) == ((1int, 0int), (-1int, 0int), (-1int, -2int)));
    assert(row_coefficients(PlatonicSolid::Icosahedron.model_row(8)) == ((0int, -1int), (-1int, 0int), (0int, 1int)));
    assert(row_coefficients(PlatonicSolid::Icosahedron.model_row(9)) == ((0int, 1int), (-1int, 0int), (0int, 1int)));
    assert(row_coefficients(PlatonicSolid::Icosahedron.model_row(10)) == ((0int, 0int), (-1int, 0int), (2int, 2int)));
    assert(row_coefficients(PlatonicSolid::Icosahedron.model_row(11)) == ((0int, 0int), (1int, -2int), (0int, 0int)));
    assert(PlatonicSolid::Icosahedron.strip_entry(0, 0) == 0 && PlatonicSolid::Icosahedron.strip_entry(0, 1) == 1 && PlatonicSolid::Icosahedron.strip_entry(0, 2) == 2);
    assert(golden_positive(g_det(((0int, 0int), (-1int, 2int), (0int, 0int)), ((0int, 0int), (1int, 0int), (-2int, -2int)), ((0int, -1int), (1int, 0int), (0int, -1int))))) by (nonlinear_arith);
    assert(triangle_front(PlatonicSolid::Icosahedron, 0, 0));
    assert(PlatonicSolid::Icosahedron.strip_entry(0, 1) == 1 && PlatonicSolid::Icosahedron.strip_entry(0, 2) == 2 && PlatonicSolid::Icosahedron.strip_entry(0, 3) == 6);
    assert(golden_positive(g_det(((0int, -1int), (1int, 0int), (0int, -1int)), ((0int, 0int), (1int, 0int), (-2int, -2int)), ((-1int, 0int), (-1int, 0int), (-1int, -2int))))) by (nonlinear_arith);
    assert(triangle_front(PlatonicSolid::Icosahedron, 0, 1));
    assert(PlatonicSolid::Icosahedron.strip_entry(0, 2) == 2 && PlatonicSolid::Icosahedron.strip_entry(0, 3) == 6 && PlatonicSolid::Icosahedron.strip_entry(0, 4) == 8);
    assert(golden_positive(g_det(((0int, -1int), (1int, 0int), (0int, -1int)), ((-1int, 0int), (-1int, 0int), (-1int, -2int)), ((0int, -1int), (-1int, 0int), (0int, 1int))))) by (nonlinear_arith);
    assert(triangle_front(PlatonicSolid::Icosahedron, 0, 2));
    assert(PlatonicSolid::Icosahedron.strip_entry(0, 3) == 6 && PlatonicSolid::Icosahedron.strip_entry(0, 4) == 8 && PlatonicSolid::Icosahedron.strip_entry(0, 5) == 11);
    assert(golden_positive(g_det(((0int, -1int), (-1int, 0int), (0int, 1int)), ((-1int, 0int), (-1int, 0int), (-1int, -2int)), ((0int, 0int), (1int, -2int), (0int, 0int))))) by (nonlinear_arith);
    assert(triangle_front(PlatonicSolid::Icosahedron, 0, 3));
    assert(PlatonicSolid::Icosahedron.strip_entry(0, 4) == 8 && PlatonicSolid::Icosahedron.strip_entry(0, 5) == 11 && PlatonicSolid::Icosahedron.strip_entry(0, 6) == 10);
    assert(golden_positive(g_det(((0int, -1int), (-1int, 0int), (0int, 1int)), ((0int, 0int), (1int, -2int), (0int, 0int)), ((0int, 0int), (-1int, 0int), (2int, 2int))))) by (nonlinear_arith);
    assert(triangle_front(PlatonicSolid::Icosahedron, 0, 4));
    assert(PlatonicSolid::Icosahedron.strip_entry(0, 5) == 11 && PlatonicSolid::Icosahedron.strip_entry(0, 6) == 10 && PlatonicSolid::Icosahedron.strip_entry(0, 7) == 9);
    assert(golden_positive(g_det(((0int, 0int), (-1int, 0int), (2int, 2int)), ((0int, 0int), (1int, -2int), (0int, 0int)), ((0int, 1int), (-1int, 0int), (0int, 1int))))) by (nonlinear_arith);
    assert(triangle_front(PlatonicSolid::Icosahedron, 0, 5));
    assert(PlatonicSolid::Icosahedron.strip_entry(0, 6) == 10 && PlatonicSolid::Icosahedron.strip_entry(0, 7) == 9 && PlatonicSolid::Icosahedron.strip_entry(0, 8) == 5);
    assert(golden_positive(g_det(((0int, 0int), (-1int, 0int), (2int, 2int)), ((0int, 1int), (-1int, 0int), (0int, 1int)), ((1int, 0int), (1int, 0int), (1int, 2int))))) by (nonlinear_arith);
    assert(triangle_front(PlatonicSolid::Icosahedron, 0, 6));
    assert(PlatonicSolid::Icosahedron.strip_entry(1, 0) == 2 && PlatonicSolid::Icosahedron.strip_entry(1, 1) == 4 && PlatonicSolid::Icosahedron.strip_entry(1, 2) == 0);
    assert(golden_positive(g_det(((0int, -1int), (1int, 0int), (0int, -1int)), ((-1int, 0int), (1int, 0int), (1int, 2int)), ((0int, 0int), (-1int, 2int), (0int, 0int))))) by (nonlinear_arith);
    assert(triangle_front(PlatonicSolid::Icosahedron, 1, 0));
    assert(PlatonicSolid::Icosahedron.strip_entry(1, 1) == 4 && PlatonicSolid::Icosahedron.strip_entry(1, 2) == 0 && PlatonicSolid::Icosahedron.strip_entry(1, 3) == 5);
    assert(golden_positive(g_det(((0int, 0int), (-1int, 2int), (0int, 0int)), ((-1int, 0int), (1int, 0int), (1int, 2int)), ((1int, 0int), (1int, 0int), (1int, 2int))))) by (nonlinear_arith);
    assert(triangle_front(PlatonicSolid::Icosahedron, 1, 1));
    assert(PlatonicSolid::Icosahedron.strip_entry(1, 2) == 0 && PlatonicSolid::Icosahedron.strip_entry(1, 3) == 5 && PlatonicSolid::Icosahedron.strip_entry(1, 4) == 3);
    assert(golden_positive(g_det(((0int, 0int), (-1int, 2int), (0int, 0int)), ((1int, 0int), (1int, 0int), (1int, 2int)), ((0int, 1int), (1int, 0int), (0int, -1int))))) by (nonlinear_arith);
    assert(triangle_front(PlatonicSolid::Icosahedron, 1, 2));
    assert(PlatonicSolid::Icosahedron.strip_entry(1, 3) == 5 && PlatonicSolid::Icosahedron.strip_entry(1, 4) == 3 && PlatonicSolid::Icosahedron.strip_entry(1, 5) == 9);
    assert(golden_positive(g_det(((0int, 1int), (1int, 0int), (0int, -1int)), ((1int, 0int), (1int, 0int), (1int, 2int)), ((0int, 1int), (-1int, 0int), (0int, 1int))))) by (nonlinear_arith);
    assert(triangle_front(PlatonicSolid::Icosahedron, 1, 3));
    assert(PlatonicSolid::Icosahedron.strip_entry(1, 4) == 3 && PlatonicSolid::Icosahedron.strip_entry(1, 5) == 9 && PlatonicSolid::Icosahedron.strip_entry(1, 6) == 7);
    assert(golden_positive(g_det(((0int, 1int), (1int, 0int), (0int, -1int)), ((0int, 1int), (-1int, 0int), (0int, 1int)), ((1int, 0int), (-1int, 0int), (-1int, -2int))))) by (nonlinear_arith);
    assert(triangle_front(PlatonicSolid::Icosahedron, 1, 4));
    assert(PlatonicSolid::Icosahedron.strip_entry(1, 5) == 9 && PlatonicSolid::Icosahedron.strip_entry(1, 6) == 7 && PlatonicSolid::Icosahedron.strip_entry(1, 7) == 11);
    assert(golden_positive(g_det(((1int, 0int), (-1int, 0int), (-1int, -2int)), ((0int, 1int), (-1int, 0int), (0int, 1int)), ((0int, 0int), (1int, -2int), (0int, 0int))))) by (nonlinear_arith);
    assert(triangle_front(PlatonicSolid::Icosahedron, 1, 5));
    assert(PlatonicSolid::Icosahedron.strip_entry(1, 6) == 7 && PlatonicSolid::Icosahedron.strip_entry(1, 7) == 11 && PlatonicSolid::Icosahedron.strip_entry(1, 8) == 6);
    assert(golden_positive(g_det(((1int, 0int), (-1int, 0int), (-1int, -2int)), ((0int, 0int), (1int, -2int), (0int, 0int)), ((-1int, 0int), (-1int, 0int), (-1int, -2int))))) by (nonlinear_arith);
    assert(triangle_front(PlatonicSolid::Icosahedron, 1, 6));
    assert(PlatonicSolid::Icosahedron.strip_entry(2, 0) == 0 && PlatonicSolid::Icosahedron.strip_entry(2, 1) == 3 && PlatonicSolid::Icosahedron.strip_entry(2, 2) == 1);
    assert(golden_positive(g_det(((0int, 0int), (-1int, 2int), (0int, 0int)), ((0int, 1int), (1int, 0int), (0int, -1int)), ((0int, 0int), (1int, 0int), (-2int, -2int))))) by (nonlinear_arith);
    assert(triangle_front(PlatonicSolid::Icosahedron, 2, 0));
    assert(PlatonicSolid::Icosahedron.strip_entry(2, 1) == 3 && PlatonicSolid::Icosahedron.strip_entry(2, 2) == 1 && PlatonicSolid::Icosahedron.strip_entry(2, 3) == 7);
    assert(golden_positive(g_det(((0int, 0int), (1int, 0int), (-2int, -2int)), ((0int, 1int), (1int, 0int), (0int, -1int)), ((1int, 0int), (-1int, 0int), (-1int, -2int))))) by (nonlinear_arith);
    assert(triangle_front(PlatonicSolid::Icosahedron, 2, 1));
    assert(PlatonicSolid::Icosahedron.strip_entry(2, 2) == 1 && PlatonicSolid::Icosahedron.strip_entry(2, 3) == 7 && PlatonicSolid::Icosahedron.strip_entry(2, 4) == 6);
    assert(golden_positive(g_det(((0int, 0int), (1int, 0int), (-2int, -2int)), ((1int, 0int), (-1int, 0int), (-1int, -2int)), ((-1int, 0int), (-1int, 0int), (-1int, -2int))))) by (nonlinear_arith);
    assert(triangle_front(PlatonicSolid::Icosahedron, 2, 2));
    assert(PlatonicSolid::Icosahedron.strip_entry(3, 0) == 2 && PlatonicSolid::Icosahedron.strip_entry(3, 1) == 8 && PlatonicSolid::Icosahedron.strip_entry(3, 2) == 4);
    assert(golden_positive(g_det(((0int, -1int), (1int, 0int), (0int, -1int)), ((0int, -1int), (-1int, 0int), (0int, 1int)), ((-1int, 0int), (1int, 0int), (1int, 2int))))) by (nonlinear_arith);
    assert(triangle_front(PlatonicSolid::Icosahedron, 3, 0));
    assert(PlatonicSolid::Icosahedron.strip_entry(3, 1) == 8 && PlatonicSolid::Icosahedron.strip_entry(3, 2) == 4 && PlatonicSolid::Icosahedron.strip_entry(3, 3) == 10);
    assert(golden_positive(g_det(((-1int, 0int), (1int, 0int), (1int, 2int)), ((0int, -1int), (-1int, 0int), (0int, 1int)), ((0int, 0int), (-1int, 0int), (2int, 2int))))) by (nonlinear_arith);
    assert(triangle_front(PlatonicSolid::Icosahedron, 3, 1));
    assert(PlatonicSolid::Icosahedron.strip_entry(3, 2) == 4 && PlatonicSolid::Icosahedron.strip_entry(3, 3) == 10 && PlatonicSolid::Icosahedron.strip_entry(3, 4) == 5);
    assert(golden_positive(g_det(((-1int, 0int), (1int, 0int), (1int, 2int)), ((0int, 0int), (-1int, 0int), (2int, 2int)), ((1int, 0int), (1int, 0int), (1int, 2int))))) by (nonlinear_arith);
    assert(triangle_front(PlatonicSolid::Icosahedron, 3, 2));
    assert forall|k: int, j: int|
        0 <= k < PlatonicSolid::Icosahedron.strip_count() && 0 <= j && j + 2 < PlatonicSolid::Icosahedron.strip_len(k)
        implies #[trigger] triangle_front(PlatonicSolid::Icosahedron, k, j) by {
        if k == 0 {
            if j == 0 {} else if j == 1 {} else if j == 2 {} else if j == 3 {} else if j == 4 {} else if j == 5 {} else if j == 6 {}
        } else if k == 1 {
            if j == 0 {} else if j == 1 {} else if j == 2 {} else if j == 3 {} else if j == 4 {} else if j == 5 {} else if j == 6 {}
        } else if k == 2 {
            if j == 0 {} else if j == 1 {} else if j == 2 {}
        } else if k == 3 {
            if j == 0 {} else if j == 1 {} else if j == 2 {}
        }
    }
}

pub(crate) proof fn lemma_strip_fronts(solid: PlatonicSolid)
    ensures
        forall|k: int, j: int|
            0 <= k < solid.strip_count() && 0 <= j && j + 2 < solid.strip_len(k) ==> #[trigger] triangle_front(
                solid,
                k,
                j,
            ),
{
    match solid {
        PlatonicSolid::Tetrahedron => lemma_tetrahedron_strip_fronts(),
        PlatonicSolid::Hexahedron => lemma_hexahedron_strip_fronts(),
        PlatonicSolid::Octahedron => lemma_octahedron_strip_fronts(),
        PlatonicSolid::Dodecahedron => lemma_dodecahedron_strip_fronts(),
        PlatonicSolid::Icosahedron => lemma_icosahedron_strip_fronts(),
    }
}

} // verus!
