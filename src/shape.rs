//! The generated mesh, the `Shaper` capability, and the reading of triangle
//! strips as faces.
use vstd::prelude::*;

use crate::orientation::Configuration;

verus! {

/// A triangle as three vertex indices, in its front-facing order.
pub type Face = (u32, u32, u32);

/// A generated mesh: vertices of type `P` and connectivity.
pub enum Shape<P> {
    /// A triangle list with one normal for the whole (flat) shape.
    NormalTriangles { vertices: Vec<P>, normals: Vec<P>, indices: Vec<u32> },
    /// A triangle list: the indices in groups of three, each a front face.
    Triangles { vertices: Vec<P>, indices: Vec<u32> },
    /// Triangle strips: each run of three consecutive indices is a triangle,
    /// every second one with its first two corners swapped.
    Strips { vertices: Vec<P>, strips: Vec<Vec<u32>> },
}

/// The mathematical content of a `Shape`.
pub enum ShapeView<P> {
    NormalTriangles { vertices: Seq<P>, normals: Seq<P>, indices: Seq<u32> },
    Triangles { vertices: Seq<P>, indices: Seq<u32> },
    Strips { vertices: Seq<P>, strips: Seq<Seq<u32>> },
}

impl<P> ShapeView<P> {
    pub open spec fn vertices(self) -> Seq<P> {
        match self {
            ShapeView::NormalTriangles { vertices, .. } => vertices,
            ShapeView::Triangles { vertices, .. } => vertices,
            ShapeView::Strips { vertices, .. } => vertices,
        }
    }

    /// The front faces that the connectivity describes, degenerate strip
    /// triangles left out.
    pub open spec fn faces(self) -> Seq<Face> {
        match self {
            ShapeView::NormalTriangles { indices, .. } => list_faces(indices),
            ShapeView::Triangles { indices, .. } => list_faces(indices),
            ShapeView::Strips { strips, .. } => strips_faces(strips),
        }
    }
}

/// The views of a list of strips.
pub open spec fn strips_view(strips: Seq<Vec<u32>>) -> Seq<Seq<u32>> {
    strips.map_values(|s: Vec<u32>| s@)
}

impl<P> View for Shape<P> {
    type V = ShapeView<P>;

    open spec fn view(&self) -> ShapeView<P> {
        match self {
            Shape::NormalTriangles { vertices, normals, indices } => ShapeView::NormalTriangles {
                vertices: vertices@,
                normals: normals@,
                indices: indices@,
            },
            Shape::Triangles { vertices, indices } => ShapeView::Triangles {
                vertices: vertices@,
                indices: indices@,
            },
            Shape::Strips { vertices, strips } => ShapeView::Strips {
                vertices: vertices@,
                strips: strips_view(strips@),
            },
        }
    }
}

impl<P> Shape<P> {
    pub fn vertices(&self) -> (r: &Vec<P>)
        ensures
            r@ == self@.vertices(),
    {
        match self {
            Shape::NormalTriangles { vertices, .. } => vertices,
            Shape::Triangles { vertices, .. } => vertices,
            Shape::Strips { vertices, .. } => vertices,
        }
    }
}

/// Builds a well-defined `Shape` on demand.
pub trait Shaper<P> {
    fn make(&self, request: Configuration) -> Shape<P>;
}

/// The `j`-th triangle of strip `s`, in front-facing order.
pub open spec fn strip_triangle(s: Seq<u32>, j: int) -> Face {
    if j % 2 == 0 {
        (s[j], s[j + 1], s[j + 2])
    } else {
        (s[j + 1], s[j], s[j + 2])
    }
}

/// A triangle with a repeated corner, which covers no area.
pub open spec fn is_degenerate(t: Face) -> bool {
    t.0 == t.1 || t.1 == t.2 || t.0 == t.2
}

/// The faces among the first `n` triangles of strip `s`.
pub open spec fn strip_faces_upto(s: Seq<u32>, n: int) -> Seq<Face>
    decreases n,
{
    if n <= 0 {
        seq![]
    } else {
        let prev = strip_faces_upto(s, n - 1);
        let t = strip_triangle(s, n - 1);
        if is_degenerate(t) {
            prev
        } else {
            prev.push(t)
        }
    }
}

/// The faces of strip `s`.
pub open spec fn strip_faces(s: Seq<u32>) -> Seq<Face> {
    strip_faces_upto(s, s.len() - 2)
}

/// The faces of a list of strips, strip after strip.
pub open spec fn strips_faces(ss: Seq<Seq<u32>>) -> Seq<Face>
    decreases ss.len(),
{
    if ss.len() == 0 {
        seq![]
    } else {
        strips_faces(ss.drop_last()) + strip_faces(ss.last())
    }
}

/// The triangle list that holds faces `fs` in order.
pub open spec fn face_indices(fs: Seq<Face>) -> Seq<u32>
    decreases fs.len(),
{
    if fs.len() == 0 {
        seq![]
    } else {
        face_indices(fs.drop_last()) + seq![fs.last().0, fs.last().1, fs.last().2]
    }
}

/// The faces of a triangle list.
pub open spec fn list_faces(ix: Seq<u32>) -> Seq<Face> {
    Seq::new(ix.len() / 3, |k: int| (ix[3 * k], ix[3 * k + 1], ix[3 * k + 2]))
}

proof fn lemma_face_indices_push(fs: Seq<Face>, t: Face)
    ensures
        face_indices(fs.push(t)) == face_indices(fs) + seq![t.0, t.1, t.2],
{
    assert(fs.push(t).drop_last() =~= fs);
}

proof fn lemma_face_indices_shape(fs: Seq<Face>)
    ensures
        face_indices(fs).len() == 3 * fs.len(),
        forall|k: int|
            0 <= k < fs.len() ==> {
                &&& #[trigger] face_indices(fs)[3 * k] == fs[k].0
                &&& face_indices(fs)[3 * k + 1] == fs[k].1
                &&& face_indices(fs)[3 * k + 2] == fs[k].2
            },
    decreases fs.len(),
{
    if fs.len() > 0 {
        let prev = fs.drop_last();
        lemma_face_indices_shape(prev);
        assert forall|k: int| 0 <= k < fs.len() implies {
            &&& #[trigger] face_indices(fs)[3 * k] == fs[k].0
            &&& face_indices(fs)[3 * k + 1] == fs[k].1
            &&& face_indices(fs)[3 * k + 2] == fs[k].2
        } by {
            if k < prev.len() {
                assert(face_indices(prev)[3 * k] == prev[k].0);
            }
        }
    }
}

/// Reading a triangle list back gives the faces it was written from.
pub proof fn lemma_list_faces_of_face_indices(fs: Seq<Face>)
    ensures
        list_faces(face_indices(fs)) == fs,
{
    lemma_face_indices_shape(fs);
    let l = list_faces(face_indices(fs));
    assert forall|k: int| 0 <= k < fs.len() implies #[trigger] l[k] == fs[k] by {
        assert(face_indices(fs)[3 * k] == fs[k].0);
    }
    assert(l =~= fs);
}

/// A strip without degenerate triangles has each of its triangles as a face,
/// in order.
pub proof fn lemma_strip_faces_upto_all(s: Seq<u32>, m: int)
    requires
        0 <= m <= s.len() - 2,
        forall|j: int| 0 <= j < m ==> !is_degenerate(#[trigger] strip_triangle(s, j)),
    ensures
        strip_faces_upto(s, m) == Seq::new(m as nat, |j: int| strip_triangle(s, j)),
    decreases m,
{
    if m > 0 {
        lemma_strip_faces_upto_all(s, m - 1);
        assert(!is_degenerate(strip_triangle(s, m - 1)));
        assert(strip_faces_upto(s, m) =~= Seq::new(m as nat, |j: int| strip_triangle(s, j)));
    } else {
        assert(strip_faces_upto(s, m) =~= Seq::new(m as nat, |j: int| strip_triangle(s, j)));
    }
}

/// Whether `t` is one of the triangles of strips `ss`.
pub open spec fn is_strip_triangle(ss: Seq<Seq<u32>>, t: Face) -> bool {
    exists|k: int, j: int|
        0 <= k < ss.len() && 0 <= j && j + 2 < ss[k].len() && t == #[trigger] strip_triangle(ss[k], j)
}

proof fn lemma_strip_faces_upto_from(s: Seq<u32>, n: int)
    requires
        n <= s.len() - 2,
    ensures
        forall|i: int|
            0 <= i < strip_faces_upto(s, n).len() ==> !is_degenerate(strip_faces_upto(s, n)[i]) && exists|j: int|
                0 <= j < n && #[trigger] strip_faces_upto(s, n)[i] == strip_triangle(s, j),
    decreases n,
{
    if n > 0 {
        lemma_strip_faces_upto_from(s, n - 1);
        let prev = strip_faces_upto(s, n - 1);
        let cur = strip_faces_upto(s, n);
        assert forall|i: int| 0 <= i < cur.len() implies !is_degenerate(cur[i]) && exists|j: int|
            0 <= j < n && #[trigger] cur[i] == strip_triangle(s, j) by {
            if i < prev.len() {
                let j = choose|j: int| 0 <= j < n - 1 && #[trigger] prev[i] == strip_triangle(s, j);
                assert(cur[i] == strip_triangle(s, j));
            } else {
                assert(cur[i] == strip_triangle(s, n - 1));
            }
        }
    }
}

/// Every face of a list of strips is one of the strips' triangles.
pub proof fn lemma_strips_faces_are_strip_triangles(ss: Seq<Seq<u32>>)
    ensures
        forall|i: int|
            0 <= i < strips_faces(ss).len() ==> #[trigger] is_strip_triangle(ss, strips_faces(ss)[i])
                && !is_degenerate(strips_faces(ss)[i]),
    decreases ss.len(),
{
    if ss.len() > 0 {
        let prev = ss.drop_last();
        let s = ss.last();
        lemma_strips_faces_are_strip_triangles(prev);
        lemma_strip_faces_upto_from(s, s.len() - 2);
        let fs = strips_faces(ss);
        let pf = strips_faces(prev);
        let sf = strip_faces(s);
        assert(fs == pf + sf);
        assert forall|i: int| 0 <= i < fs.len() implies #[trigger] is_strip_triangle(ss, fs[i]) && !is_degenerate(fs[i]) by {
            if i < pf.len() {
                assert(fs[i] == pf[i]);
                assert(is_strip_triangle(prev, pf[i]));
                let (k, j) = choose|k: int, j: int|
                    0 <= k < prev.len() && 0 <= j && j + 2 < prev[k].len() && pf[i] == #[trigger] strip_triangle(prev[k], j);
                assert(prev[k] == ss[k]);
                assert(fs[i] == strip_triangle(ss[k], j));
            } else {
                assert(fs[i] == sf[i - pf.len()]);
                let j = choose|j: int| 0 <= j < s.len() - 2 && #[trigger] sf[i - pf.len()] == strip_triangle(s, j);
                assert(ss[ss.len() - 1] == s);
                assert(fs[i] == strip_triangle(ss[ss.len() - 1], j));
            }
        }
    }
}

/// The number of triangles in strips `ss`, degenerate ones included.
pub open spec fn strip_triangle_total(ss: Seq<Seq<u32>>) -> int
    decreases ss.len(),
{
    if ss.len() == 0 {
        0
    } else {
        strip_triangle_total(ss.drop_last()) + ss.last().len() - 2
    }
}

/// Strips without degenerate triangles have all their triangles as faces.
pub proof fn lemma_strips_faces_len(ss: Seq<Seq<u32>>)
    requires
        forall|k: int| 0 <= k < ss.len() ==> #[trigger] ss[k].len() >= 2,
        forall|k: int, j: int|
            0 <= k < ss.len() && 0 <= j && j + 2 < ss[k].len() ==> !is_degenerate(
                #[trigger] strip_triangle(ss[k], j),
            ),
    ensures
        strips_faces(ss).len() == strip_triangle_total(ss),
    decreases ss.len(),
{
    if ss.len() > 0 {
        let prev = ss.drop_last();
        let s = ss.last();
        assert forall|k: int| 0 <= k < prev.len() implies #[trigger] prev[k].len() >= 2 by {
            assert(prev[k] == ss[k]);
        }
        assert forall|k: int, j: int| 0 <= k < prev.len() && 0 <= j && j + 2 < prev[k].len() implies !is_degenerate(
            #[trigger] strip_triangle(prev[k], j),
        ) by {
            assert(prev[k] == ss[k]);
        }
        lemma_strips_faces_len(prev);
        assert(s == ss[ss.len() - 1]);
        assert forall|j: int| 0 <= j < s.len() - 2 implies !is_degenerate(#[trigger] strip_triangle(s, j)) by {
            assert(!is_degenerate(strip_triangle(ss[ss.len() - 1], j)));
        }
        lemma_strip_faces_upto_all(s, s.len() - 2);
    }
}

/// One more strip adds its triangles to the total.
pub proof fn lemma_strip_triangle_total_take(ss: Seq<Seq<u32>>, m: int)
    requires
        0 < m <= ss.len(),
    ensures
        strip_triangle_total(ss.take(m)) == strip_triangle_total(ss.take(m - 1)) + ss[m - 1].len() - 2,
{
    assert(ss.take(m).drop_last() =~= ss.take(m - 1));
}

/// A triangle list holds three indices per face.
pub proof fn lemma_face_indices_len(fs: Seq<Face>)
    ensures
        face_indices(fs).len() == 3 * fs.len(),
{
    lemma_face_indices_shape(fs);
}

/// The triangle list that holds the faces of `strips`, strip after strip.
pub fn strips_to_triangles(strips: &Vec<Vec<u32>>) -> (r: Vec<u32>)
    ensures
        r@ == face_indices(strips_faces(strips_view(strips@))),
{
    let ghost all = strips_view(strips@);
    let mut r: Vec<u32> = Vec::new();
    let mut k: usize = 0;
    while k < strips.len()
        invariant
            k <= strips.len(),
            all == strips_view(strips@),
            r@ == face_indices(strips_faces(all.take(k as int))),
        decreases strips.len() - k,
    {
        let s = &strips[k];
        let ghost before = strips_faces(all.take(k as int));
        assert(s@ == all[k as int]);
        let mut j: usize = 0;
        if s.len() >= 2 {
            while j + 2 < s.len()
                invariant
                    s.len() >= 2,
                    j + 2 <= s.len(),
                    r@ == face_indices(before + strip_faces_upto(s@, j as int)),
                decreases s.len() - j,
            {
                let t: Face = if j % 2 == 0 {
                    (s[j], s[j + 1], s[j + 2])
                } else {
                    (s[j + 1], s[j], s[j + 2])
                };
                assert(t == strip_triangle(s@, j as int));
                let ghost prev = before + strip_faces_upto(s@, j as int);
                if !(t.0 == t.1 || t.1 == t.2 || t.0 == t.2) {
                    proof {
                        lemma_face_indices_push(prev, t);
                        assert(before + strip_faces_upto(s@, j + 1) =~= prev.push(t));
                    }
                    r.push(t.0);
                    r.push(t.1);
                    r.push(t.2);
                    assert(r@ =~= face_indices(prev) + seq![t.0, t.1, t.2]);
                }
                j = j + 1;
            }
        }
        proof {
            assert(all.take(k + 1).drop_last() =~= all.take(k as int));
            assert(all.take(k + 1).last() == s@);
            if s.len() < 2 {
                assert(strip_faces(s@) =~= seq![]);
                assert(before + strip_faces(s@) =~= before);
            }
        }
        k = k + 1;
    }
    assert(all.take(strips.len() as int) =~= all);
    r
}

} // verus!
