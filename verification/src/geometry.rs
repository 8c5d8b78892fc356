//! Exact geometry of the rig.
//!
//! Every coordinate of the rig is of the form (a + b*sqrt(5)) / 8 with small
//! integers a and b, because the vertex table is built from the three
//! golden-ratio constants c0 = sqrt(5)/4, c1 = (5 + sqrt(5))/8 and
//! c2 = (5 + 3*sqrt(5))/8.  Representing a coordinate by the pair (a, b) and
//! an explicit denominator keeps the whole construction in integer
//! arithmetic, so centers and sign tests are computed and proved exactly.

use vstd::prelude::*;

verus! {

/// The exact scalar (a + b*sqrt(5)) / den.
#[derive(Clone, Copy, PartialEq, Eq, Structural, Debug)]
pub struct Surd {
    pub a: i32,
    pub b: i32,
    pub den: i32,
}

/// A point or direction in space, one exact scalar per axis.
#[derive(Clone, Copy, PartialEq, Eq, Structural, Debug)]
pub struct V3 {
    pub x: Surd,
    pub y: Surd,
    pub z: Surd,
}

/// Coordinates small enough that four of them sum without overflow.
pub open spec fn surd_small(s: Surd) -> bool {
    &&& -20 <= s.a <= 20
    &&& -20 <= s.b <= 20
    &&& s.den == 8
}

pub open spec fn v3_small(v: V3) -> bool {
    surd_small(v.x) && surd_small(v.y) && surd_small(v.z)
}

/// m is exactly (p + q + r + s) / 4: the numerators add up and the
/// denominator is four times the common one.
pub open spec fn surd_is_mean(m: Surd, p: Surd, q: Surd, r: Surd, s: Surd) -> bool {
    &&& p.den == q.den && q.den == r.den && r.den == s.den
    &&& m.a == p.a + q.a + r.a + s.a
    &&& m.b == p.b + q.b + r.b + s.b
    &&& m.den == 4 * p.den
}

pub open spec fn v3_is_mean(m: V3, p: V3, q: V3, r: V3, s: V3) -> bool {
    &&& surd_is_mean(m.x, p.x, q.x, r.x, s.x)
    &&& surd_is_mean(m.y, p.y, q.y, r.y, s.y)
    &&& surd_is_mean(m.z, p.z, q.z, r.z, s.z)
}

/// Sign of a + b*sqrt(5): where the two terms disagree, squaring decides,
/// since a + b*sqrt(5) > 0 with a < 0 <= b exactly when 5*b*b > a*a.
pub open spec fn surd_is_pos(s: Surd) -> bool {
    if s.a >= 0 && s.b >= 0 {
        s.a > 0 || s.b > 0
    } else if s.a <= 0 && s.b <= 0 {
        false
    } else if s.a > 0 {
        s.a * s.a > 5 * (s.b * s.b)
    } else {
        5 * (s.b * s.b) > s.a * s.a
    }
}

pub open spec fn surd_is_zero(s: Surd) -> bool {
    s.a == 0 && s.b == 0
}

/// Exact componentwise mean of four points with a common denominator.
pub fn v3_mean(p: &V3, q: &V3, r: &V3, s: &V3) -> (m: V3)
    requires
        v3_small(*p),
        v3_small(*q),
        v3_small(*r),
        v3_small(*s),
    ensures
        v3_is_mean(m, *p, *q, *r, *s),
{
    V3 {
        x: Surd { a: p.x.a + q.x.a + r.x.a + s.x.a, b: p.x.b + q.x.b + r.x.b + s.x.b, den: 32 },
        y: Surd { a: p.y.a + q.y.a + r.y.a + s.y.a, b: p.y.b + q.y.b + r.y.b + s.y.b, den: 32 },
        z: Surd { a: p.z.a + q.z.a + r.z.a + s.z.a, b: p.z.b + q.z.b + r.z.b + s.z.b, den: 32 },
    }
}

/// Runtime sign test, exact for every scalar within the bounds.
pub fn surd_positive(s: &Surd) -> (r: bool)
    requires
        -100 <= s.a <= 100,
        -100 <= s.b <= 100,
    ensures
        r == surd_is_pos(*s),
{
    if s.a >= 0 && s.b >= 0 {
        s.a > 0 || s.b > 0
    } else if s.a <= 0 && s.b <= 0 {
        false
    } else {
        proof {
            lemma_square_bound(s.a as int);
            lemma_square_bound(s.b as int);
        }
        let aa: i64 = (s.a as i64) * (s.a as i64);
        let bb: i64 = (s.b as i64) * (s.b as i64);
        let bb5: i64 = 5 * bb;
        if s.a > 0 {
            aa > bb5
        } else {
            bb5 > aa
        }
    }
}

proof fn lemma_square_bound(x: int)
    requires
        -100 <= x <= 100,
    ensures
        0 <= x * x <= 10000,
{
    assert(0 <= x * x <= 10000) by (nonlinear_arith)
        requires
            -100 <= x <= 100,
    ;
}

/// The constant c0 = sqrt(5)/4, written over denominator 8.
pub open spec fn c0() -> Surd {
    Surd { a: 0, b: 2, den: 8 }
}

/// The constant c1 = (5 + sqrt(5))/8.
pub open spec fn c1() -> Surd {
    Surd { a: 5, b: 1, den: 8 }
}

/// The constant c2 = (5 + 3*sqrt(5))/8.
pub open spec fn c2() -> Surd {
    Surd { a: 5, b: 3, den: 8 }
}

/// The zero coordinate, over the same denominator as its neighbours.
pub open spec fn cz() -> Surd {
    Surd { a: 0, b: 0, den: 8 }
}

pub open spec fn neg(s: Surd) -> Surd
    recommends
        surd_small(s),
{
    Surd { a: (-s.a) as i32, b: (-s.b) as i32, den: s.den }
}

pub open spec fn pt(x: Surd, y: Surd, z: Surd) -> V3 {
    V3 { x, y, z }
}

/// The canonical 32-vertex table of the rig, straight from the formula:
/// six rectangles that permute (c1, 0, c2), (c2, c1, 0), (0, c2, c1),
/// (0, c0, c2), (c2, 0, c0), (c0, c2, 0) through sign changes, then the
/// eight cube vertices (±c1, ±c1, ±c1).  Faces reference these rows by
/// position, so the order is load-bearing and never regenerated.
pub open spec fn vertex_table() -> Seq<V3> {
    seq![
        pt(c1(), cz(), c2()),
        pt(c1(), cz(), neg(c2())),
        pt(neg(c1()), cz(), c2()),
        pt(neg(c1()), cz(), neg(c2())),
        pt(c2(), c1(), cz()),
        pt(c2(), neg(c1()), cz()),
        pt(neg(c2()), c1(), cz()),
        pt(neg(c2()), neg(c1()), cz()),
        pt(cz(), c2(), c1()),
        pt(cz(), c2(), neg(c1())),
        pt(cz(), neg(c2()), c1()),
        pt(cz(), neg(c2()), neg(c1())),
        pt(cz(), c0(), c2()),
        pt(cz(), c0(), neg(c2())),
        pt(cz(), neg(c0()), c2()),
        pt(cz(), neg(c0()), neg(c2())),
        pt(c2(), cz(), c0()),
        pt(c2(), cz(), neg(c0())),
        pt(neg(c2()), cz(), c0()),
        pt(neg(c2()), cz(), neg(c0())),
        pt(c0(), c2(), cz()),
        pt(c0(), neg(c2()), cz()),
        pt(neg(c0()), c2(), cz()),
        pt(neg(c0()), neg(c2()), cz()),
        pt(c1(), c1(), c1()),
        pt(c1(), c1(), neg(c1())),
        pt(c1(), neg(c1()), c1()),
        pt(c1(), neg(c1()), neg(c1())),
        pt(neg(c1()), c1(), c1()),
        pt(neg(c1()), c1(), neg(c1())),
        pt(neg(c1()), neg(c1()), c1()),
        pt(neg(c1()), neg(c1()), neg(c1())),
    ]
}

/// An ordered 4-tuple of vertex indices: one quadrilateral face.
#[derive(Clone, Copy, PartialEq, Eq, Structural, Debug)]
pub struct Quad {
    pub v0: usize,
    pub v1: usize,
    pub v2: usize,
    pub v3: usize,
}

pub open spec fn quad_in_range(q: Quad, n: int) -> bool {
    q.v0 < n && q.v1 < n && q.v2 < n && q.v3 < n
}

/// The canonical 30-face table, in the fixed order that external ArtNet
/// senders assume: the i-th channel pair of an Output payload drives the
/// i-th row here.  Kept as literal fixture data, never re-derived.
pub open spec fn face_table() -> Seq<Quad> {
    seq![
        Quad { v0: 23, v1: 10, v2: 11, v3: 21 },
        Quad { v0: 27, v1: 11, v2: 5, v3: 21 },
        Quad { v0: 15, v1: 11, v2: 1, v3: 27 },
        Quad { v0: 31, v1: 11, v2: 3, v3: 15 },
        Quad { v0: 31, v1: 7, v2: 11, v3: 23 },
        Quad { v0: 21, v1: 10, v2: 5, v3: 26 },
        Quad { v0: 17, v1: 1, v2: 5, v3: 27 },
        Quad { v0: 13, v1: 3, v2: 1, v3: 15 },
        Quad { v0: 19, v1: 7, v2: 3, v3: 31 },
        Quad { v0: 30, v1: 10, v2: 7, v3: 23 },
        Quad { v0: 14, v1: 0, v2: 10, v3: 26 },
        Quad { v0: 26, v1: 0, v2: 5, v3: 16 },
        Quad { v0: 16, v1: 4, v2: 5, v3: 17 },
        Quad { v0: 25, v1: 1, v2: 4, v3: 17 },
        Quad { v0: 13, v1: 1, v2: 9, v3: 25 },
        Quad { v0: 29, v1: 3, v2: 9, v3: 13 },
        Quad { v0: 19, v1: 3, v2: 6, v3: 29 },
        Quad { v0: 18, v1: 7, v2: 6, v3: 19 },
        Quad { v0: 18, v1: 2, v2: 7, v3: 30 },
        Quad { v0: 30, v1: 2, v2: 10, v3: 14 },
        Quad { v0: 12, v1: 0, v2: 2, v3: 14 },
        Quad { v0: 24, v1: 4, v2: 0, v3: 16 },
        Quad { v0: 20, v1: 9, v2: 4, v3: 25 },
        Quad { v0: 29, v1: 9, v2: 6, v3: 22 },
        Quad { v0: 28, v1: 2, v2: 6, v3: 18 },
        Quad { v0: 12, v1: 8, v2: 0, v3: 24 },
        Quad { v0: 20, v1: 4, v2: 8, v3: 24 },
        Quad { v0: 22, v1: 9, v2: 8, v3: 20 },
        Quad { v0: 22, v1: 8, v2: 6, v3: 28 },
        Quad { v0: 28, v1: 8, v2: 2, v3: 12 },
    ]
}

/// The constant c0 as a runtime value.
fn k_c0() -> (s: Surd)
    ensures
        s == c0(),
{
    Surd { a: 0, b: 2, den: 8 }
}

/// The constant c1 as a runtime value.
fn k_c1() -> (s: Surd)
    ensures
        s == c1(),
{
    Surd { a: 5, b: 1, den: 8 }
}

/// The constant c2 as a runtime value.
fn k_c2() -> (s: Surd)
    ensures
        s == c2(),
{
    Surd { a: 5, b: 3, den: 8 }
}

/// The zero coordinate as a runtime value.
fn k_z() -> (s: Surd)
    ensures
        s == cz(),
{
    Surd { a: 0, b: 0, den: 8 }
}

fn k_neg(s: Surd) -> (t: Surd)
    requires
        surd_small(s),
    ensures
        t == neg(s),
{
    Surd { a: -s.a, b: -s.b, den: s.den }
}

fn k_pt(x: Surd, y: Surd, z: Surd) -> (p: V3)
    ensures
        p == pt(x, y, z),
{
    V3 { x, y, z }
}

/// Builds the 32-vertex table; the result is exactly the canonical
/// formula-derived layout, in its canonical order, on every run.
#[verifier::rlimit(50)]
pub fn make_vertices() -> (v: Vec<V3>)
    ensures
        v@ == vertex_table(),
{
    let mut v: Vec<V3> = Vec::new();
    v.push(k_pt(k_c1(), k_z(), k_c2()));
    v.push(k_pt(k_c1(), k_z(), k_neg(k_c2())));
    v.push(k_pt(k_neg(k_c1()), k_z(), k_c2()));
    v.push(k_pt(k_neg(k_c1()), k_z(), k_neg(k_c2())));
    v.push(k_pt(k_c2(), k_c1(), k_z()));
    v.push(k_pt(k_c2(), k_neg(k_c1()), k_z()));
    v.push(k_pt(k_neg(k_c2()), k_c1(), k_z()));
    v.push(k_pt(k_neg(k_c2()), k_neg(k_c1()), k_z()));
    v.push(k_pt(k_z(), k_c2(), k_c1()));
    v.push(k_pt(k_z(), k_c2(), k_neg(k_c1())));
    v.push(k_pt(k_z(), k_neg(k_c2()), k_c1()));
    v.push(k_pt(k_z(), k_neg(k_c2()), k_neg(k_c1())));
    v.push(k_pt(k_z(), k_c0(), k_c2()));
    v.push(k_pt(k_z(), k_c0(), k_neg(k_c2())));
    v.push(k_pt(k_z(), k_neg(k_c0()), k_c2()));
    v.push(k_pt(k_z(), k_neg(k_c0()), k_neg(k_c2())));
    v.push(k_pt(k_c2(), k_z(), k_c0()));
    v.push(k_pt(k_c2(), k_z(), k_neg(k_c0())));
    v.push(k_pt(k_neg(k_c2()), k_z(), k_c0()));
    v.push(k_pt(k_neg(k_c2()), k_z(), k_neg(k_c0())));
    v.push(k_pt(k_c0(), k_c2(), k_z()));
    v.push(k_pt(k_c0(), k_neg(k_c2()), k_z()));
    v.push(k_pt(k_neg(k_c0()), k_c2(), k_z()));
    v.push(k_pt(k_neg(k_c0()), k_neg(k_c2()), k_z()));
    v.push(k_pt(k_c1(), k_c1(), k_c1()));
    v.push(k_pt(k_c1(), k_c1(), k_neg(k_c1())));
    v.push(k_pt(k_c1(), k_neg(k_c1()), k_c1()));
    v.push(k_pt(k_c1(), k_neg(k_c1()), k_neg(k_c1())));
    v.push(k_pt(k_neg(k_c1()), k_c1(), k_c1()));
    v.push(k_pt(k_neg(k_c1()), k_c1(), k_neg(k_c1())));
    v.push(k_pt(k_neg(k_c1()), k_neg(k_c1()), k_c1()));
    v.push(k_pt(k_neg(k_c1()), k_neg(k_c1()), k_neg(k_c1())));
    proof {
        assert(v@ =~= vertex_table());
    }
    v
}

fn k_quad(v0: usize, v1: usize, v2: usize, v3: usize) -> (q: Quad)
    ensures
        q == (Quad { v0, v1, v2, v3 }),
{
    Quad { v0, v1, v2, v3 }
}

/// Builds the 30-face table in its canonical, sender-visible order.
#[verifier::rlimit(50)]
pub fn make_faces() -> (f: Vec<Quad>)
    ensures
        f@ == face_table(),
{
    let mut f: Vec<Quad> = Vec::new();
    f.push(k_quad(23, 10, 11, 21));
    f.push(k_quad(27, 11, 5, 21));
    f.push(k_quad(15, 11, 1, 27));
    f.push(k_quad(31, 11, 3, 15));
    f.push(k_quad(31, 7, 11, 23));
    f.push(k_quad(21, 10, 5, 26));
    f.push(k_quad(17, 1, 5, 27));
    f.push(k_quad(13, 3, 1, 15));
    f.push(k_quad(19, 7, 3, 31));
    f.push(k_quad(30, 10, 7, 23));
    f.push(k_quad(14, 0, 10, 26));
    f.push(k_quad(26, 0, 5, 16));
    f.push(k_quad(16, 4, 5, 17));
    f.push(k_quad(25, 1, 4, 17));
    f.push(k_quad(13, 1, 9, 25));
    f.push(k_quad(29, 3, 9, 13));
    f.push(k_quad(19, 3, 6, 29));
    f.push(k_quad(18, 7, 6, 19));
    f.push(k_quad(18, 2, 7, 30));
    f.push(k_quad(30, 2, 10, 14));
    f.push(k_quad(12, 0, 2, 14));
    f.push(k_quad(24, 4, 0, 16));
    f.push(k_quad(20, 9, 4, 25));
    f.push(k_quad(29, 9, 6, 22));
    f.push(k_quad(28, 2, 6, 18));
    f.push(k_quad(12, 8, 0, 24));
    f.push(k_quad(20, 4, 8, 24));
    f.push(k_quad(22, 9, 8, 20));
    f.push(k_quad(22, 8, 6, 28));
    f.push(k_quad(28, 8, 2, 12));
    proof {
        assert(f@ =~= face_table());
    }
    f
}

/// Every row of the vertex table is within the bounds that the exact
/// arithmetic needs.
#[verifier::rlimit(50)]
pub proof fn lemma_vertex_table_wf()
    ensures
        vertex_table().len() == 32,
        forall|i: int| 0 <= i < 32 ==> v3_small(#[trigger] vertex_table()[i]),
{
    assert forall|i: int| 0 <= i < 32 implies v3_small(#[trigger] vertex_table()[i]) by {
        assert(v3_small(vertex_table()[i]));
    }
}

/// Every row of the face table references existing vertices.
#[verifier::rlimit(50)]
pub proof fn lemma_face_table_wf()
    ensures
        face_table().len() == 30,
        forall|i: int| 0 <= i < 30 ==> quad_in_range(#[trigger] face_table()[i], 32),
{
    assert forall|i: int| 0 <= i < 30 implies quad_in_range(#[trigger] face_table()[i], 32) by {
        assert(quad_in_range(face_table()[i], 32));
    }
}

} // verus!
