//! 2D affine transforms.
//!
//! An [`Affine`] is a 2x3 matrix stored as the coefficient array
//! `[a, b, c, d, e, f]`: the point `(x, y)` maps to
//! `(a*x + c*y + e, b*x + d*y + f)`. Composition is matrix
//! multiplication and is not commutative. Contracts are stated over
//! [`AffineModel`], the same matrix with unbounded integer entries, so
//! composition laws can be written without overflow side conditions.

use vstd::prelude::*;

verus! {

/// An affine transform with machine-integer coefficients.
#[derive(Clone, Copy, Debug, PartialEq, Eq, Structural)]
pub struct Affine {
    pub a: i64,
    pub b: i64,
    pub c: i64,
    pub d: i64,
    pub e: i64,
    pub f: i64,
}

/// The mathematical value of an [`Affine`]: the same matrix over
/// unbounded integers.
pub ghost struct AffineModel {
    pub a: int,
    pub b: int,
    pub c: int,
    pub d: int,
    pub e: int,
    pub f: int,
}

impl View for Affine {
    type V = AffineModel;

    open spec fn view(&self) -> AffineModel {
        AffineModel {
            a: self.a as int,
            b: self.b as int,
            c: self.c as int,
            d: self.d as int,
            e: self.e as int,
            f: self.f as int,
        }
    }
}

/// The identity transform.
pub open spec fn spec_identity() -> AffineModel {
    AffineModel { a: 1, b: 0, c: 0, d: 1, e: 0, f: 0 }
}

/// `x` composed with `y`: the transform that applies `y` first and then
/// `x`, i.e. the matrix product `x * y`.
pub open spec fn spec_compose(x: AffineModel, y: AffineModel) -> AffineModel {
    AffineModel {
        a: x.a * y.a + x.c * y.b,
        b: x.b * y.a + x.d * y.b,
        c: x.a * y.c + x.c * y.d,
        d: x.b * y.c + x.d * y.d,
        e: x.a * y.e + x.c * y.f + x.e,
        f: x.b * y.e + x.d * y.f + x.f,
    }
}

/// Where `m` sends the point `(px, py)`.
pub open spec fn spec_apply(m: AffineModel, px: int, py: int) -> (int, int) {
    (m.a * px + m.c * py + m.e, m.b * px + m.d * py + m.f)
}

pub open spec fn in_i64(v: int) -> bool {
    i64::MIN <= v <= i64::MAX
}

/// Every entry of the composition fits in the machine coefficients:
/// the weakest condition under which the executable composition is exact.
pub open spec fn compose_fits(x: AffineModel, y: AffineModel) -> bool {
    let r = spec_compose(x, y);
    &&& in_i64(r.a)
    &&& in_i64(r.b)
    &&& in_i64(r.c)
    &&& in_i64(r.d)
    &&& in_i64(r.e)
    &&& in_i64(r.f)
}

/// Both coordinates of `spec_apply(m, px, py)` fit in `i64`.
pub open spec fn apply_fits(m: AffineModel, px: int, py: int) -> bool {
    &&& in_i64(spec_apply(m, px, py).0)
    &&& in_i64(spec_apply(m, px, py).1)
}

proof fn lemma_mul_i64_in_i128(u: int, v: int)
    requires
        i64::MIN <= u <= i64::MAX,
        i64::MIN <= v <= i64::MAX,
    ensures
        i128::MIN <= u * v <= i128::MAX,
{
    assert(i128::MIN <= u * v <= i128::MAX) by (nonlinear_arith)
        requires
            i64::MIN <= u <= i64::MAX,
            i64::MIN <= v <= i64::MAX,
    ;
}

/// `u1*v1 + u2*v2`, exact whenever the total fits in `i64`.
fn dot2(u1: i64, v1: i64, u2: i64, v2: i64) -> (r: i64)
    requires
        in_i64(u1 * v1 + u2 * v2),
    ensures
        r == u1 * v1 + u2 * v2,
{
    proof {
        lemma_mul_i64_in_i128(u1 as int, v1 as int);
        lemma_mul_i64_in_i128(u2 as int, v2 as int);
    }
    let p1: i128 = (u1 as i128) * (v1 as i128);
    let p2: i128 = (u2 as i128) * (v2 as i128);
    (p1 + p2) as i64
}

/// `u1*v1 + u2*v2 + w`, exact whenever the total fits in `i64`.
fn dot2_add(u1: i64, v1: i64, u2: i64, v2: i64, w: i64) -> (r: i64)
    requires
        in_i64(u1 * v1 + u2 * v2 + w),
    ensures
        r == u1 * v1 + u2 * v2 + w,
{
    proof {
        lemma_mul_i64_in_i128(u1 as int, v1 as int);
        lemma_mul_i64_in_i128(u2 as int, v2 as int);
    }
    let p1: i128 = (u1 as i128) * (v1 as i128);
    let p2: i128 = (u2 as i128) * (v2 as i128);
    ((p1 + p2) + (w as i128)) as i64
}

impl Affine {
    pub fn identity() -> (r: Affine)
        ensures
            r@ == spec_identity(),
    {
        Affine { a: 1, b: 0, c: 0, d: 1, e: 0, f: 0 }
    }

    /// A pure translation by `(tx, ty)`.
    pub fn translation(tx: i64, ty: i64) -> (r: Affine)
        ensures
            r@ == (AffineModel { a: 1, b: 0, c: 0, d: 1, e: tx as int, f: ty as int }),
    {
        Affine { a: 1, b: 0, c: 0, d: 1, e: tx, f: ty }
    }

    /// Matrix product `self * other` (apply `other` first).
    pub fn compose(&self, other: &Affine) -> (r: Affine)
        requires
            compose_fits(self@, other@),
        ensures
            r@ == spec_compose(self@, other@),
    {
        Affine {
            a: dot2(self.a, other.a, self.c, other.b),
            b: dot2(self.b, other.a, self.d, other.b),
            c: dot2(self.a, other.c, self.c, other.d),
            d: dot2(self.b, other.c, self.d, other.d),
            e: dot2_add(self.a, other.e, self.c, other.f, self.e),
            f: dot2_add(self.b, other.e, self.d, other.f, self.f),
        }
    }

    /// Apply the transform to a point.
    pub fn apply(&self, p: crate::geom::Point) -> (r: crate::geom::Point)
        requires
            apply_fits(self@, p.x as int, p.y as int),
        ensures
            r.x == spec_apply(self@, p.x as int, p.y as int).0,
            r.y == spec_apply(self@, p.x as int, p.y as int).1,
    {
        crate::geom::Point {
            x: dot2_add(self.a, p.x, self.c, p.y, self.e),
            y: dot2_add(self.b, p.x, self.d, p.y, self.f),
        }
    }
}

/// The machine transform whose entries are the (in-range) entries of a
/// model matrix. For any `Affine` `t`, `affine_of_model(t@) == t`.
pub open spec fn affine_of_model(m: AffineModel) -> Affine
    recommends
        in_i64(m.a),
        in_i64(m.b),
        in_i64(m.c),
        in_i64(m.d),
        in_i64(m.e),
        in_i64(m.f),
{
    Affine {
        a: m.a as i64,
        b: m.b as i64,
        c: m.c as i64,
        d: m.d as i64,
        e: m.e as i64,
        f: m.f as i64,
    }
}

/// Composing with the identity on either side changes nothing.
pub proof fn lemma_compose_identity(m: AffineModel)
    ensures
        spec_compose(spec_identity(), m) == m,
        spec_compose(m, spec_identity()) == m,
{
}

/// Composition is associative: composing a transform first with `x` and
/// then with `y` is the same as composing once with `x` composed with
/// `y`. This is the algebraic heart of the state stack's `compose`
/// operation: `compose(A)` followed by `compose(B)` equals a single
/// `compose(A . B)`.
pub proof fn lemma_compose_assoc(t: AffineModel, x: AffineModel, y: AffineModel)
    ensures
        spec_compose(spec_compose(t, x), y) == spec_compose(t, spec_compose(x, y)),
{
    lemma_linear_entry(t.a, t.c, x.a, x.b, x.c, x.d, y.a, y.b);
    lemma_linear_entry(t.b, t.d, x.a, x.b, x.c, x.d, y.a, y.b);
    lemma_linear_entry(t.a, t.c, x.a, x.b, x.c, x.d, y.c, y.d);
    lemma_linear_entry(t.b, t.d, x.a, x.b, x.c, x.d, y.c, y.d);
    lemma_translation_entry(t.a, t.c, t.e, x.a, x.b, x.c, x.d, x.e, x.f, y.e, y.f);
    lemma_translation_entry(t.b, t.d, t.f, x.a, x.b, x.c, x.d, x.e, x.f, y.e, y.f);
}

/// Ring identity behind the linear entries of [`lemma_compose_assoc`].
proof fn lemma_linear_entry(ta: int, tc: int, xa: int, xb: int, xc: int, xd: int, ya: int, yb: int)
    ensures
        (ta * xa + tc * xb) * ya + (ta * xc + tc * xd) * yb == ta * (xa * ya + xc * yb) + tc * (
        xb * ya + xd * yb),
{
    vstd::arithmetic::mul::lemma_mul_is_distributive_add_other_way(ya, ta * xa, tc * xb);
    vstd::arithmetic::mul::lemma_mul_is_distributive_add_other_way(yb, ta * xc, tc * xd);
    vstd::arithmetic::mul::lemma_mul_is_associative(ta, xa, ya);
    vstd::arithmetic::mul::lemma_mul_is_associative(tc, xb, ya);
    vstd::arithmetic::mul::lemma_mul_is_associative(ta, xc, yb);
    vstd::arithmetic::mul::lemma_mul_is_associative(tc, xd, yb);
    vstd::arithmetic::mul::lemma_mul_is_distributive_add(ta, xa * ya, xc * yb);
    vstd::arithmetic::mul::lemma_mul_is_distributive_add(tc, xb * ya, xd * yb);
}

/// Ring identity behind the translation entries of [`lemma_compose_assoc`].
proof fn lemma_translation_entry(
    ta: int,
    tc: int,
    te: int,
    xa: int,
    xb: int,
    xc: int,
    xd: int,
    xe: int,
    xf: int,
    ye: int,
    yf: int,
)
    ensures
        (ta * xa + tc * xb) * ye + (ta * xc + tc * xd) * yf + (ta * xe + tc * xf + te) == ta * (xa
            * ye + xc * yf + xe) + tc * (xb * ye + xd * yf + xf) + te,
{
    vstd::arithmetic::mul::lemma_mul_is_distributive_add_other_way(ye, ta * xa, tc * xb);
    vstd::arithmetic::mul::lemma_mul_is_distributive_add_other_way(yf, ta * xc, tc * xd);
    vstd::arithmetic::mul::lemma_mul_is_associative(ta, xa, ye);
    vstd::arithmetic::mul::lemma_mul_is_associative(tc, xb, ye);
    vstd::arithmetic::mul::lemma_mul_is_associative(ta, xc, yf);
    vstd::arithmetic::mul::lemma_mul_is_associative(tc, xd, yf);
    vstd::arithmetic::mul::lemma_mul_is_distributive_add(ta, xa * ye + xc * yf, xe);
    vstd::arithmetic::mul::lemma_mul_is_distributive_add(ta, xa * ye, xc * yf);
    vstd::arithmetic::mul::lemma_mul_is_distributive_add(tc, xb * ye + xd * yf, xf);
    vstd::arithmetic::mul::lemma_mul_is_distributive_add(tc, xb * ye, xd * yf);
}

} // verus!
