//! Points and affine transforms over exact rationals.
//!
//! A point keeps its two coordinates as `i64` numerators over one positive
//! `i64` denominator; an affine transform keeps its six coefficients the same
//! way. A transform with coefficients `a..f` (all divided by `den`) maps a
//! point `(x, y)` to
//!
//! ```text
//! x' = a*x + c*y + e
//! y' = b*x + d*y + f
//! ```
//!
//! The spec models (`PointModel`, `AffineModel`) are the same shapes over
//! unbounded integers, so every operation's exact value is a plain integer
//! polynomial; an executable operation returns `None` (or
//! `TransformError::Overflow`) exactly when some component of that exact
//! value does not fit in `i64`.

use vstd::prelude::*;

use crate::error::TransformError;
use crate::rational::{Frac, Rat, in_i64, in_i128, lemma_i64_mul_bound, lemma_mul_pos, frac_eq};

verus! {

/// Model of a point: integer coordinates over one non-zero denominator.
pub struct PointModel {
    pub x: int,
    pub y: int,
    pub den: int,
}

/// Model of an affine transform: six integer coefficients over one non-zero
/// denominator.
pub struct AffineModel {
    pub a: int,
    pub b: int,
    pub c: int,
    pub d: int,
    pub e: int,
    pub f: int,
    pub den: int,
}

/// The model denominator is positive.
pub open spec fn point_model_wf(p: PointModel) -> bool {
    p.den > 0
}

/// The model denominator is positive.
pub open spec fn affine_model_wf(m: AffineModel) -> bool {
    m.den > 0
}

/// Two point models denote the same pair of rational coordinates.
pub open spec fn point_eq(p: PointModel, q: PointModel) -> bool {
    p.x * q.den == q.x * p.den && p.y * q.den == q.y * p.den
}

/// Two affine models denote the same transform, coefficient by coefficient.
pub open spec fn affine_eq(m1: AffineModel, m2: AffineModel) -> bool {
    &&& m1.a * m2.den == m2.a * m1.den
    &&& m1.b * m2.den == m2.b * m1.den
    &&& m1.c * m2.den == m2.c * m1.den
    &&& m1.d * m2.den == m2.d * m1.den
    &&& m1.e * m2.den == m2.e * m1.den
    &&& m1.f * m2.den == m2.f * m1.den
}

/// The x coordinate of a point model, as a fraction.
pub open spec fn point_frac_x(p: PointModel) -> Frac {
    Frac { n: p.x, d: p.den }
}

/// The y coordinate of a point model, as a fraction.
pub open spec fn point_frac_y(p: PointModel) -> Frac {
    Frac { n: p.y, d: p.den }
}

/// The transform that maps every point to itself.
pub open spec fn identity_model() -> AffineModel {
    AffineModel { a: 1, b: 0, c: 0, d: 1, e: 0, f: 0, den: 1 }
}

/// Translation by the vector `v`.
pub open spec fn translate_model(v: PointModel) -> AffineModel {
    AffineModel { a: v.den, b: 0, c: 0, d: v.den, e: v.x, f: v.y, den: v.den }
}

/// Scaling by `sx` along x and `sy` along y.
pub open spec fn scale_model(sx: Frac, sy: Frac) -> AffineModel {
    AffineModel { a: sx.n * sy.d, b: 0, c: 0, d: sy.n * sx.d, e: 0, f: 0, den: sx.d * sy.d }
}

/// Uniform scaling by `s`.
pub open spec fn scale_uniform_model(s: Frac) -> AffineModel {
    AffineModel { a: s.n, b: 0, c: 0, d: s.n, e: 0, f: 0, den: s.d }
}

/// Rotation whose cosine is `c` and sine is `s`.
pub open spec fn rotate_model(c: Frac, s: Frac) -> AffineModel {
    AffineModel {
        a: c.n * s.d,
        b: s.n * c.d,
        c: -(s.n * c.d),
        d: c.n * s.d,
        e: 0,
        f: 0,
        den: c.d * s.d,
    }
}

/// The transform moves no origin: its translation column is zero.
pub open spec fn linear_only(m: AffineModel) -> bool {
    m.e == 0 && m.f == 0
}

/// The exact image of point `p` under transform `m`.
pub open spec fn affine_apply(m: AffineModel, p: PointModel) -> PointModel {
    PointModel {
        x: m.a * p.x + m.c * p.y + m.e * p.den,
        y: m.b * p.x + m.d * p.y + m.f * p.den,
        den: m.den * p.den,
    }
}

/// The exact matrix product: applying `affine_compose(m1, m2)` is applying
/// `m2` first and `m1` after it.
pub open spec fn affine_compose(m1: AffineModel, m2: AffineModel) -> AffineModel {
    AffineModel {
        a: m1.a * m2.a + m1.c * m2.b,
        b: m1.b * m2.a + m1.d * m2.b,
        c: m1.a * m2.c + m1.c * m2.d,
        d: m1.b * m2.c + m1.d * m2.d,
        e: m1.a * m2.e + m1.c * m2.f + m1.e * m2.den,
        f: m1.b * m2.e + m1.d * m2.f + m1.f * m2.den,
        den: m1.den * m2.den,
    }
}

/// The determinant numerator `a*d - b*c`; the transform is invertible exactly
/// when this is non-zero.
pub open spec fn det_raw(m: AffineModel) -> int {
    m.a * m.d - m.b * m.c
}

/// The inverse before sign normalization: its denominator slot holds
/// `det_raw(m)`, which may be negative.
pub open spec fn inverse_unsigned(m: AffineModel) -> AffineModel {
    AffineModel {
        a: m.den * m.d,
        b: -(m.den * m.b),
        c: -(m.den * m.c),
        d: m.den * m.a,
        e: m.c * m.f - m.d * m.e,
        f: m.b * m.e - m.a * m.f,
        den: det_raw(m),
    }
}

/// The model with every component negated (the same transform).
pub open spec fn neg_model(m: AffineModel) -> AffineModel {
    AffineModel { a: -m.a, b: -m.b, c: -m.c, d: -m.d, e: -m.e, f: -m.f, den: -m.den }
}

/// The exact inverse of `m`, sign-normalized so that a non-singular input
/// yields a positive denominator. Meaningful when `det_raw(m) != 0`.
pub open spec fn affine_inverse(m: AffineModel) -> AffineModel {
    if det_raw(m) >= 0 {
        inverse_unsigned(m)
    } else {
        neg_model(inverse_unsigned(m))
    }
}

/// Every component of the model fits in `i64`.
pub open spec fn model_in_i64(m: AffineModel) -> bool {
    &&& in_i64(m.a)
    &&& in_i64(m.b)
    &&& in_i64(m.c)
    &&& in_i64(m.d)
    &&& in_i64(m.e)
    &&& in_i64(m.f)
    &&& in_i64(m.den)
}

/// Every component of the point model fits in `i64`.
pub open spec fn point_in_i64(p: PointModel) -> bool {
    in_i64(p.x) && in_i64(p.y) && in_i64(p.den)
}

/// The point with both coordinates negated (the opposite vector).
pub open spec fn neg_point(p: PointModel) -> PointModel {
    PointModel { x: -p.x, y: -p.y, den: p.den }
}

/// The pivot-relative composition rule: the increment `op` runs between a
/// translation taking the pivot to the origin and the translation back, and
/// the whole runs after the current transform.
pub open spec fn pivoted_model(op: AffineModel, pivot: PointModel, cur: AffineModel) -> AffineModel {
    affine_compose(
        translate_model(pivot),
        affine_compose(op, affine_compose(translate_model(neg_point(pivot)), cur)),
    )
}

/// The identity transform maps every point to itself, exactly.
pub proof fn lemma_apply_identity(p: PointModel)
    requires
        point_model_wf(p),
    ensures
        point_eq(affine_apply(identity_model(), p), p),
{
}

/// Applying a composition is applying the right factor and then the left
/// one; the exact result models coincide.
/// Distributing one factor over a three-part sum.
proof fn lemma_dist3(k: int, u: int, v: int, w: int)
    ensures
        k * (u + v + w) == k * u + k * v + k * w,
        (u + v + w) * k == u * k + v * k + w * k,
{
    vstd::arithmetic::mul::lemma_mul_is_distributive_add(k, u + v, w);
    vstd::arithmetic::mul::lemma_mul_is_distributive_add(k, u, v);
    vstd::arithmetic::mul::lemma_mul_is_distributive_add_other_way(k, u + v, w);
    vstd::arithmetic::mul::lemma_mul_is_distributive_add_other_way(k, u, v);
}

/// Pulling a shared left factor out of a product of two products.
proof fn lemma_factor(k: int, x: int, y: int, s: int)
    ensures
        (k * x) * (y * s) == (k * (x * y)) * s,
{
    vstd::arithmetic::mul::lemma_mul_is_associative(k * x, y, s);
    vstd::arithmetic::mul::lemma_mul_is_associative(k, x, y);
}

/// Exchanging the two right factors of a grouped triple product.
proof fn lemma_swap_mul(k: int, s: int, x: int)
    ensures
        (k * s) * x == (k * x) * s,
{
    vstd::arithmetic::mul::lemma_mul_is_associative(k, s, x);
    vstd::arithmetic::mul::lemma_mul_is_commutative(s, x);
    vstd::arithmetic::mul::lemma_mul_is_associative(k, x, s);
}

/// One row of the composition-application exchange: the coefficients
/// `(r1, r2, r3)` are one row of the composition of `m1` (row `(k1, k2, k3)`)
/// with `m2`, and applying them to `p` directly is applying `m2` and then the
/// row.
proof fn lemma_apply_compose_row(
    k1: int,
    k2: int,
    k3: int,
    m2: AffineModel,
    p: PointModel,
)
    ensures
        (k1 * m2.a + k2 * m2.b) * p.x + (k1 * m2.c + k2 * m2.d) * p.y + (k1 * m2.e + k2 * m2.f + k3
            * m2.den) * p.den == k1 * (m2.a * p.x + m2.c * p.y + m2.e * p.den) + k2 * (m2.b * p.x
            + m2.d * p.y + m2.f * p.den) + k3 * (m2.den * p.den),
{
    lemma_dist3(k1, m2.a * p.x, m2.c * p.y, m2.e * p.den);
    lemma_dist3(k2, m2.b * p.x, m2.d * p.y, m2.f * p.den);
    vstd::arithmetic::mul::lemma_mul_is_associative(k1, m2.a, p.x);
    vstd::arithmetic::mul::lemma_mul_is_associative(k1, m2.c, p.y);
    vstd::arithmetic::mul::lemma_mul_is_associative(k1, m2.e, p.den);
    vstd::arithmetic::mul::lemma_mul_is_associative(k2, m2.b, p.x);
    vstd::arithmetic::mul::lemma_mul_is_associative(k2, m2.d, p.y);
    vstd::arithmetic::mul::lemma_mul_is_associative(k2, m2.f, p.den);
    vstd::arithmetic::mul::lemma_mul_is_associative(k3, m2.den, p.den);
    vstd::arithmetic::mul::lemma_mul_is_distributive_add_other_way(p.x, k1 * m2.a, k2 * m2.b);
    vstd::arithmetic::mul::lemma_mul_is_distributive_add_other_way(p.y, k1 * m2.c, k2 * m2.d);
    lemma_dist3(p.den, k1 * m2.e, k2 * m2.f, k3 * m2.den);
}

/// Applying a composition is applying the right factor and then the left
/// one; the exact result models coincide.
pub proof fn lemma_apply_compose(m1: AffineModel, m2: AffineModel, p: PointModel)
    ensures
        affine_apply(affine_compose(m1, m2), p) == affine_apply(m1, affine_apply(m2, p)),
{
    lemma_apply_compose_row(m1.a, m1.c, m1.e, m2, p);
    lemma_apply_compose_row(m1.b, m1.d, m1.f, m2, p);
    vstd::arithmetic::mul::lemma_mul_is_associative(m1.den, m2.den, p.den);
}

/// The determinant of a composition is the product of the determinants.
pub proof fn lemma_det_compose(m1: AffineModel, m2: AffineModel)
    ensures
        det_raw(affine_compose(m1, m2)) == det_raw(m1) * det_raw(m2),
{
    let a1 = m1.a;
    let b1 = m1.b;
    let c1 = m1.c;
    let d1 = m1.d;
    let a2 = m2.a;
    let b2 = m2.b;
    let c2 = m2.c;
    let d2 = m2.d;
    vstd::arithmetic::mul::lemma_mul_is_distributive_add_other_way(
        b1 * c2 + d1 * d2,
        a1 * a2,
        c1 * b2,
    );
    vstd::arithmetic::mul::lemma_mul_is_distributive_add(a1 * a2, b1 * c2, d1 * d2);
    vstd::arithmetic::mul::lemma_mul_is_distributive_add(c1 * b2, b1 * c2, d1 * d2);
    vstd::arithmetic::mul::lemma_mul_is_distributive_add_other_way(
        a1 * c2 + c1 * d2,
        b1 * a2,
        d1 * b2,
    );
    vstd::arithmetic::mul::lemma_mul_is_distributive_add(b1 * a2, a1 * c2, c1 * d2);
    vstd::arithmetic::mul::lemma_mul_is_distributive_add(d1 * b2, a1 * c2, c1 * d2);
    crate::rational::lemma_mul_shuffle(a1, a2, b1, c2);
    crate::rational::lemma_mul_shuffle(a1, a2, d1, d2);
    crate::rational::lemma_mul_shuffle(c1, b2, b1, c2);
    crate::rational::lemma_mul_shuffle(c1, b2, d1, d2);
    crate::rational::lemma_mul_shuffle(b1, a2, a1, c2);
    crate::rational::lemma_mul_shuffle(b1, a2, c1, d2);
    crate::rational::lemma_mul_shuffle(d1, b2, a1, c2);
    crate::rational::lemma_mul_shuffle(d1, b2, c1, d2);
    vstd::arithmetic::mul::lemma_mul_is_commutative(a1, b1);
    vstd::arithmetic::mul::lemma_mul_is_commutative(c1, d1);
    vstd::arithmetic::mul::lemma_mul_is_commutative(c1, b1);
    vstd::arithmetic::mul::lemma_mul_is_commutative(d1, a1);
    vstd::arithmetic::mul::lemma_mul_is_distributive_sub_other_way(
        a2 * d2 - b2 * c2,
        a1 * d1,
        b1 * c1,
    );
    vstd::arithmetic::mul::lemma_mul_is_distributive_sub(a1 * d1, a2 * d2, b2 * c2);
    vstd::arithmetic::mul::lemma_mul_is_distributive_sub(b1 * c1, a2 * d2, b2 * c2);
}

/// Undoing a transform: applying the exact inverse to the exact image of a
/// point gives back the point, exactly.
pub proof fn lemma_inverse_round_trip(m: AffineModel, p: PointModel)
    requires
        affine_model_wf(m),
        point_model_wf(p),
        det_raw(m) != 0,
    ensures
        point_eq(affine_apply(affine_inverse(m), affine_apply(m, p)), p),
{
    let a: int = m.a;
    let b: int = m.b;
    let c: int = m.c;
    let d: int = m.d;
    let e: int = m.e;
    let f: int = m.f;
    let den: int = m.den;
    let px: int = p.x;
    let py: int = p.y;
    let pd: int = p.den;
    let det: int = a * d - b * c;
    let q = affine_apply(m, p);
    let u = affine_apply(inverse_unsigned(m), q);
    let qx: int = a * px + c * py + e * pd;
    let qy: int = b * px + d * py + f * pd;
    // u.x is (den*d)*qx - ((den*c))*qy + (c*f - d*e)*(den*pd); expand each
    // part and collect the coefficients of px, py, pd.
    lemma_dist3(den * d, a * px, c * py, e * pd);
    lemma_factor(den, d, a, px);
    lemma_factor(den, d, c, py);
    lemma_factor(den, d, e, pd);
    vstd::arithmetic::mul::lemma_mul_unary_negation(den * c, qy);
    lemma_dist3(den * c, b * px, d * py, f * pd);
    lemma_factor(den, c, b, px);
    lemma_factor(den, c, d, py);
    lemma_factor(den, c, f, pd);
    vstd::arithmetic::mul::lemma_mul_is_distributive_sub_other_way(den * pd, c * f, d * e);
    vstd::arithmetic::mul::lemma_mul_is_commutative(c * f, den * pd);
    lemma_swap_mul(den, pd, c * f);
    vstd::arithmetic::mul::lemma_mul_is_commutative(d * e, den * pd);
    lemma_swap_mul(den, pd, d * e);
    vstd::arithmetic::mul::lemma_mul_is_commutative(d, c);
    assert(u.x == (den * (d * a)) * px - (den * (c * b)) * px);
    vstd::arithmetic::mul::lemma_mul_is_distributive_sub(den, a * d, b * c);
    vstd::arithmetic::mul::lemma_mul_is_commutative(a, d);
    vstd::arithmetic::mul::lemma_mul_is_commutative(b, c);
    vstd::arithmetic::mul::lemma_mul_is_distributive_sub_other_way(
        px,
        den * (d * a),
        den * (c * b),
    );
    assert(u.x == (den * det) * px);
    // the same collection for u.y
    vstd::arithmetic::mul::lemma_mul_unary_negation(den * b, qx);
    lemma_dist3(den * b, a * px, c * py, e * pd);
    lemma_factor(den, b, a, px);
    lemma_factor(den, b, c, py);
    lemma_factor(den, b, e, pd);
    lemma_dist3(den * a, b * px, d * py, f * pd);
    lemma_factor(den, a, b, px);
    lemma_factor(den, a, d, py);
    lemma_factor(den, a, f, pd);
    vstd::arithmetic::mul::lemma_mul_is_distributive_sub_other_way(den * pd, b * e, a * f);
    vstd::arithmetic::mul::lemma_mul_is_commutative(b * e, den * pd);
    lemma_swap_mul(den, pd, b * e);
    vstd::arithmetic::mul::lemma_mul_is_commutative(a * f, den * pd);
    lemma_swap_mul(den, pd, a * f);
    vstd::arithmetic::mul::lemma_mul_is_commutative(b, a);
    assert(u.y == (den * (a * d)) * py - (den * (b * c)) * py);
    vstd::arithmetic::mul::lemma_mul_is_distributive_sub_other_way(
        py,
        den * (a * d),
        den * (b * c),
    );
    assert(u.y == (den * det) * py);
    // the image denominator, and the cross-multiplied equalities of point_eq
    assert(u.den == det * (den * pd));
    vstd::arithmetic::mul::lemma_mul_is_associative(den * det, px, pd);
    vstd::arithmetic::mul::lemma_mul_is_associative(den * det, py, pd);
    vstd::arithmetic::mul::lemma_mul_is_associative(det, den, pd);
    vstd::arithmetic::mul::lemma_mul_is_commutative(det, den);
    vstd::arithmetic::mul::lemma_mul_is_commutative(px, (den * det) * pd);
    vstd::arithmetic::mul::lemma_mul_is_commutative(py, (den * det) * pd);
    vstd::arithmetic::mul::lemma_mul_is_associative(den * det, pd, px);
    vstd::arithmetic::mul::lemma_mul_is_associative(den * det, pd, py);
    vstd::arithmetic::mul::lemma_mul_is_commutative(pd, px);
    vstd::arithmetic::mul::lemma_mul_is_commutative(pd, py);
    assert(u.x * pd == px * u.den);
    assert(u.y * pd == py * u.den);
    if det >= 0 {
        assert(point_eq(u, p));
    } else {
        let v = affine_apply(neg_model(inverse_unsigned(m)), q);
        vstd::arithmetic::mul::lemma_mul_unary_negation(den * d, qx);
        vstd::arithmetic::mul::lemma_mul_unary_negation(c * f - d * e, den * pd);
        vstd::arithmetic::mul::lemma_mul_unary_negation(den * a, qy);
        vstd::arithmetic::mul::lemma_mul_unary_negation(b * e - a * f, den * pd);
        vstd::arithmetic::mul::lemma_mul_unary_negation(det, den * pd);
        assert(v.x == -u.x && v.y == -u.y && v.den == -u.den);
        vstd::arithmetic::mul::lemma_mul_unary_negation(u.x, pd);
        vstd::arithmetic::mul::lemma_mul_unary_negation(u.y, pd);
        vstd::arithmetic::mul::lemma_mul_is_commutative(px, -u.den);
        vstd::arithmetic::mul::lemma_mul_is_commutative(py, -u.den);
        vstd::arithmetic::mul::lemma_mul_unary_negation(u.den, px);
        vstd::arithmetic::mul::lemma_mul_unary_negation(u.den, py);
        vstd::arithmetic::mul::lemma_mul_is_commutative(u.den, px);
        vstd::arithmetic::mul::lemma_mul_is_commutative(u.den, py);
        assert(v.x * pd == px * v.den);
        assert(v.y * pd == py * v.den);
        assert(point_eq(v, p));
    }
}

/// Pivot invariance: a pivot-relative linear increment leaves the pivot's
/// position on the mapped image unchanged. Any point whose exact image under
/// the current transform is the pivot still maps to the pivot after the
/// increment.
pub proof fn lemma_pivot_invariance(
    op: AffineModel,
    pivot: PointModel,
    cur: AffineModel,
    q: PointModel,
)
    requires
        affine_model_wf(op),
        affine_model_wf(cur),
        point_model_wf(pivot),
        point_model_wf(q),
        linear_only(op),
        point_eq(affine_apply(cur, q), pivot),
    ensures
        point_eq(affine_apply(pivoted_model(op, pivot, cur), q), pivot),
{
    let w = affine_apply(cur, q);
    let z = affine_apply(translate_model(neg_point(pivot)), w);
    let z2 = affine_apply(op, z);
    let z3 = affine_apply(translate_model(pivot), z2);
    lemma_apply_compose(translate_model(neg_point(pivot)), cur, q);
    lemma_apply_compose(op, affine_compose(translate_model(neg_point(pivot)), cur), q);
    lemma_apply_compose(
        translate_model(pivot),
        affine_compose(op, affine_compose(translate_model(neg_point(pivot)), cur)),
        q,
    );
    assert(affine_apply(pivoted_model(op, pivot, cur), q) == z3);
    assert(z.x == 0 && z.y == 0) by (nonlinear_arith)
        requires
            w.x * pivot.den == pivot.x * w.den,
            w.y * pivot.den == pivot.y * w.den,
            z.x == pivot.den * w.x + (-pivot.x) * w.den,
            z.y == pivot.den * w.y + (-pivot.y) * w.den,
    ;
    assert(z2.x == 0 && z2.y == 0) by (nonlinear_arith)
        requires
            z.x == 0,
            z.y == 0,
            op.e == 0,
            op.f == 0,
            z2.x == op.a * z.x + op.c * z.y + op.e * z.den,
            z2.y == op.b * z.x + op.d * z.y + op.f * z.den,
    ;
    assert(z3.x * pivot.den == pivot.x * z3.den && z3.y * pivot.den == pivot.y * z3.den)
        by (nonlinear_arith)
        requires
            z2.x == 0,
            z2.y == 0,
            z3.x == pivot.den * z2.x + pivot.x * z2.den,
            z3.y == pivot.den * z2.y + pivot.y * z2.den,
            z3.den == pivot.den * z2.den,
    ;
}

/// A pivot-relative increment keeps the transform invertible: the pivoted
/// composition of transforms with non-zero determinants has a non-zero
/// determinant.
pub proof fn lemma_pivoted_det(op: AffineModel, pivot: PointModel, cur: AffineModel)
    requires
        point_model_wf(pivot),
        det_raw(op) != 0,
        det_raw(cur) != 0,
    ensures
        det_raw(pivoted_model(op, pivot, cur)) != 0,
{
    let tneg = translate_model(neg_point(pivot));
    let tpos = translate_model(pivot);
    lemma_det_compose(tneg, cur);
    lemma_det_compose(op, affine_compose(tneg, cur));
    lemma_det_compose(tpos, affine_compose(op, affine_compose(tneg, cur)));
    lemma_mul_pos(pivot.den, pivot.den);
    crate::rational::lemma_mul_nonzero(det_raw(tneg), det_raw(cur));
    crate::rational::lemma_mul_nonzero(det_raw(op), det_raw(affine_compose(tneg, cur)));
    crate::rational::lemma_mul_nonzero(
        det_raw(tpos),
        det_raw(affine_compose(op, affine_compose(tneg, cur))),
    );
}

/// The restricted, point-for-point form of pivot invariance: when the pivot
/// itself is currently a fixed point of the transform, its image is the same
/// before and after the pivot-relative increment.
pub proof fn lemma_pivot_fixed_point(op: AffineModel, pivot: PointModel, cur: AffineModel)
    requires
        affine_model_wf(op),
        affine_model_wf(cur),
        point_model_wf(pivot),
        linear_only(op),
        point_eq(affine_apply(cur, pivot), pivot),
    ensures
        point_eq(
            affine_apply(pivoted_model(op, pivot, cur), pivot),
            affine_apply(cur, pivot),
        ),
{
    lemma_pivot_invariance(op, pivot, cur, pivot);
    let z3 = affine_apply(pivoted_model(op, pivot, cur), pivot);
    let w = affine_apply(cur, pivot);
    lemma_mul_pos(cur.den, pivot.den);
    lemma_mul_pos(pivot.den, cur.den);
    lemma_mul_pos(op.den, pivot.den * cur.den);
    lemma_mul_pos(pivot.den, op.den * (pivot.den * cur.den));
    lemma_mul_pos(pivot.den * (op.den * (pivot.den * cur.den)), pivot.den);
    assert(point_eq(z3, w)) by (nonlinear_arith)
        requires
            point_model_wf(pivot),
            z3.x * pivot.den == pivot.x * z3.den,
            z3.y * pivot.den == pivot.y * z3.den,
            w.x * pivot.den == pivot.x * w.den,
            w.y * pivot.den == pivot.y * w.den,
            z3.den != 0,
            w.den != 0,
            point_eq(z3, w) == (z3.x * w.den == w.x * z3.den && z3.y * w.den == w.y * z3.den),
    ;
}

/// Checked `i128` addition: `None` exactly when the exact sum leaves `i128`.
fn add_i128(a: i128, b: i128) -> (r: Option<i128>)
    ensures
        r is Some <==> in_i128(a + b),
        r matches Some(v) ==> v as int == a + b,
{
    if b >= 0 {
        if a > i128::MAX - b {
            None
        } else {
            Some(a + b)
        }
    } else {
        if a < i128::MIN - b {
            None
        } else {
            Some(a + b)
        }
    }
}

/// Checked product of two `i64` values: `None` exactly when the exact
/// product leaves `i64`.
fn mul_i64(x: i64, y: i64) -> (r: Option<i64>)
    ensures
        r is Some <==> in_i64(x * y),
        r matches Some(v) ==> v as int == x * y,
{
    proof {
        lemma_i64_mul_bound(x as int, y as int);
    }
    let p: i128 = (x as i128) * (y as i128);
    if p < i64::MIN as i128 || p > i64::MAX as i128 {
        None
    } else {
        Some(p as i64)
    }
}

/// Checked `x1*y1 + x2*y2` over `i64` values: `None` exactly when the exact
/// value leaves `i64`.
fn dot2(x1: i64, y1: i64, x2: i64, y2: i64) -> (r: Option<i64>)
    ensures
        r is Some <==> in_i64(x1 * y1 + x2 * y2),
        r matches Some(v) ==> v as int == x1 * y1 + x2 * y2,
{
    proof {
        lemma_i64_mul_bound(x1 as int, y1 as int);
        lemma_i64_mul_bound(x2 as int, y2 as int);
    }
    let p1: i128 = (x1 as i128) * (y1 as i128);
    let p2: i128 = (x2 as i128) * (y2 as i128);
    let s: i128 = match add_i128(p1, p2) {
        Some(v) => v,
        None => {
            return None;
        },
    };
    if s < i64::MIN as i128 || s > i64::MAX as i128 {
        None
    } else {
        Some(s as i64)
    }
}

/// Checked `x1*y1 + x2*y2 + x3*y3` over `i64` values: `None` exactly when
/// the exact value leaves `i64`.
fn dot3(x1: i64, y1: i64, x2: i64, y2: i64, x3: i64, y3: i64) -> (r: Option<i64>)
    ensures
        r is Some <==> in_i64(x1 * y1 + x2 * y2 + x3 * y3),
        r matches Some(v) ==> v as int == x1 * y1 + x2 * y2 + x3 * y3,
{
    proof {
        lemma_i64_mul_bound(x1 as int, y1 as int);
        lemma_i64_mul_bound(x2 as int, y2 as int);
        lemma_i64_mul_bound(x3 as int, y3 as int);
    }
    let p1: i128 = (x1 as i128) * (y1 as i128);
    let p2: i128 = (x2 as i128) * (y2 as i128);
    let p3: i128 = (x3 as i128) * (y3 as i128);
    let s12: i128 = match add_i128(p1, p2) {
        Some(v) => v,
        None => {
            return None;
        },
    };
    let s: i128 = match add_i128(s12, p3) {
        Some(v) => v,
        None => {
            return None;
        },
    };
    if s < i64::MIN as i128 || s > i64::MAX as i128 {
        None
    } else {
        Some(s as i64)
    }
}

/// An executable point: exact rational coordinates sharing one positive
/// denominator.
#[derive(Clone, Copy, Debug, PartialEq, Eq, Structural)]
pub struct Point {
    x: i64,
    y: i64,
    den: i64,
}

impl View for Point {
    type V = PointModel;

    closed spec fn view(&self) -> PointModel {
        PointModel { x: self.x as int, y: self.y as int, den: self.den as int }
    }
}

impl Point {
    /// The denominator is positive.
    pub closed spec fn wf(self) -> bool {
        self.den > 0
    }

    /// A well-formed point has a well-formed, `i64`-ranged model.
    pub proof fn lemma_wf_model(self)
        requires
            self.wf(),
        ensures
            point_model_wf(self@),
            point_in_i64(self@),
    {
    }

    /// The point `(x, y)` with whole-number coordinates.
    pub fn from_ints(x: i64, y: i64) -> (r: Point)
        ensures
            r.wf(),
            r@ == (PointModel { x: x as int, y: y as int, den: 1 }),
    {
        Point { x, y, den: 1 }
    }

    /// The point `(x, y)` from two rational coordinates. `None` exactly when
    /// bringing the coordinates onto one denominator leaves `i64`.
    pub fn new(x: Rat, y: Rat) -> (r: Option<Point>)
        requires
            x.wf(),
            y.wf(),
        ensures
            r is Some <==> point_in_i64(
                PointModel { x: x@.n * y@.d, y: y@.n * x@.d, den: x@.d * y@.d },
            ),
            r matches Some(p) ==> p.wf() && p@ == (PointModel {
                x: x@.n * y@.d,
                y: y@.n * x@.d,
                den: x@.d * y@.d,
            }),
    {
        proof {
            x.lemma_wf_pos();
            y.lemma_wf_pos();
            lemma_mul_pos(x@.d, y@.d);
        }
        let xn: i64 = match mul_i64(x.num(), y.den()) {
            Some(v) => v,
            None => {
                return None;
            },
        };
        let yn: i64 = match mul_i64(y.num(), x.den()) {
            Some(v) => v,
            None => {
                return None;
            },
        };
        let d: i64 = match mul_i64(x.den(), y.den()) {
            Some(v) => v,
            None => {
                return None;
            },
        };
        Some(Point { x: xn, y: yn, den: d })
    }

    /// The x coordinate as a fraction.
    pub fn x(&self) -> (r: Rat)
        requires
            self.wf(),
        ensures
            r.wf(),
            r@ == point_frac_x(self@),
    {
        Rat::from_num_den(self.x, self.den)
    }

    /// The y coordinate as a fraction.
    pub fn y(&self) -> (r: Rat)
        requires
            self.wf(),
        ensures
            r.wf(),
            r@ == point_frac_y(self@),
    {
        Rat::from_num_den(self.y, self.den)
    }

    /// The opposite vector. `None` exactly when negating a coordinate leaves
    /// `i64`.
    pub fn neg(&self) -> (r: Option<Point>)
        requires
            self.wf(),
        ensures
            r is Some <==> in_i64(-self@.x) && in_i64(-self@.y),
            r matches Some(q) ==> q.wf() && q@ == (PointModel {
                x: -self@.x,
                y: -self@.y,
                den: self@.den,
            }),
    {
        if self.x == i64::MIN || self.y == i64::MIN {
            None
        } else {
            Some(Point { x: -self.x, y: -self.y, den: self.den })
        }
    }

    /// Exact equality of the denoted coordinates; never fails.
    pub fn equiv(&self, other: &Point) -> (r: bool)
        requires
            self.wf(),
            other.wf(),
        ensures
            r == point_eq(self@, other@),
    {
        proof {
            lemma_i64_mul_bound(self.x as int, other.den as int);
            lemma_i64_mul_bound(other.x as int, self.den as int);
            lemma_i64_mul_bound(self.y as int, other.den as int);
            lemma_i64_mul_bound(other.y as int, self.den as int);
        }
        (self.x as i128) * (other.den as i128) == (other.x as i128) * (self.den as i128) && (self.y
            as i128) * (other.den as i128) == (other.y as i128) * (self.den as i128)
    }
}

/// An executable affine transform: six exact rational coefficients sharing
/// one positive denominator.
#[derive(Clone, Copy, Debug, PartialEq, Eq, Structural)]
pub struct Affine {
    a: i64,
    b: i64,
    c: i64,
    d: i64,
    e: i64,
    f: i64,
    den: i64,
}

impl View for Affine {
    type V = AffineModel;

    closed spec fn view(&self) -> AffineModel {
        AffineModel {
            a: self.a as int,
            b: self.b as int,
            c: self.c as int,
            d: self.d as int,
            e: self.e as int,
            f: self.f as int,
            den: self.den as int,
        }
    }
}

impl Affine {
    /// The denominator is positive.
    pub closed spec fn wf(self) -> bool {
        self.den > 0
    }

    /// A well-formed transform has a well-formed, `i64`-ranged model.
    pub proof fn lemma_wf_model(self)
        requires
            self.wf(),
        ensures
            affine_model_wf(self@),
            model_in_i64(self@),
    {
    }

    /// The identity transform.
    pub fn identity() -> (r: Affine)
        ensures
            r.wf(),
            r@ == identity_model(),
    {
        Affine { a: 1, b: 0, c: 0, d: 1, e: 0, f: 0, den: 1 }
    }

    /// Translation by the vector `v`; never fails.
    pub fn translate(v: &Point) -> (r: Affine)
        requires
            v.wf(),
        ensures
            r.wf(),
            r@ == translate_model(v@),
    {
        Affine { a: v.den, b: 0, c: 0, d: v.den, e: v.x, f: v.y, den: v.den }
    }

    /// Uniform scaling by `s`; never fails.
    pub fn scale_uniform(s: Rat) -> (r: Affine)
        requires
            s.wf(),
        ensures
            r.wf(),
            r@ == scale_uniform_model(s@),
    {
        proof {
            s.lemma_wf_pos();
        }
        let n: i64 = s.num();
        let d: i64 = s.den();
        Affine { a: n, b: 0, c: 0, d: n, e: 0, f: 0, den: d }
    }

    /// Scaling by `sx` along x and `sy` along y. `None` exactly when
    /// bringing the two factors onto one denominator leaves `i64`.
    pub fn scale_non_uniform(sx: Rat, sy: Rat) -> (r: Option<Affine>)
        requires
            sx.wf(),
            sy.wf(),
        ensures
            r is Some <==> model_in_i64(scale_model(sx@, sy@)),
            r matches Some(m) ==> m.wf() && m@ == scale_model(sx@, sy@),
    {
        proof {
            sx.lemma_wf_pos();
            sy.lemma_wf_pos();
            lemma_mul_pos(sx@.d, sy@.d);
        }
        let a: i64 = match mul_i64(sx.num(), sy.den()) {
            Some(v) => v,
            None => {
                return None;
            },
        };
        let d: i64 = match mul_i64(sy.num(), sx.den()) {
            Some(v) => v,
            None => {
                return None;
            },
        };
        let den: i64 = match mul_i64(sx.den(), sy.den()) {
            Some(v) => v,
            None => {
                return None;
            },
        };
        Some(Affine { a, b: 0, c: 0, d, e: 0, f: 0, den })
    }

    /// Rotation with cosine `c` and sine `s` (the caller supplies an exact
    /// rational approximation of the angle's cosine and sine). `None` exactly
    /// when bringing the two onto one denominator leaves `i64`.
    pub fn rotate_cos_sin(c: Rat, s: Rat) -> (r: Option<Affine>)
        requires
            c.wf(),
            s.wf(),
        ensures
            r is Some <==> model_in_i64(rotate_model(c@, s@)),
            r matches Some(m) ==> m.wf() && m@ == rotate_model(c@, s@),
    {
        proof {
            c.lemma_wf_pos();
            s.lemma_wf_pos();
            lemma_mul_pos(c@.d, s@.d);
        }
        let ca: i64 = match mul_i64(c.num(), s.den()) {
            Some(v) => v,
            None => {
                return None;
            },
        };
        let sb: i64 = match mul_i64(s.num(), c.den()) {
            Some(v) => v,
            None => {
                return None;
            },
        };
        if sb == i64::MIN {
            return None;
        }
        let den: i64 = match mul_i64(c.den(), s.den()) {
            Some(v) => v,
            None => {
                return None;
            },
        };
        Some(Affine { a: ca, b: sb, c: -sb, d: ca, e: 0, f: 0, den })
    }

    /// The matrix product `self * other` (apply `other` first, then `self`).
    /// `None` exactly when a component of the exact product leaves `i64`.
    pub fn compose(&self, other: &Affine) -> (r: Option<Affine>)
        requires
            self.wf(),
            other.wf(),
        ensures
            r is Some <==> model_in_i64(affine_compose(self@, other@)),
            r matches Some(m) ==> m.wf() && m@ == affine_compose(self@, other@),
    {
        proof {
            lemma_mul_pos(self.den as int, other.den as int);
        }
        let a: i64 = match dot2(self.a, other.a, self.c, other.b) {
            Some(v) => v,
            None => {
                return None;
            },
        };
        let b: i64 = match dot2(self.b, other.a, self.d, other.b) {
            Some(v) => v,
            None => {
                return None;
            },
        };
        let c: i64 = match dot2(self.a, other.c, self.c, other.d) {
            Some(v) => v,
            None => {
                return None;
            },
        };
        let d: i64 = match dot2(self.b, other.c, self.d, other.d) {
            Some(v) => v,
            None => {
                return None;
            },
        };
        let e: i64 = match dot3(self.a, other.e, self.c, other.f, self.e, other.den) {
            Some(v) => v,
            None => {
                return None;
            },
        };
        let f: i64 = match dot3(self.b, other.e, self.d, other.f, self.f, other.den) {
            Some(v) => v,
            None => {
                return None;
            },
        };
        let den: i64 = match mul_i64(self.den, other.den) {
            Some(v) => v,
            None => {
                return None;
            },
        };
        Some(Affine { a, b, c, d, e, f, den })
    }

    /// The exact image of `p` under this transform. `None` exactly when a
    /// coordinate of the exact image leaves `i64`.
    pub fn apply_to_point(&self, p: &Point) -> (r: Option<Point>)
        requires
            self.wf(),
            p.wf(),
        ensures
            r is Some <==> point_in_i64(affine_apply(self@, p@)),
            r matches Some(q) ==> q.wf() && q@ == affine_apply(self@, p@),
    {
        proof {
            lemma_mul_pos(self.den as int, p.den as int);
        }
        let x: i64 = match dot3(self.a, p.x, self.c, p.y, self.e, p.den) {
            Some(v) => v,
            None => {
                return None;
            },
        };
        let y: i64 = match dot3(self.b, p.x, self.d, p.y, self.f, p.den) {
            Some(v) => v,
            None => {
                return None;
            },
        };
        let den: i64 = match mul_i64(self.den, p.den) {
            Some(v) => v,
            None => {
                return None;
            },
        };
        Some(Point { x, y, den })
    }

    /// The transform has no inverse (zero determinant); never fails.
    pub fn is_singular(&self) -> (r: bool)
        requires
            self.wf(),
        ensures
            r == (det_raw(self@) == 0),
    {
        proof {
            lemma_i64_mul_bound(self.a as int, self.d as int);
            lemma_i64_mul_bound(self.b as int, self.c as int);
        }
        (self.a as i128) * (self.d as i128) - (self.b as i128) * (self.c as i128) == 0
    }

    /// The exact inverse transform. Fails with `SingularMatrix` exactly when
    /// the determinant is zero, and with `Overflow` exactly when the inverse
    /// exists but a component of its exact value leaves `i64`.
    pub fn inverse(&self) -> (r: Result<Affine, TransformError>)
        requires
            self.wf(),
        ensures
            r matches Ok(m) <==> det_raw(self@) != 0 && model_in_i64(affine_inverse(self@)),
            r matches Ok(m) ==> m.wf() && m@ == affine_inverse(self@),
            r == Err::<Affine, TransformError>(TransformError::SingularMatrix) <==> det_raw(self@)
                == 0,
            r == Err::<Affine, TransformError>(TransformError::Overflow) <==> det_raw(self@) != 0
                && !model_in_i64(affine_inverse(self@)),
    {
        proof {
            lemma_i64_mul_bound(self.a as int, self.d as int);
            lemma_i64_mul_bound(self.b as int, self.c as int);
            lemma_i64_mul_bound(self.den as int, self.d as int);
            lemma_i64_mul_bound(self.den as int, self.b as int);
            lemma_i64_mul_bound(self.den as int, self.c as int);
            lemma_i64_mul_bound(self.den as int, self.a as int);
            lemma_i64_mul_bound(self.c as int, self.f as int);
            lemma_i64_mul_bound(self.d as int, self.e as int);
            lemma_i64_mul_bound(self.b as int, self.e as int);
            lemma_i64_mul_bound(self.a as int, self.f as int);
        }
        let det: i128 = (self.a as i128) * (self.d as i128) - (self.b as i128) * (self.c as i128);
        if det == 0 {
            return Err(TransformError::SingularMatrix);
        }
        let mut ia: i128 = (self.den as i128) * (self.d as i128);
        let mut ib: i128 = -((self.den as i128) * (self.b as i128));
        let mut ic: i128 = -((self.den as i128) * (self.c as i128));
        let mut id: i128 = (self.den as i128) * (self.a as i128);
        let mut ie: i128 = (self.c as i128) * (self.f as i128) - (self.d as i128) * (self.e
            as i128);
        let mut if_: i128 = (self.b as i128) * (self.e as i128) - (self.a as i128) * (self.f
            as i128);
        let mut iden: i128 = det;
        if det < 0 {
            ia = -ia;
            ib = -ib;
            ic = -ic;
            id = -id;
            ie = -ie;
            if_ = -if_;
            iden = -iden;
        }
        if ia < i64::MIN as i128 || ia > i64::MAX as i128 || ib < i64::MIN as i128 || ib > i64::MAX
            as i128 || ic < i64::MIN as i128 || ic > i64::MAX as i128 || id < i64::MIN as i128 || id
            > i64::MAX as i128 || ie < i64::MIN as i128 || ie > i64::MAX as i128 || if_ < i64::MIN
            as i128 || if_ > i64::MAX as i128 || iden > i64::MAX as i128 {
            return Err(TransformError::Overflow);
        }
        Ok(
            Affine {
                a: ia as i64,
                b: ib as i64,
                c: ic as i64,
                d: id as i64,
                e: ie as i64,
                f: if_ as i64,
                den: iden as i64,
            },
        )
    }

    /// Coefficient `a` as a fraction.
    pub fn a(&self) -> (r: Rat)
        requires
            self.wf(),
        ensures
            r.wf(),
            r@ == (Frac { n: self@.a, d: self@.den }),
    {
        Rat::from_num_den(self.a, self.den)
    }

    /// Coefficient `b` as a fraction.
    pub fn b(&self) -> (r: Rat)
        requires
            self.wf(),
        ensures
            r.wf(),
            r@ == (Frac { n: self@.b, d: self@.den }),
    {
        Rat::from_num_den(self.b, self.den)
    }

    /// Coefficient `c` as a fraction.
    pub fn c(&self) -> (r: Rat)
        requires
            self.wf(),
        ensures
            r.wf(),
            r@ == (Frac { n: self@.c, d: self@.den }),
    {
        Rat::from_num_den(self.c, self.den)
    }

    /// Coefficient `d` as a fraction.
    pub fn d(&self) -> (r: Rat)
        requires
            self.wf(),
        ensures
            r.wf(),
            r@ == (Frac { n: self@.d, d: self@.den }),
    {
        Rat::from_num_den(self.d, self.den)
    }

    /// Coefficient `e` as a fraction.
    pub fn e(&self) -> (r: Rat)
        requires
            self.wf(),
        ensures
            r.wf(),
            r@ == (Frac { n: self@.e, d: self@.den }),
    {
        Rat::from_num_den(self.e, self.den)
    }

    /// Coefficient `f` as a fraction.
    pub fn f(&self) -> (r: Rat)
        requires
            self.wf(),
        ensures
            r.wf(),
            r@ == (Frac { n: self@.f, d: self@.den }),
    {
        Rat::from_num_den(self.f, self.den)
    }

    /// Exact equality of the denoted transforms; never fails.
    pub fn equiv(&self, other: &Affine) -> (r: bool)
        requires
            self.wf(),
            other.wf(),
        ensures
            r == affine_eq(self@, other@),
    {
        proof {
            lemma_i64_mul_bound(self.a as int, other.den as int);
            lemma_i64_mul_bound(other.a as int, self.den as int);
            lemma_i64_mul_bound(self.b as int, other.den as int);
            lemma_i64_mul_bound(other.b as int, self.den as int);
            lemma_i64_mul_bound(self.c as int, other.den as int);
            lemma_i64_mul_bound(other.c as int, self.den as int);
            lemma_i64_mul_bound(self.d as int, other.den as int);
            lemma_i64_mul_bound(other.d as int, self.den as int);
            lemma_i64_mul_bound(self.e as int, other.den as int);
            lemma_i64_mul_bound(other.e as int, self.den as int);
            lemma_i64_mul_bound(self.f as int, other.den as int);
            lemma_i64_mul_bound(other.f as int, self.den as int);
        }
        let sd: i128 = self.den as i128;
        let od: i128 = other.den as i128;
        (self.a as i128) * od == (other.a as i128) * sd && (self.b as i128) * od == (other.b
            as i128) * sd && (self.c as i128) * od == (other.c as i128) * sd && (self.d as i128)
            * od == (other.d as i128) * sd && (self.e as i128) * od == (other.e as i128) * sd && (
        self.f as i128) * od == (other.f as i128) * sd
    }
}

} // verus!
