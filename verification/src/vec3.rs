//! An exact three-component vector model for the controller's laws.
//!
//! The components are mathematical integers standing for scaled real
//! coordinates: every statement proved here is a polynomial identity,
//! so it holds for the real-valued vectors the engine evaluates with.

use vstd::arithmetic::mul::{
    lemma_mul_is_associative, lemma_mul_is_commutative, lemma_mul_is_distributive_add,
};
use vstd::prelude::*;

verus! {

/// A vector with exact integer components.
pub ghost struct SpecVec3 {
    pub x: int,
    pub y: int,
    pub z: int,
}

/// The vector (x, y, z).
pub open spec fn v3(x: int, y: int, z: int) -> SpecVec3 {
    SpecVec3 { x, y, z }
}

/// Component-wise sum.
pub open spec fn add3(a: SpecVec3, b: SpecVec3) -> SpecVec3 {
    v3(a.x + b.x, a.y + b.y, a.z + b.z)
}

/// The vector scaled by `k`.
pub open spec fn scale3(k: int, a: SpecVec3) -> SpecVec3 {
    v3(k * a.x, k * a.y, k * a.z)
}

/// The dot product; `dot3(a, a)` is the squared length of `a`.
pub open spec fn dot3(a: SpecVec3, b: SpecVec3) -> int {
    a.x * b.x + a.y * b.y + a.z * b.z
}

/// The dot product is symmetric.
pub proof fn lemma_dot_symmetric(a: SpecVec3, b: SpecVec3)
    ensures
        dot3(a, b) == dot3(b, a),
{
    assert(a.x * b.x == b.x * a.x && a.y * b.y == b.y * a.y && a.z * b.z == b.z * a.z)
        by (nonlinear_arith);
}

/// The dot product distributes over vector addition.
pub proof fn lemma_dot_add_left(a: SpecVec3, b: SpecVec3, c: SpecVec3)
    ensures
        dot3(add3(a, b), c) == dot3(a, c) + dot3(b, c),
{
    assert((a.x + b.x) * c.x == a.x * c.x + b.x * c.x) by (nonlinear_arith);
    assert((a.y + b.y) * c.y == a.y * c.y + b.y * c.y) by (nonlinear_arith);
    assert((a.z + b.z) * c.z == a.z * c.z + b.z * c.z) by (nonlinear_arith);
}

/// A scalar factor moves out of the dot product.
pub proof fn lemma_dot_scale_left(k: int, a: SpecVec3, b: SpecVec3)
    ensures
        dot3(scale3(k, a), b) == k * dot3(a, b),
{
    lemma_mul_is_associative(k, a.x, b.x);
    lemma_mul_is_associative(k, a.y, b.y);
    lemma_mul_is_associative(k, a.z, b.z);
    lemma_mul_is_distributive_add(k, a.x * b.x, a.y * b.y);
    lemma_mul_is_distributive_add(k, a.x * b.x + a.y * b.y, a.z * b.z);
}

/// Scaling a vector by `k` scales its squared length by `k²`.
pub proof fn lemma_dot_scale(k: int, a: SpecVec3)
    ensures
        dot3(scale3(k, a), scale3(k, a)) == k * k * dot3(a, a),
{
    let x: int = a.x;
    let y: int = a.y;
    let z: int = a.z;
    assert((k * x) * (k * x) + (k * y) * (k * y) + (k * z) * (k * z) == k * k * (x * x + y * y
        + z * z)) by (nonlinear_arith);
}

/// The squared length of `a·p + b·q + c·r` expands bilinearly over the
/// three vectors' pairwise dot products.
pub proof fn lemma_dot_combination(a: int, b: int, c: int, p: SpecVec3, q: SpecVec3, r: SpecVec3)
    ensures
        dot3(
            add3(add3(scale3(a, p), scale3(b, q)), scale3(c, r)),
            add3(add3(scale3(a, p), scale3(b, q)), scale3(c, r)),
        ) == a * a * dot3(p, p) + b * b * dot3(q, q) + c * c * dot3(r, r) + 2 * ((a * b) * dot3(
            p,
            q,
        )) + 2 * ((a * c) * dot3(p, r)) + 2 * ((b * c) * dot3(q, r)),
{
    let ap = scale3(a, p);
    let bq = scale3(b, q);
    let cr = scale3(c, r);
    let s1 = add3(ap, bq);
    let v = add3(s1, cr);

    // dot3(v, v) splits into a·dot3(p, v) + b·dot3(q, v) + c·dot3(r, v).
    lemma_dot_add_left(s1, cr, v);
    lemma_dot_add_left(ap, bq, v);
    lemma_dot_scale_left(a, p, v);
    lemma_dot_scale_left(b, q, v);
    lemma_dot_scale_left(c, r, v);

    // Each dot3(·, v) splits the same way on its right side.
    lemma_dot_symmetric(p, v);
    lemma_dot_symmetric(q, v);
    lemma_dot_symmetric(r, v);
    lemma_dot_add_left(s1, cr, p);
    lemma_dot_add_left(ap, bq, p);
    lemma_dot_add_left(s1, cr, q);
    lemma_dot_add_left(ap, bq, q);
    lemma_dot_add_left(s1, cr, r);
    lemma_dot_add_left(ap, bq, r);
    lemma_dot_scale_left(a, p, p);
    lemma_dot_scale_left(b, q, p);
    lemma_dot_scale_left(c, r, p);
    lemma_dot_scale_left(a, p, q);
    lemma_dot_scale_left(b, q, q);
    lemma_dot_scale_left(c, r, q);
    lemma_dot_scale_left(a, p, r);
    lemma_dot_scale_left(b, q, r);
    lemma_dot_scale_left(c, r, r);
    lemma_dot_symmetric(q, p);
    lemma_dot_symmetric(r, p);
    lemma_dot_symmetric(r, q);

    let dpp: int = dot3(p, p);
    let dqq: int = dot3(q, q);
    let drr: int = dot3(r, r);
    let dpq: int = dot3(p, q);
    let dpr: int = dot3(p, r);
    let dqr: int = dot3(q, r);
    let tp: int = a * dpp + b * dpq + c * dpr;
    let tq: int = a * dpq + b * dqq + c * dqr;
    let tr: int = a * dpr + b * dqr + c * drr;
    assert(dot3(p, v) == tp);
    assert(dot3(q, v) == tq);
    assert(dot3(r, v) == tr);

    // a · tp == (a·a)·dpp + (a·b)·dpq + (a·c)·dpr, and likewise for the
    // other two rows, with every product re-associated to the pairwise
    // shape of the conclusion.
    lemma_mul_is_distributive_add(a, a * dpp + b * dpq, c * dpr);
    lemma_mul_is_distributive_add(a, a * dpp, b * dpq);
    lemma_mul_is_associative(a, a, dpp);
    lemma_mul_is_associative(a, b, dpq);
    lemma_mul_is_associative(a, c, dpr);
    lemma_mul_is_distributive_add(b, a * dpq + b * dqq, c * dqr);
    lemma_mul_is_distributive_add(b, a * dpq, b * dqq);
    lemma_mul_is_associative(b, a, dpq);
    lemma_mul_is_commutative(b, a);
    lemma_mul_is_associative(b, b, dqq);
    lemma_mul_is_associative(b, c, dqr);
    lemma_mul_is_distributive_add(c, a * dpr + b * dqr, c * drr);
    lemma_mul_is_distributive_add(c, a * dpr, b * dqr);
    lemma_mul_is_associative(c, a, dpr);
    lemma_mul_is_commutative(c, a);
    lemma_mul_is_associative(c, b, dqr);
    lemma_mul_is_commutative(c, b);
    lemma_mul_is_associative(c, c, drr);
}

} // verus!
