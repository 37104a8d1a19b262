//! The algebraic laws of the vector operations, stated over the
//! mathematical model [`Model3`] and proved once for all vectors.
//!
//! The executable operations in [`crate::vector3`] each ensure that their
//! result views to the corresponding model operation, so every law here
//! carries over to the executable results wherever the operations are
//! defined.

use vstd::prelude::*;
use crate::vector3::{
    Model3, Vector3, div_trunc, spec_add, spec_cross, spec_div, spec_dot, spec_neg, spec_scale,
    spec_sub, spec_zero,
};

verus! {

/// Two vectors are equal exactly when the three corresponding components
/// are equal; a vector that differs in at least one component is unequal.
pub proof fn lemma_eq_componentwise(u: Vector3, v: Vector3)
    ensures
        (u == v) <==> (u.x == v.x && u.y == v.y && u.z == v.z),
{
}

/// Vectors with the same model are the same vector, so any two operations
/// whose results have equal models (for instance an operation and its
/// compound-assignment form) return equal vectors.
pub proof fn lemma_view_injective(u: Vector3, v: Vector3)
    ensures
        (u@ == v@) <==> (u == v),
{
}

/// Vector addition is commutative: `u + v == v + u`.
pub proof fn lemma_add_commutative(a: Model3, b: Model3)
    ensures
        spec_add(a, b) == spec_add(b, a),
{
}

/// Vector addition is associative: `(u + v) + w == u + (v + w)`.
pub proof fn lemma_add_associative(a: Model3, b: Model3, c: Model3)
    ensures
        spec_add(spec_add(a, b), c) == spec_add(a, spec_add(b, c)),
{
}

/// The zero vector is the additive identity: `u + 0 == u`.
pub proof fn lemma_add_identity(a: Model3)
    ensures
        spec_add(a, spec_zero()) == a,
{
}

/// Negation is the additive inverse: `u + (-u) == 0`.
pub proof fn lemma_add_inverse(a: Model3)
    ensures
        spec_add(a, spec_neg(a)) == spec_zero(),
{
}

/// Subtraction agrees with adding the negation: `u - v == u + (-v)`.
pub proof fn lemma_sub_consistent(a: Model3, b: Model3)
    ensures
        spec_sub(a, b) == spec_add(a, spec_neg(b)),
{
}

/// Scalar multiplication distributes over addition:
/// `(u + v) * s == u * s + v * s`.
pub proof fn lemma_scale_distributive(a: Model3, b: Model3, s: int)
    ensures
        spec_scale(spec_add(a, b), s) == spec_add(spec_scale(a, s), spec_scale(b, s)),
{
    assert((a.x + b.x) * s == a.x * s + b.x * s) by (nonlinear_arith);
    assert((a.y + b.y) * s == a.y * s + b.y * s) by (nonlinear_arith);
    assert((a.z + b.z) * s == a.z * s + b.z * s) by (nonlinear_arith);
}

/// Truncating division is exact on multiples: `(x * s) / s == x` for
/// `s != 0`.
pub proof fn lemma_div_trunc_of_multiple(x: int, s: int)
    requires
        s != 0,
    ensures
        div_trunc(x * s, s) == x,
{
    assert(div_trunc(x * s, s) == x) by (nonlinear_arith)
        requires
            s != 0,
    ;
}

/// Scaling by a non-zero scalar and then dividing by it gives the vector
/// back: `(u * s) / s == u`.
pub proof fn lemma_scale_then_div(a: Model3, s: int)
    requires
        s != 0,
    ensures
        spec_div(spec_scale(a, s), s) == a,
{
    lemma_div_trunc_of_multiple(a.x, s);
    lemma_div_trunc_of_multiple(a.y, s);
    lemma_div_trunc_of_multiple(a.z, s);
}

/// The dot product is symmetric: `u.dot(v) == v.dot(u)`.
pub proof fn lemma_dot_symmetric(a: Model3, b: Model3)
    ensures
        spec_dot(a, b) == spec_dot(b, a),
{
}

/// The dot product is additive in its left operand:
/// `(u + v).dot(w) == u.dot(w) + v.dot(w)`.
pub proof fn lemma_dot_bilinear(a: Model3, b: Model3, w: Model3)
    ensures
        spec_dot(spec_add(a, b), w) == spec_dot(a, w) + spec_dot(b, w),
{
    assert((a.x + b.x) * w.x == a.x * w.x + b.x * w.x) by (nonlinear_arith);
    assert((a.y + b.y) * w.y == a.y * w.y + b.y * w.y) by (nonlinear_arith);
    assert((a.z + b.z) * w.z == a.z * w.z + b.z * w.z) by (nonlinear_arith);
}

/// The dot product of a vector with itself is its sum of squares:
/// `u.dot(u) == u.x * u.x + u.y * u.y + u.z * u.z`.
pub proof fn lemma_dot_self_squares(a: Model3)
    ensures
        spec_dot(a, a) == a.x * a.x + a.y * a.y + a.z * a.z,
{
}

/// The cross product is antisymmetric: `u.cross(v) == -(v.cross(u))`.
pub proof fn lemma_cross_antisymmetric(a: Model3, b: Model3)
    ensures
        spec_cross(a, b) == spec_neg(spec_cross(b, a)),
{
}

/// The cross product of a vector with itself is the zero vector:
/// `u.cross(u) == 0`.
pub proof fn lemma_cross_self_zero(a: Model3)
    ensures
        spec_cross(a, a) == spec_zero(),
{
}

/// The cross product is orthogonal to both of its operands:
/// `u.cross(v).dot(u) == 0` and `u.cross(v).dot(v) == 0`.
pub proof fn lemma_cross_orthogonal(a: Model3, b: Model3)
    ensures
        spec_dot(spec_cross(a, b), a) == 0,
        spec_dot(spec_cross(a, b), b) == 0,
{
    assert((a.y * b.z - a.z * b.y) * a.x + (a.z * b.x - a.x * b.z) * a.y + (a.x * b.y - a.y
        * b.x) * a.z == 0) by (nonlinear_arith);
    assert((a.y * b.z - a.z * b.y) * b.x + (a.z * b.x - a.x * b.z) * b.y + (a.x * b.y - a.y
        * b.x) * b.z == 0) by (nonlinear_arith);
}

} // verus!
