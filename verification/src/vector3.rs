//! A three-dimensional vector of signed 64-bit integers, with the standard
//! componentwise algebra: addition, subtraction, negation, absolute value,
//! scalar multiplication and division, dot product and cross product.
//!
//! Contracts are stated over [`Model3`], the mathematical model of a vector:
//! a triple of unbounded integers. Each operation requires only that its
//! result (and the intermediate values the computation passes through) fit
//! in an `i64`; the algebraic laws over the model are proved in
//! [`crate::laws`] without any such bounds.

use vstd::prelude::*;

verus! {

/// The mathematical model of a 3-vector: an ordered triple of unbounded
/// integers.
pub struct Model3 {
    pub x: int,
    pub y: int,
    pub z: int,
}

/// The model of the zero vector.
pub open spec fn spec_zero() -> Model3 {
    Model3 { x: 0, y: 0, z: 0 }
}

/// Componentwise sum.
pub open spec fn spec_add(a: Model3, b: Model3) -> Model3 {
    Model3 { x: a.x + b.x, y: a.y + b.y, z: a.z + b.z }
}

/// Componentwise difference.
pub open spec fn spec_sub(a: Model3, b: Model3) -> Model3 {
    Model3 { x: a.x - b.x, y: a.y - b.y, z: a.z - b.z }
}

/// Componentwise negation.
pub open spec fn spec_neg(a: Model3) -> Model3 {
    Model3 { x: -a.x, y: -a.y, z: -a.z }
}

/// Componentwise absolute value.
pub open spec fn spec_abs(a: Model3) -> Model3 {
    Model3 {
        x: vstd::math::abs(a.x) as int,
        y: vstd::math::abs(a.y) as int,
        z: vstd::math::abs(a.z) as int,
    }
}

/// Each component multiplied by the scalar `s`.
pub open spec fn spec_scale(a: Model3, s: int) -> Model3 {
    Model3 { x: a.x * s, y: a.y * s, z: a.z * s }
}

/// Truncating integer division (rounding toward zero), the semantics of
/// `/` on `i64`. Spec-mode `/` on `int` is Euclidean, so a negative
/// dividend is divided through its magnitude.
pub open spec fn div_trunc(a: int, b: int) -> int {
    if a >= 0 {
        a / b
    } else {
        -((-a) / b)
    }
}

/// For a dividend in the `i64` range and a divisor that does not overflow
/// (`b != 0`, and not `i64::MIN / -1`), the truncated quotient is itself in
/// the `i64` range.
pub proof fn lemma_div_trunc_in_range(a: int, b: int)
    requires
        i64::MIN <= a <= i64::MAX,
        b != 0,
        !(a == i64::MIN && b == -1),
    ensures
        i64::MIN <= div_trunc(a, b) <= i64::MAX,
{
    assert(i64::MIN <= div_trunc(a, b) <= i64::MAX) by (nonlinear_arith)
        requires
            i64::MIN <= a <= i64::MAX,
            b != 0,
            !(a == i64::MIN && b == -1),
    ;
}

/// Each component divided by the scalar `s`, rounding toward zero.
pub open spec fn spec_div(a: Model3, s: int) -> Model3 {
    Model3 { x: div_trunc(a.x, s), y: div_trunc(a.y, s), z: div_trunc(a.z, s) }
}

/// The dot product `a.x * b.x + a.y * b.y + a.z * b.z`.
pub open spec fn spec_dot(a: Model3, b: Model3) -> int {
    a.x * b.x + a.y * b.y + a.z * b.z
}

/// The cross product, right-handed convention.
pub open spec fn spec_cross(a: Model3, b: Model3) -> Model3 {
    Model3 {
        x: a.y * b.z - a.z * b.y,
        y: a.z * b.x - a.x * b.z,
        z: a.x * b.y - a.y * b.x,
    }
}

/// A 3-vector with `i64` components, interpreted as a point or direction in
/// a right-handed Euclidean space. Equality is structural (componentwise).
#[derive(Debug, Clone, Copy, PartialEq, Eq, Structural)]
pub struct Vector3 {
    pub x: i64,
    pub y: i64,
    pub z: i64,
}

impl View for Vector3 {
    type V = Model3;

    open spec fn view(&self) -> Model3 {
        Model3 { x: self.x as int, y: self.y as int, z: self.z as int }
    }
}

/// Relies on num::abs (num_traits::sign::abs): for a signed integer other
/// than the minimum, the absolute value of its argument.
#[verifier::external_body]
fn abs_i64(x: i64) -> (r: i64)
    requires
        x != i64::MIN,
    ensures
        r == vstd::math::abs(x as int),
{
    num::abs(x)
}

impl Vector3 {
    /// Creates a new vector.
    pub fn new(x: i64, y: i64, z: i64) -> (v: Vector3)
        ensures
            v.x == x,
            v.y == y,
            v.z == z,
    {
        Vector3 { x, y, z }
    }

    /// Componentwise vector addition.
    pub fn add(self, other: Vector3) -> (r: Vector3)
        requires
            i64::MIN <= self.x + other.x <= i64::MAX,
            i64::MIN <= self.y + other.y <= i64::MAX,
            i64::MIN <= self.z + other.z <= i64::MAX,
        ensures
            r@ == spec_add(self@, other@),
    {
        Vector3 { x: self.x + other.x, y: self.y + other.y, z: self.z + other.z }
    }

    /// Componentwise vector addition, mutating the receiver in place.
    pub fn add_assign(&mut self, other: Vector3)
        requires
            i64::MIN <= old(self).x + other.x <= i64::MAX,
            i64::MIN <= old(self).y + other.y <= i64::MAX,
            i64::MIN <= old(self).z + other.z <= i64::MAX,
        ensures
            final(self)@ == spec_add(old(self)@, other@),
    {
        self.x = self.x + other.x;
        self.y = self.y + other.y;
        self.z = self.z + other.z;
    }

    /// Componentwise vector subtraction.
    pub fn sub(self, other: Vector3) -> (r: Vector3)
        requires
            i64::MIN <= self.x - other.x <= i64::MAX,
            i64::MIN <= self.y - other.y <= i64::MAX,
            i64::MIN <= self.z - other.z <= i64::MAX,
        ensures
            r@ == spec_sub(self@, other@),
    {
        Vector3 { x: self.x - other.x, y: self.y - other.y, z: self.z - other.z }
    }

    /// Componentwise vector subtraction, mutating the receiver in place.
    pub fn sub_assign(&mut self, other: Vector3)
        requires
            i64::MIN <= old(self).x - other.x <= i64::MAX,
            i64::MIN <= old(self).y - other.y <= i64::MAX,
            i64::MIN <= old(self).z - other.z <= i64::MAX,
        ensures
            final(self)@ == spec_sub(old(self)@, other@),
    {
        self.x = self.x - other.x;
        self.y = self.y - other.y;
        self.z = self.z - other.z;
    }

    /// Componentwise negation.
    pub fn neg(self) -> (r: Vector3)
        requires
            self.x != i64::MIN,
            self.y != i64::MIN,
            self.z != i64::MIN,
        ensures
            r@ == spec_neg(self@),
    {
        Vector3 { x: -self.x, y: -self.y, z: -self.z }
    }

    /// Each component multiplied by the scalar `s`.
    pub fn mul(self, s: i64) -> (r: Vector3)
        requires
            i64::MIN <= self.x * s <= i64::MAX,
            i64::MIN <= self.y * s <= i64::MAX,
            i64::MIN <= self.z * s <= i64::MAX,
        ensures
            r@ == spec_scale(self@, s as int),
    {
        Vector3 { x: self.x * s, y: self.y * s, z: self.z * s }
    }

    /// Each component multiplied by the scalar `s`, mutating the receiver in
    /// place.
    pub fn mul_assign(&mut self, s: i64)
        requires
            i64::MIN <= old(self).x * s <= i64::MAX,
            i64::MIN <= old(self).y * s <= i64::MAX,
            i64::MIN <= old(self).z * s <= i64::MAX,
        ensures
            final(self)@ == spec_scale(old(self)@, s as int),
    {
        self.x = self.x * s;
        self.y = self.y * s;
        self.z = self.z * s;
    }

    /// Each component divided by the scalar `s`, rounding toward zero.
    pub fn div(self, s: i64) -> (r: Vector3)
        requires
            s != 0,
            !(self.x == i64::MIN && s == -1),
            !(self.y == i64::MIN && s == -1),
            !(self.z == i64::MIN && s == -1),
        ensures
            r@ == spec_div(self@, s as int),
    {
        proof {
            lemma_div_trunc_in_range(self.x as int, s as int);
            lemma_div_trunc_in_range(self.y as int, s as int);
            lemma_div_trunc_in_range(self.z as int, s as int);
        }
        Vector3 { x: self.x / s, y: self.y / s, z: self.z / s }
    }

    /// Each component divided by the scalar `s`, mutating the receiver in
    /// place.
    pub fn div_assign(&mut self, s: i64)
        requires
            s != 0,
            !(old(self).x == i64::MIN && s == -1),
            !(old(self).y == i64::MIN && s == -1),
            !(old(self).z == i64::MIN && s == -1),
        ensures
            final(self)@ == spec_div(old(self)@, s as int),
    {
        proof {
            lemma_div_trunc_in_range(self.x as int, s as int);
            lemma_div_trunc_in_range(self.y as int, s as int);
            lemma_div_trunc_in_range(self.z as int, s as int);
        }
        self.x = self.x / s;
        self.y = self.y / s;
        self.z = self.z / s;
    }

    /// Computes the absolute value of this vector, componentwise.
    pub fn abs(&self) -> (r: Vector3)
        requires
            self.x != i64::MIN,
            self.y != i64::MIN,
            self.z != i64::MIN,
        ensures
            r@ == spec_abs(self@),
    {
        Vector3 { x: abs_i64(self.x), y: abs_i64(self.y), z: abs_i64(self.z) }
    }

    /// Computes the dot product of this vector with the given vector.
    ///
    /// The dot product is calculated by multiplying the corresponding vector
    /// fields, then summing those products, left to right.
    pub fn dot(self, other: Vector3) -> (r: i64)
        requires
            i64::MIN <= self.x * other.x <= i64::MAX,
            i64::MIN <= self.y * other.y <= i64::MAX,
            i64::MIN <= self.z * other.z <= i64::MAX,
            i64::MIN <= self.x * other.x + self.y * other.y <= i64::MAX,
            i64::MIN <= spec_dot(self@, other@) <= i64::MAX,
        ensures
            r == spec_dot(self@, other@),
    {
        self.x * other.x + self.y * other.y + self.z * other.z
    }

    /// Computes the dot product of this vector with the given vector, or
    /// `None` where some intermediate value of that computation would not
    /// fit in an `i64`.
    pub fn checked_dot(self, other: Vector3) -> (r: Option<i64>)
        ensures
            r matches Some(d) ==> d == spec_dot(self@, other@),
            r is Some <==> {
                &&& i64::MIN <= self.x * other.x <= i64::MAX
                &&& i64::MIN <= self.y * other.y <= i64::MAX
                &&& i64::MIN <= self.z * other.z <= i64::MAX
                &&& i64::MIN <= self.x * other.x + self.y * other.y <= i64::MAX
                &&& i64::MIN <= spec_dot(self@, other@) <= i64::MAX
            },
    {
        let xx = self.x.checked_mul(other.x)?;
        let yy = self.y.checked_mul(other.y)?;
        let zz = self.z.checked_mul(other.z)?;
        let xy = xx.checked_add(yy)?;
        xy.checked_add(zz)
    }

    /// Computes the absolute value of the dot product of this and another
    /// vector.
    pub fn abs_dot(self, other: Vector3) -> (r: i64)
        requires
            i64::MIN <= self.x * other.x <= i64::MAX,
            i64::MIN <= self.y * other.y <= i64::MAX,
            i64::MIN <= self.z * other.z <= i64::MAX,
            i64::MIN <= self.x * other.x + self.y * other.y <= i64::MAX,
            i64::MIN < spec_dot(self@, other@) <= i64::MAX,
        ensures
            r == vstd::math::abs(spec_dot(self@, other@)),
    {
        abs_i64(self.dot(other))
    }

    /// Computes the cross product of this vector with the given vector
    /// (right-handed convention).
    pub fn cross(self, other: Vector3) -> (r: Vector3)
        requires
            i64::MIN <= self.y * other.z <= i64::MAX,
            i64::MIN <= self.z * other.y <= i64::MAX,
            i64::MIN <= self.z * other.x <= i64::MAX,
            i64::MIN <= self.x * other.z <= i64::MAX,
            i64::MIN <= self.x * other.y <= i64::MAX,
            i64::MIN <= self.y * other.x <= i64::MAX,
            i64::MIN <= self.y * other.z - self.z * other.y <= i64::MAX,
            i64::MIN <= self.z * other.x - self.x * other.z <= i64::MAX,
            i64::MIN <= self.x * other.y - self.y * other.x <= i64::MAX,
        ensures
            r@ == spec_cross(self@, other@),
    {
        Vector3 {
            x: self.y * other.z - self.z * other.y,
            y: self.z * other.x - self.x * other.z,
            z: self.x * other.y - self.y * other.x,
        }
    }
}

} // verus!
