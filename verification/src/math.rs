//! The mathematical reading of vectors: pairs and triples of unbounded integers.
use vstd::prelude::*;
use crate::scalar::fits;
use crate::scalar::Scalar;

verus! {

/// A pair of integers: what a two-dimensional vector stands for.
pub struct MathVec2 {
    pub x: int,
    pub y: int,
}

impl MathVec2 {
    /// The vector whose components are both 0.
    pub open spec fn zero() -> MathVec2 {
        MathVec2 { x: 0, y: 0 }
    }

    /// Componentwise sum.
    pub open spec fn plus(self, other: MathVec2) -> MathVec2 {
        MathVec2 { x: self.x + other.x, y: self.y + other.y }
    }

    /// Componentwise difference.
    pub open spec fn minus(self, other: MathVec2) -> MathVec2 {
        MathVec2 { x: self.x - other.x, y: self.y - other.y }
    }

    /// Each component multiplied by `k`.
    pub open spec fn scaled(self, k: int) -> MathVec2 {
        MathVec2 { x: self.x * k, y: self.y * k }
    }

    /// Each component divided by `k`, rounding toward zero.
    pub open spec fn quotient(self, k: int) -> MathVec2 {
        MathVec2 { x: trunc_div(self.x, k), y: trunc_div(self.y, k) }
    }

    /// The dot product.
    pub open spec fn dot(self, other: MathVec2) -> int {
        self.x * other.x + self.y * other.y
    }

    /// The scalar cross product: the signed area spanned by the two vectors.
    pub open spec fn pseudo_cross(self, other: MathVec2) -> int {
        self.x * other.y - self.y * other.x
    }

    /// Whether both components are representable in the scalar type `T`.
    pub open spec fn fits_in<T: Scalar>(self) -> bool {
        fits::<T>(self.x) && fits::<T>(self.y)
    }
}

/// A triple of integers: what a three-dimensional vector stands for.
pub struct MathVec3 {
    pub x: int,
    pub y: int,
    pub z: int,
}

impl MathVec3 {
    /// The vector whose components are all 0.
    pub open spec fn zero() -> MathVec3 {
        MathVec3 { x: 0, y: 0, z: 0 }
    }

    /// Componentwise sum.
    pub open spec fn plus(self, other: MathVec3) -> MathVec3 {
        MathVec3 { x: self.x + other.x, y: self.y + other.y, z: self.z + other.z }
    }

    /// Componentwise difference.
    pub open spec fn minus(self, other: MathVec3) -> MathVec3 {
        MathVec3 { x: self.x - other.x, y: self.y - other.y, z: self.z - other.z }
    }

    /// Each component multiplied by `k`.
    pub open spec fn scaled(self, k: int) -> MathVec3 {
        MathVec3 { x: self.x * k, y: self.y * k, z: self.z * k }
    }

    /// Each component divided by `k`, rounding toward zero.
    pub open spec fn quotient(self, k: int) -> MathVec3 {
        MathVec3 { x: trunc_div(self.x, k), y: trunc_div(self.y, k), z: trunc_div(self.z, k) }
    }

    /// The dot product.
    pub open spec fn dot(self, other: MathVec3) -> int {
        self.x * other.x + self.y * other.y + self.z * other.z
    }

    /// The cross product.
    pub open spec fn cross(self, other: MathVec3) -> MathVec3 {
        MathVec3 {
            x: self.y * other.z - self.z * other.y,
            y: self.z * other.x - self.x * other.z,
            z: self.x * other.y - self.y * other.x,
        }
    }

    /// Whether all three components are representable in the scalar type `T`.
    pub open spec fn fits_in<T: Scalar>(self) -> bool {
        fits::<T>(self.x) && fits::<T>(self.y) && fits::<T>(self.z)
    }
}

/// Quotient of `a` by `b` rounded toward zero, which is how the primitive
/// integer types divide.  Only meaningful for `b != 0`.
pub open spec fn trunc_div(a: int, b: int) -> int {
    if a >= 0 {
        a / b
    } else {
        -((-a) / b)
    }
}

/// A quotient is no larger in magnitude than its dividend, and for a negative
/// dividend it reaches that magnitude with the opposite sign only when the
/// divisor is -1.
pub proof fn lemma_trunc_div_bounds(a: int, b: int)
    requires
        b != 0,
    ensures
        a >= 0 ==> -a <= trunc_div(a, b) <= a,
        a < 0 ==> a <= trunc_div(a, b) <= -a,
        a < 0 && b != -1 ==> trunc_div(a, b) < -a,
{
    let n = if a >= 0 { a } else { -a };
    assert(-n <= n / b <= n && (n > 0 && b != -1 ==> -n < n / b)) by (nonlinear_arith)
        requires
            n >= 0,
            b != 0,
    ;
}

/// Rounding toward zero undoes an exact multiplication.
pub proof fn lemma_trunc_div_of_product(a: int, k: int)
    requires
        k != 0,
    ensures
        trunc_div(a * k, k) == a,
{
    if a * k >= 0 {
        assert((a * k) / k == a) by (nonlinear_arith)
            requires
                k != 0,
        ;
    } else {
        assert((-(a * k)) / k == -a) by (nonlinear_arith)
            requires
                k != 0,
        ;
    }
}

} // verus!
