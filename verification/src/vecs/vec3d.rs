//! Three-dimensional vectors.
use vstd::pervasive::unreached;
use vstd::prelude::*;
use vstd::std_specs::ops::AddSpec;
use vstd::std_specs::ops::MulSpec;
use crate::math::MathVec3;
use crate::message::length_error;
use crate::message::length_message;
use crate::scalar::convert;
use crate::scalar::converted;
use crate::scalar::fits;
use crate::scalar::NumVec;
use crate::scalar::Scalar;

verus! {

/// A vector with three components of one scalar type.
///
/// Equality, ordering and hashing go by the components, `x` before `y`
/// before `z`.
#[derive(Debug, Clone, Copy, PartialEq, Eq, PartialOrd, Ord, Hash)]
pub struct Vec3D<T> {
    pub x: T,
    pub y: T,
    pub z: T,
}

impl<T: Scalar> View for Vec3D<T> {
    type V = MathVec3;

    /// The triple of integers that the vector stands for.
    open spec fn view(&self) -> MathVec3 {
        MathVec3 { x: self.x.as_int(), y: self.y.as_int(), z: self.z.as_int() }
    }
}

/// Builds the vector `(x, y, z)`.
pub fn vec3d<T: Copy>(x: T, y: T, z: T) -> (r: Vec3D<T>)
    ensures
        r == (Vec3D { x, y, z }),
{
    Vec3D { x, y, z }
}

impl<T: Copy> Vec3D<T> {
    /// Builds the vector `(x, y, z)`.
    pub fn new(x: T, y: T, z: T) -> (r: Vec3D<T>)
        ensures
            r == (Vec3D { x, y, z }),
    {
        Vec3D { x, y, z }
    }

    /// A vector from three components that may each be missing: the vector
    /// of all three when all are there, nothing as soon as one is missing.
    pub open spec fn all_or_nothing(x: Option<T>, y: Option<T>, z: Option<T>) -> Option<Vec3D<T>> {
        match (x, y, z) {
            (Some(x), Some(y), Some(z)) => Some(Vec3D { x, y, z }),
            _ => None,
        }
    }

    /// Builds a vector from three components that may each be missing.
    pub fn from_components(x: Option<T>, y: Option<T>, z: Option<T>) -> (r: Option<Vec3D<T>>)
        ensures
            r == Self::all_or_nothing(x, y, z),
    {
        match (x, y, z) {
            (Some(x), Some(y), Some(z)) => Some(Vec3D { x, y, z }),
            _ => None,
        }
    }

    /// The components in order, as a sequence.
    pub open spec fn to_seq(self) -> Seq<T> {
        seq![self.x, self.y, self.z]
    }

    /// The vector whose components are the elements of `s` in order, if `s`
    /// has exactly three.
    pub open spec fn from_seq(s: Seq<T>) -> Option<Vec3D<T>> {
        if s.len() == 3 {
            Some(Vec3D { x: s[0], y: s[1], z: s[2] })
        } else {
            None
        }
    }

    /// The component at position `i`: `x` at 0, `y` at 1, `z` at 2.
    pub open spec fn component(&self, i: int) -> T {
        if i == 0 {
            self.x
        } else if i == 1 {
            self.y
        } else {
            self.z
        }
    }
}

impl<T: NumVec> Vec3D<T> {
    /// The vector of scalar type `T` that stands for `m`, for `m` in range.
    pub open spec fn of_math(m: MathVec3) -> Vec3D<T> {
        Vec3D { x: T::of_int(m.x), y: T::of_int(m.y), z: T::of_int(m.z) }
    }

    /// A vector's triple of integers is representable in its scalar type, and
    /// determines the vector.
    pub proof fn lemma_view(self)
        ensures
            self@.fits_in::<T>(),
            Self::of_math(self@) == self,
    {
        self.x.lemma_as_int();
        self.y.lemma_as_int();
        self.z.lemma_as_int();
    }

    /// Every triple of integers representable in `T` is the reading of a
    /// vector.
    pub proof fn lemma_of_math(m: MathVec3)
        requires
            m.fits_in::<T>(),
        ensures
            Self::of_math(m)@ == m,
    {
        T::lemma_of_int(m.x);
        T::lemma_of_int(m.y);
        T::lemma_of_int(m.z);
    }

    /// Converts every component to the scalar type `U`.  The conversion is
    /// all-or-nothing: if one component is not representable in `U` there is
    /// no result, otherwise the result stands for the same triple of
    /// integers.
    pub fn cast<U: NumVec>(self) -> (r: Option<Vec3D<U>>)
        ensures
            r == Vec3D::<U>::all_or_nothing(
                converted::<T, U>(self.x),
                converted::<T, U>(self.y),
                converted::<T, U>(self.z),
            ),
            r is Some <==> self@.fits_in::<U>(),
            r is Some ==> r.unwrap()@ == self@,
    {
        proof {
            if fits::<U>(self.x.as_int()) {
                U::lemma_of_int(self.x.as_int());
            }
            if fits::<U>(self.y.as_int()) {
                U::lemma_of_int(self.y.as_int());
            }
            if fits::<U>(self.z.as_int()) {
                U::lemma_of_int(self.z.as_int());
            }
        }
        Vec3D::<U>::from_components(
            convert::<T, U>(self.x),
            convert::<T, U>(self.y),
            convert::<T, U>(self.z),
        )
    }

    /// Whether the dot product of `self` and `other`, and each product and
    /// partial sum on the way to it, is representable in `T`.
    pub open spec fn dot_req(&self, other: &Vec3D<T>) -> bool {
        &&& fits::<T>(self.x.as_int() * other.x.as_int())
        &&& fits::<T>(self.y.as_int() * other.y.as_int())
        &&& fits::<T>(self.z.as_int() * other.z.as_int())
        &&& fits::<T>(self.x.as_int() * other.x.as_int() + self.y.as_int() * other.y.as_int())
        &&& fits::<T>(self@.dot(other@))
    }

    /// The dot product `x1*x2 + y1*y2 + z1*z2`.
    pub fn dot(&self, other: &Vec3D<T>) -> (r: T)
        requires
            self.dot_req(other),
        ensures
            r.as_int() == self@.dot(other@),
    {
        proof {
            T::lemma_mul(self.x, other.x);
            T::lemma_mul(self.y, other.y);
            T::lemma_mul(self.z, other.z);
            T::lemma_add(self.x.mul_spec(other.x), self.y.mul_spec(other.y));
            T::lemma_add(
                self.x.mul_spec(other.x).add_spec(self.y.mul_spec(other.y)),
                self.z.mul_spec(other.z),
            );
        }
        self.x * other.x + self.y * other.y + self.z * other.z
    }

    /// Whether all three components are zero.
    pub fn is_zero(&self) -> (r: bool)
        ensures
            r <==> self@ == MathVec3::zero(),
    {
        let zero = T::zero();
        proof {
            T::lemma_eq(self.x, zero);
            T::lemma_eq(self.y, zero);
            T::lemma_eq(self.z, zero);
        }
        self.x == zero && self.y == zero && self.z == zero
    }

    /// Whether the cross product of `self` and `other`, and each product it
    /// is formed from, is representable in `T`.
    pub open spec fn cross_req(self, other: Vec3D<T>) -> bool {
        &&& fits::<T>(self.y.as_int() * other.z.as_int())
        &&& fits::<T>(self.z.as_int() * other.y.as_int())
        &&& fits::<T>(self.z.as_int() * other.x.as_int())
        &&& fits::<T>(self.x.as_int() * other.z.as_int())
        &&& fits::<T>(self.x.as_int() * other.y.as_int())
        &&& fits::<T>(self.y.as_int() * other.x.as_int())
        &&& self@.cross(other@).fits_in::<T>()
    }
}

impl<T: NumVec> vstd::std_specs::ops::AddSpecImpl for Vec3D<T> {
    open spec fn obeys_add_spec() -> bool {
        true
    }

    /// The componentwise sum must be representable in `T`.
    open spec fn add_req(self, rhs: Vec3D<T>) -> bool {
        self@.plus(rhs@).fits_in::<T>()
    }

    open spec fn add_spec(self, rhs: Vec3D<T>) -> Vec3D<T> {
        Vec3D::of_math(self@.plus(rhs@))
    }
}

impl<T: NumVec> core::ops::Add for Vec3D<T> {
    type Output = Vec3D<T>;

    /// The componentwise sum.
    fn add(self, rhs: Vec3D<T>) -> (r: Vec3D<T>)
        ensures
            r@ == self@.plus(rhs@),
    {
        proof {
            T::lemma_add(self.x, rhs.x);
            T::lemma_add(self.y, rhs.y);
            T::lemma_add(self.z, rhs.z);
        }
        let r = Vec3D { x: self.x + rhs.x, y: self.y + rhs.y, z: self.z + rhs.z };
        proof {
            r.x.lemma_as_int();
            r.y.lemma_as_int();
            r.z.lemma_as_int();
        }
        r
    }
}

impl<T: NumVec> vstd::std_specs::ops::SubSpecImpl for Vec3D<T> {
    open spec fn obeys_sub_spec() -> bool {
        true
    }

    /// The componentwise difference must be representable in `T`.
    open spec fn sub_req(self, rhs: Vec3D<T>) -> bool {
        self@.minus(rhs@).fits_in::<T>()
    }

    open spec fn sub_spec(self, rhs: Vec3D<T>) -> Vec3D<T> {
        Vec3D::of_math(self@.minus(rhs@))
    }
}

impl<T: NumVec> core::ops::Sub for Vec3D<T> {
    type Output = Vec3D<T>;

    /// The componentwise difference.
    fn sub(self, rhs: Vec3D<T>) -> (r: Vec3D<T>)
        ensures
            r@ == self@.minus(rhs@),
    {
        proof {
            T::lemma_sub(self.x, rhs.x);
            T::lemma_sub(self.y, rhs.y);
            T::lemma_sub(self.z, rhs.z);
        }
        let r = Vec3D { x: self.x - rhs.x, y: self.y - rhs.y, z: self.z - rhs.z };
        proof {
            r.x.lemma_as_int();
            r.y.lemma_as_int();
            r.z.lemma_as_int();
        }
        r
    }
}

impl<T: NumVec> vstd::std_specs::ops::MulSpecImpl<Vec3D<T>> for Vec3D<T> {
    open spec fn obeys_mul_spec() -> bool {
        true
    }

    /// The cross product and the products it is formed from must be
    /// representable in `T`.
    open spec fn mul_req(self, rhs: Vec3D<T>) -> bool {
        self.cross_req(rhs)
    }

    open spec fn mul_spec(self, rhs: Vec3D<T>) -> Vec3D<T> {
        Vec3D::of_math(self@.cross(rhs@))
    }
}

impl<T: NumVec> core::ops::Mul<Vec3D<T>> for Vec3D<T> {
    type Output = Vec3D<T>;

    /// The cross product
    /// `(y1*z2 - z1*y2, z1*x2 - x1*z2, x1*y2 - y1*x2)`.
    fn mul(self, rhs: Vec3D<T>) -> (r: Vec3D<T>)
        ensures
            r@ == self@.cross(rhs@),
    {
        proof {
            T::lemma_mul(self.y, rhs.z);
            T::lemma_mul(self.z, rhs.y);
            T::lemma_mul(self.z, rhs.x);
            T::lemma_mul(self.x, rhs.z);
            T::lemma_mul(self.x, rhs.y);
            T::lemma_mul(self.y, rhs.x);
            T::lemma_sub(self.y.mul_spec(rhs.z), self.z.mul_spec(rhs.y));
            T::lemma_sub(self.z.mul_spec(rhs.x), self.x.mul_spec(rhs.z));
            T::lemma_sub(self.x.mul_spec(rhs.y), self.y.mul_spec(rhs.x));
        }
        let r = Vec3D {
            x: self.y * rhs.z - self.z * rhs.y,
            y: self.z * rhs.x - self.x * rhs.z,
            z: self.x * rhs.y - self.y * rhs.x,
        };
        proof {
            r.x.lemma_as_int();
            r.y.lemma_as_int();
            r.z.lemma_as_int();
        }
        r
    }
}

impl<T: NumVec> vstd::std_specs::ops::MulSpecImpl<T> for Vec3D<T> {
    open spec fn obeys_mul_spec() -> bool {
        true
    }

    /// Each component times the scalar must be representable in `T`.
    open spec fn mul_req(self, rhs: T) -> bool {
        self@.scaled(rhs.as_int()).fits_in::<T>()
    }

    open spec fn mul_spec(self, rhs: T) -> Vec3D<T> {
        Vec3D::of_math(self@.scaled(rhs.as_int()))
    }
}

impl<T: NumVec> core::ops::Mul<T> for Vec3D<T> {
    type Output = Vec3D<T>;

    /// The vector with each component multiplied by the scalar.
    fn mul(self, rhs: T) -> (r: Vec3D<T>)
        ensures
            r@ == self@.scaled(rhs.as_int()),
    {
        proof {
            T::lemma_mul(self.x, rhs);
            T::lemma_mul(self.y, rhs);
            T::lemma_mul(self.z, rhs);
        }
        let r = Vec3D { x: self.x * rhs, y: self.y * rhs, z: self.z * rhs };
        proof {
            r.x.lemma_as_int();
            r.y.lemma_as_int();
            r.z.lemma_as_int();
        }
        r
    }
}

impl<T: NumVec> vstd::std_specs::ops::DivSpecImpl<T> for Vec3D<T> {
    open spec fn obeys_div_spec() -> bool {
        true
    }

    /// The divisor must not be zero, and each quotient must be representable
    /// in `T`.
    open spec fn div_req(self, rhs: T) -> bool {
        rhs.as_int() != 0 && self@.quotient(rhs.as_int()).fits_in::<T>()
    }

    open spec fn div_spec(self, rhs: T) -> Vec3D<T> {
        Vec3D::of_math(self@.quotient(rhs.as_int()))
    }
}

impl<T: NumVec> core::ops::Div<T> for Vec3D<T> {
    type Output = Vec3D<T>;

    /// The vector with each component divided by the scalar, rounding toward
    /// zero.
    fn div(self, rhs: T) -> (r: Vec3D<T>)
        ensures
            r@ == self@.quotient(rhs.as_int()),
    {
        proof {
            T::lemma_div(self.x, rhs);
            T::lemma_div(self.y, rhs);
            T::lemma_div(self.z, rhs);
        }
        let r = Vec3D { x: self.x / rhs, y: self.y / rhs, z: self.z / rhs };
        proof {
            r.x.lemma_as_int();
            r.y.lemma_as_int();
            r.z.lemma_as_int();
        }
        r
    }
}

impl<T: Copy> vstd::std_specs::core::IndexSpecImpl<usize> for Vec3D<T> {
    /// Only the positions 0, 1 and 2 exist.
    open spec fn index_req(&self, index: &usize) -> bool {
        *index < 3
    }
}

impl<T: Copy> core::ops::Index<usize> for Vec3D<T> {
    type Output = T;

    /// The component at a position: `x` at 0, `y` at 1, `z` at 2.
    fn index(&self, index: usize) -> (r: &T)
        ensures
            *r == self.component(index as int),
    {
        if index == 0 {
            &self.x
        } else if index == 1 {
            &self.y
        } else if index == 2 {
            &self.z
        } else {
            unreached()
        }
    }
}

impl<T: Copy> vstd::std_specs::core::IndexSpecImpl<i32> for Vec3D<T> {
    /// Only the positions 0, 1 and 2 exist.
    open spec fn index_req(&self, index: &i32) -> bool {
        0 <= *index < 3
    }
}

impl<T: Copy> core::ops::Index<i32> for Vec3D<T> {
    type Output = T;

    /// The component at a position: `x` at 0, `y` at 1, `z` at 2.
    fn index(&self, index: i32) -> (r: &T)
        ensures
            *r == self.component(index as int),
    {
        if index == 0 {
            &self.x
        } else if index == 1 {
            &self.y
        } else if index == 2 {
            &self.z
        } else {
            unreached()
        }
    }
}

impl<T: NumVec> Default for Vec3D<T> {
    /// The zero vector.
    fn default() -> (r: Vec3D<T>)
        ensures
            r@ == MathVec3::zero(),
    {
        Vec3D { x: T::zero(), y: T::zero(), z: T::zero() }
    }
}

impl<T: Copy> vstd::std_specs::convert::FromSpecImpl<(T, T, T)> for Vec3D<T> {
    open spec fn obeys_from_spec() -> bool {
        true
    }

    open spec fn from_spec(value: (T, T, T)) -> Vec3D<T> {
        Vec3D { x: value.0, y: value.1, z: value.2 }
    }
}

impl<T: Copy> From<(T, T, T)> for Vec3D<T> {
    /// The vector of a triple's components, in order.
    fn from(value: (T, T, T)) -> (r: Vec3D<T>) {
        Vec3D { x: value.0, y: value.1, z: value.2 }
    }
}

impl<T: Copy> vstd::std_specs::convert::FromSpecImpl<[T; 3]> for Vec3D<T> {
    open spec fn obeys_from_spec() -> bool {
        true
    }

    open spec fn from_spec(value: [T; 3]) -> Vec3D<T> {
        Vec3D { x: value@[0], y: value@[1], z: value@[2] }
    }
}

impl<T: Copy> From<[T; 3]> for Vec3D<T> {
    /// The vector of an array's elements, in order.
    fn from(value: [T; 3]) -> (r: Vec3D<T>) {
        Vec3D { x: value[0], y: value[1], z: value[2] }
    }
}

impl<'a, T: Copy> vstd::std_specs::convert::FromSpecImpl<&'a [T; 3]> for Vec3D<T> {
    open spec fn obeys_from_spec() -> bool {
        true
    }

    open spec fn from_spec(value: &'a [T; 3]) -> Vec3D<T> {
        Vec3D { x: value@[0], y: value@[1], z: value@[2] }
    }
}

impl<'a, T: Copy> From<&'a [T; 3]> for Vec3D<T> {
    /// The vector of a borrowed array's elements, in order.
    fn from(value: &'a [T; 3]) -> (r: Vec3D<T>) {
        Vec3D { x: value[0], y: value[1], z: value[2] }
    }
}

impl<T: Copy> vstd::std_specs::convert::FromSpecImpl<Vec3D<T>> for (T, T, T) {
    open spec fn obeys_from_spec() -> bool {
        true
    }

    open spec fn from_spec(value: Vec3D<T>) -> (T, T, T) {
        (value.x, value.y, value.z)
    }
}

impl<T: Copy> From<Vec3D<T>> for (T, T, T) {
    /// The triple of a vector's components, in order.
    fn from(value: Vec3D<T>) -> (r: (T, T, T)) {
        (value.x, value.y, value.z)
    }
}

impl<T: Copy> vstd::std_specs::convert::FromSpecImpl<Vec3D<T>> for [T; 3] {
    open spec fn obeys_from_spec() -> bool {
        true
    }

    open spec fn from_spec(value: Vec3D<T>) -> [T; 3] {
        [value.x, value.y, value.z]
    }
}

impl<T: Copy> From<Vec3D<T>> for [T; 3] {
    /// The array of a vector's components, in order.
    fn from(value: Vec3D<T>) -> (r: [T; 3])
        ensures
            r@ == value.to_seq(),
    {
        [value.x, value.y, value.z]
    }
}

/// A `Vec` is described through its view, so what the conversion returns is
/// stated by the `ensures` of `from`.
impl<T: Copy> vstd::std_specs::convert::FromSpecImpl<Vec3D<T>> for Vec<T> {
    open spec fn obeys_from_spec() -> bool {
        false
    }

    open spec fn from_spec(value: Vec3D<T>) -> Vec<T> {
        arbitrary()
    }
}

impl<T: Copy> From<Vec3D<T>> for Vec<T> {
    /// The sequence of a vector's components, in order.
    fn from(value: Vec3D<T>) -> (r: Vec<T>)
        ensures
            r@ == value.to_seq(),
    {
        let mut r = Vec::new();
        r.push(value.x);
        r.push(value.y);
        r.push(value.z);
        assert(r@ =~= seq![value.x, value.y, value.z]);
        r
    }
}

/// The error is a `String`, which is described through its view, so what the
/// conversion returns is stated by the `ensures` of `try_from`.
impl<T: Copy> vstd::std_specs::convert::TryFromSpecImpl<Vec<T>> for Vec3D<T> {
    open spec fn obeys_try_from_spec() -> bool {
        false
    }

    open spec fn try_from_spec(value: Vec<T>) -> Result<Vec3D<T>, String> {
        arbitrary()
    }
}

impl<T: Copy> TryFrom<Vec<T>> for Vec3D<T> {
    type Error = String;

    /// The vector of a sequence's three elements, in order.  A sequence of
    /// any other length is refused with a message that names both lengths.
    fn try_from(value: Vec<T>) -> (r: Result<Vec3D<T>, String>)
        ensures
            match Vec3D::from_seq(value@) {
                Some(v) => r is Ok && r->Ok_0 == v,
                None => r is Err && r->Err_0@ == length_message(3, value@.len()),
            },
    {
        if value.len() == 3 {
            Ok(Vec3D { x: value[0], y: value[1], z: value[2] })
        } else {
            Err(length_error(3, value.len()))
        }
    }
}

} // verus!
