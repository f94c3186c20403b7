//! Two-dimensional vectors.
use vstd::prelude::*;
use vstd::std_specs::ops::MulSpec;
use crate::math::MathVec2;
use crate::message::length_error;
use crate::message::length_message;
use crate::scalar::convert;
use crate::scalar::converted;
use crate::scalar::fits;
use crate::scalar::NumVec;
use crate::scalar::Scalar;

verus! {

/// A vector with two components of one scalar type.
///
/// Equality, ordering and hashing go by the components, `x` before `y`.
#[derive(Debug, Clone, Copy, PartialEq, Eq, PartialOrd, Ord, Hash)]
pub struct Vec2D<T> {
    pub x: T,
    pub y: T,
}

impl<T: Scalar> View for Vec2D<T> {
    type V = MathVec2;

    /// The pair of integers that the vector stands for.
    open spec fn view(&self) -> MathVec2 {
        MathVec2 { x: self.x.as_int(), y: self.y.as_int() }
    }
}

/// Builds the vector `(x, y)`.
pub fn vec2d<T: Copy>(x: T, y: T) -> (r: Vec2D<T>)
    ensures
        r == (Vec2D { x, y }),
{
    Vec2D { x, y }
}

impl<T: Copy> Vec2D<T> {
    /// Builds the vector `(x, y)`.
    pub fn new(x: T, y: T) -> (r: Vec2D<T>)
        ensures
            r == (Vec2D { x, y }),
    {
        Vec2D { x, y }
    }

    /// A vector from two components that may each be missing: the vector of
    /// both when both are there, nothing as soon as one is missing.
    pub open spec fn all_or_nothing(x: Option<T>, y: Option<T>) -> Option<Vec2D<T>> {
        match (x, y) {
            (Some(x), Some(y)) => Some(Vec2D { x, y }),
            _ => None,
        }
    }

    /// The components in order, as a sequence.
    pub open spec fn to_seq(self) -> Seq<T> {
        seq![self.x, self.y]
    }

    /// The vector whose components are the elements of `s` in order, if `s`
    /// has exactly two.
    pub open spec fn from_seq(s: Seq<T>) -> Option<Vec2D<T>> {
        if s.len() == 2 {
            Some(Vec2D { x: s[0], y: s[1] })
        } else {
            None
        }
    }

    /// Builds a vector from two components that may each be missing.
    pub fn from_components(x: Option<T>, y: Option<T>) -> (r: Option<Vec2D<T>>)
        ensures
            r == Self::all_or_nothing(x, y),
    {
        match (x, y) {
            (Some(x), Some(y)) => Some(Vec2D { x, y }),
            _ => None,
        }
    }
}

impl<T: NumVec> Vec2D<T> {
    /// The vector of scalar type `T` that stands for `m`, for `m` in range.
    pub open spec fn of_math(m: MathVec2) -> Vec2D<T> {
        Vec2D { x: T::of_int(m.x), y: T::of_int(m.y) }
    }

    /// A vector's pair of integers is representable in its scalar type, and
    /// determines the vector.
    pub proof fn lemma_view(self)
        ensures
            self@.fits_in::<T>(),
            Self::of_math(self@) == self,
    {
        self.x.lemma_as_int();
        self.y.lemma_as_int();
    }

    /// Every pair of integers representable in `T` is the reading of a
    /// vector.
    pub proof fn lemma_of_math(m: MathVec2)
        requires
            m.fits_in::<T>(),
        ensures
            Self::of_math(m)@ == m,
    {
        T::lemma_of_int(m.x);
        T::lemma_of_int(m.y);
    }

    /// Converts every component to the scalar type `U`.  The conversion is
    /// all-or-nothing: if one component is not representable in `U` there is
    /// no result, otherwise the result stands for the same pair of integers.
    pub fn cast<U: NumVec>(self) -> (r: Option<Vec2D<U>>)
        ensures
            r == Vec2D::<U>::all_or_nothing(converted::<T, U>(self.x), converted::<T, U>(self.y)),
            r is Some <==> self@.fits_in::<U>(),
            r is Some ==> r.unwrap()@ == self@,
    {
        proof {
            if fits::<U>(self.x.as_int()) {
                U::lemma_of_int(self.x.as_int());
            }
            if fits::<U>(self.y.as_int()) {
                U::lemma_of_int(self.y.as_int());
            }
        }
        Vec2D::<U>::from_components(convert::<T, U>(self.x), convert::<T, U>(self.y))
    }

    /// Whether the dot product of `self` and `other`, and each product it is
    /// summed from, is representable in `T`.
    pub open spec fn dot_req(&self, other: &Vec2D<T>) -> bool {
        &&& fits::<T>(self.x.as_int() * other.x.as_int())
        &&& fits::<T>(self.y.as_int() * other.y.as_int())
        &&& fits::<T>(self@.dot(other@))
    }

    /// The dot product `x1*x2 + y1*y2`.
    pub fn dot(&self, other: &Vec2D<T>) -> (r: T)
        requires
            self.dot_req(other),
        ensures
            r.as_int() == self@.dot(other@),
    {
        proof {
            T::lemma_mul(self.x, other.x);
            T::lemma_mul(self.y, other.y);
            T::lemma_add(self.x.mul_spec(other.x), self.y.mul_spec(other.y));
        }
        self.x * other.x + self.y * other.y
    }

    /// Whether both components are zero.
    pub fn is_zero(&self) -> (r: bool)
        ensures
            r <==> self@ == MathVec2::zero(),
    {
        let zero = T::zero();
        proof {
            T::lemma_eq(self.x, zero);
            T::lemma_eq(self.y, zero);
        }
        self.x == zero && self.y == zero
    }

    /// Whether the scalar cross product of `self` and `other`, and each
    /// product it is the difference of, is representable in `T`.
    pub open spec fn pseudo_cross_req(&self, other: &Vec2D<T>) -> bool {
        &&& fits::<T>(self.x.as_int() * other.y.as_int())
        &&& fits::<T>(self.y.as_int() * other.x.as_int())
        &&& fits::<T>(self@.pseudo_cross(other@))
    }

    /// The scalar cross product `x1*y2 - y1*x2`.
    pub fn pseudo_cross(&self, other: &Vec2D<T>) -> (r: T)
        requires
            self.pseudo_cross_req(other),
        ensures
            r.as_int() == self@.pseudo_cross(other@),
    {
        proof {
            T::lemma_mul(self.x, other.y);
            T::lemma_mul(self.y, other.x);
            T::lemma_sub(self.x.mul_spec(other.y), self.y.mul_spec(other.x));
        }
        self.x * other.y - self.y * other.x
    }
}

impl<T: NumVec> vstd::std_specs::ops::AddSpecImpl for Vec2D<T> {
    open spec fn obeys_add_spec() -> bool {
        true
    }

    /// The componentwise sum must be representable in `T`.
    open spec fn add_req(self, rhs: Vec2D<T>) -> bool {
        self@.plus(rhs@).fits_in::<T>()
    }

    open spec fn add_spec(self, rhs: Vec2D<T>) -> Vec2D<T> {
        Vec2D::of_math(self@.plus(rhs@))
    }
}

impl<T: NumVec> core::ops::Add for Vec2D<T> {
    type Output = Vec2D<T>;

    /// The componentwise sum.
    fn add(self, rhs: Vec2D<T>) -> (r: Vec2D<T>)
        ensures
            r@ == self@.plus(rhs@),
    {
        proof {
            T::lemma_add(self.x, rhs.x);
            T::lemma_add(self.y, rhs.y);
        }
        let r = Vec2D { x: self.x + rhs.x, y: self.y + rhs.y };
        proof {
            r.x.lemma_as_int();
            r.y.lemma_as_int();
        }
        r
    }
}

impl<T: NumVec> vstd::std_specs::ops::SubSpecImpl for Vec2D<T> {
    open spec fn obeys_sub_spec() -> bool {
        true
    }

    /// The componentwise difference must be representable in `T`.
    open spec fn sub_req(self, rhs: Vec2D<T>) -> bool {
        self@.minus(rhs@).fits_in::<T>()
    }

    open spec fn sub_spec(self, rhs: Vec2D<T>) -> Vec2D<T> {
        Vec2D::of_math(self@.minus(rhs@))
    }
}

impl<T: NumVec> core::ops::Sub for Vec2D<T> {
    type Output = Vec2D<T>;

    /// The componentwise difference.
    fn sub(self, rhs: Vec2D<T>) -> (r: Vec2D<T>)
        ensures
            r@ == self@.minus(rhs@),
    {
        proof {
            T::lemma_sub(self.x, rhs.x);
            T::lemma_sub(self.y, rhs.y);
        }
        let r = Vec2D { x: self.x - rhs.x, y: self.y - rhs.y };
        proof {
            r.x.lemma_as_int();
            r.y.lemma_as_int();
        }
        r
    }
}

impl<T: NumVec> vstd::std_specs::ops::MulSpecImpl<T> for Vec2D<T> {
    open spec fn obeys_mul_spec() -> bool {
        true
    }

    /// Each component times the scalar must be representable in `T`.
    open spec fn mul_req(self, rhs: T) -> bool {
        self@.scaled(rhs.as_int()).fits_in::<T>()
    }

    open spec fn mul_spec(self, rhs: T) -> Vec2D<T> {
        Vec2D::of_math(self@.scaled(rhs.as_int()))
    }
}

impl<T: NumVec> core::ops::Mul<T> for Vec2D<T> {
    type Output = Vec2D<T>;

    /// The vector with each component multiplied by the scalar.
    fn mul(self, rhs: T) -> (r: Vec2D<T>)
        ensures
            r@ == self@.scaled(rhs.as_int()),
    {
        proof {
            T::lemma_mul(self.x, rhs);
            T::lemma_mul(self.y, rhs);
        }
        let r = Vec2D { x: self.x * rhs, y: self.y * rhs };
        proof {
            r.x.lemma_as_int();
            r.y.lemma_as_int();
        }
        r
    }
}

impl<T: NumVec> vstd::std_specs::ops::DivSpecImpl<T> for Vec2D<T> {
    open spec fn obeys_div_spec() -> bool {
        true
    }

    /// The divisor must not be zero, and each quotient must be representable
    /// in `T`.
    open spec fn div_req(self, rhs: T) -> bool {
        rhs.as_int() != 0 && self@.quotient(rhs.as_int()).fits_in::<T>()
    }

    open spec fn div_spec(self, rhs: T) -> Vec2D<T> {
        Vec2D::of_math(self@.quotient(rhs.as_int()))
    }
}

impl<T: NumVec> core::ops::Div<T> for Vec2D<T> {
    type Output = Vec2D<T>;

    /// The vector with each component divided by the scalar, rounding toward
    /// zero.
    fn div(self, rhs: T) -> (r: Vec2D<T>)
        ensures
            r@ == self@.quotient(rhs.as_int()),
    {
        proof {
            T::lemma_div(self.x, rhs);
            T::lemma_div(self.y, rhs);
        }
        let r = Vec2D { x: self.x / rhs, y: self.y / rhs };
        proof {
            r.x.lemma_as_int();
            r.y.lemma_as_int();
        }
        r
    }
}

impl<T: NumVec> Default for Vec2D<T> {
    /// The zero vector.
    fn default() -> (r: Vec2D<T>)
        ensures
            r@ == MathVec2::zero(),
    {
        Vec2D { x: T::zero(), y: T::zero() }
    }
}

impl<T: Copy> vstd::std_specs::convert::FromSpecImpl<(T, T)> for Vec2D<T> {
    open spec fn obeys_from_spec() -> bool {
        true
    }

    open spec fn from_spec(value: (T, T)) -> Vec2D<T> {
        Vec2D { x: value.0, y: value.1 }
    }
}

impl<T: Copy> From<(T, T)> for Vec2D<T> {
    /// The vector of a pair's components, in order.
    fn from(value: (T, T)) -> (r: Vec2D<T>) {
        Vec2D { x: value.0, y: value.1 }
    }
}

impl<T: Copy> vstd::std_specs::convert::FromSpecImpl<[T; 2]> for Vec2D<T> {
    open spec fn obeys_from_spec() -> bool {
        true
    }

    open spec fn from_spec(value: [T; 2]) -> Vec2D<T> {
        Vec2D { x: value@[0], y: value@[1] }
    }
}

impl<T: Copy> From<[T; 2]> for Vec2D<T> {
    /// The vector of an array's elements, in order.
    fn from(value: [T; 2]) -> (r: Vec2D<T>) {
        Vec2D { x: value[0], y: value[1] }
    }
}

impl<'a, T: Copy> vstd::std_specs::convert::FromSpecImpl<&'a [T; 2]> for Vec2D<T> {
    open spec fn obeys_from_spec() -> bool {
        true
    }

    open spec fn from_spec(value: &'a [T; 2]) -> Vec2D<T> {
        Vec2D { x: value@[0], y: value@[1] }
    }
}

impl<'a, T: Copy> From<&'a [T; 2]> for Vec2D<T> {
    /// The vector of a borrowed array's elements, in order.
    fn from(value: &'a [T; 2]) -> (r: Vec2D<T>) {
        Vec2D { x: value[0], y: value[1] }
    }
}

impl<T: Copy> vstd::std_specs::convert::FromSpecImpl<Vec2D<T>> for (T, T) {
    open spec fn obeys_from_spec() -> bool {
        true
    }

    open spec fn from_spec(value: Vec2D<T>) -> (T, T) {
        (value.x, value.y)
    }
}

impl<T: Copy> From<Vec2D<T>> for (T, T) {
    /// The pair of a vector's components, in order.
    fn from(value: Vec2D<T>) -> (r: (T, T)) {
        (value.x, value.y)
    }
}

impl<T: Copy> vstd::std_specs::convert::FromSpecImpl<Vec2D<T>> for [T; 2] {
    open spec fn obeys_from_spec() -> bool {
        true
    }

    open spec fn from_spec(value: Vec2D<T>) -> [T; 2] {
        [value.x, value.y]
    }
}

impl<T: Copy> From<Vec2D<T>> for [T; 2] {
    /// The array of a vector's components, in order.
    fn from(value: Vec2D<T>) -> (r: [T; 2])
        ensures
            r@ == value.to_seq(),
    {
        [value.x, value.y]
    }
}

/// A `Vec` is described through its view, so what the conversion returns is
/// stated by the `ensures` of `from`.
impl<T: Copy> vstd::std_specs::convert::FromSpecImpl<Vec2D<T>> for Vec<T> {
    open spec fn obeys_from_spec() -> bool {
        false
    }

    open spec fn from_spec(value: Vec2D<T>) -> Vec<T> {
        arbitrary()
    }
}

impl<T: Copy> From<Vec2D<T>> for Vec<T> {
    /// The sequence of a vector's components, in order.
    fn from(value: Vec2D<T>) -> (r: Vec<T>)
        ensures
            r@ == value.to_seq(),
    {
        let mut r = Vec::new();
        r.push(value.x);
        r.push(value.y);
        assert(r@ =~= seq![value.x, value.y]);
        r
    }
}

/// The error is a `String`, which is described through its view, so what the
/// conversion returns is stated by the `ensures` of `try_from`.
impl<T: Copy> vstd::std_specs::convert::TryFromSpecImpl<Vec<T>> for Vec2D<T> {
    open spec fn obeys_try_from_spec() -> bool {
        false
    }

    open spec fn try_from_spec(value: Vec<T>) -> Result<Vec2D<T>, String> {
        arbitrary()
    }
}

impl<T: Copy> TryFrom<Vec<T>> for Vec2D<T> {
    type Error = String;

    /// The vector of a sequence's two elements, in order.  A sequence of any
    /// other length is refused with a message that names both lengths.
    fn try_from(value: Vec<T>) -> (r: Result<Vec2D<T>, String>)
        ensures
            match Vec2D::from_seq(value@) {
                Some(v) => r is Ok && r->Ok_0 == v,
                None => r is Err && r->Err_0@ == length_message(2, value@.len()),
            },
    {
        if value.len() == 2 {
            Ok(Vec2D { x: value[0], y: value[1] })
        } else {
            Err(length_error(2, value.len()))
        }
    }
}

} // verus!
