//! Scalars: the component types of vectors.
use vstd::prelude::*;
use vstd::std_specs::cmp::PartialEqSpec;
use vstd::std_specs::ops::AddSpec;
use vstd::std_specs::ops::DivSpec;
use vstd::std_specs::ops::MulSpec;
use vstd::std_specs::ops::SubSpec;
use crate::math::trunc_div;

pub mod signed;
pub mod unsigned;

verus! {

/// The integer reading of a scalar type.
///
/// Each value stands for one mathematical integer, and the type holds exactly
/// the integers from `lowest()` to `highest()`.
pub trait Scalar: Sized {
    /// The integer that `self` stands for.
    spec fn as_int(self) -> int;

    /// The least integer the type holds.
    spec fn lowest() -> int;

    /// The greatest integer the type holds.
    spec fn highest() -> int;

    /// The value of the type that stands for `v`, for `v` in range.
    spec fn of_int(v: int) -> Self;

    /// Every scalar type holds 0 and 1 and fits in 128 bits.
    proof fn lemma_bounds()
        ensures
            i128::MIN <= Self::lowest() <= 0,
            1 <= Self::highest() <= u128::MAX,
    ;

    /// A value lies in the type's range and is determined by its integer.
    proof fn lemma_as_int(self)
        ensures
            Self::lowest() <= self.as_int() <= Self::highest(),
            Self::of_int(self.as_int()) == self,
    ;

    /// Every integer in range is the reading of a value.
    proof fn lemma_of_int(v: int)
        requires
            Self::lowest() <= v <= Self::highest(),
        ensures
            Self::of_int(v).as_int() == v,
    ;
}

/// Whether the integer `v` is representable in the scalar type `T`.
pub open spec fn fits<T: Scalar>(v: int) -> bool {
    T::lowest() <= v <= T::highest()
}

/// The result of converting `x` to the scalar type `U`: the value of `U` that
/// stands for the same integer, if there is one.
pub open spec fn converted<T: Scalar, U: Scalar>(x: T) -> Option<U> {
    if fits::<U>(x.as_int()) {
        Some(U::of_int(x.as_int()))
    } else {
        None
    }
}

/// The capability a type needs to be the component type of a vector:
/// copyable, with the four arithmetic operators and equality behaving as
/// integer arithmetic on the type's range, with the two identities, and
/// convertible to and from the widest integers.
pub trait NumVec: Scalar + Copy + PartialEq + core::ops::Add<Output = Self> + core::ops::Sub<
    Output = Self,
> + core::ops::Mul<Output = Self> + core::ops::Div<Output = Self> {
    /// `==` compares the integers.
    proof fn lemma_eq(a: Self, b: Self)
        ensures
            Self::obeys_eq_spec(),
            a.eq_spec(&b) <==> a.as_int() == b.as_int(),
    ;

    /// `+` is defined when the sum is in range, and then adds the integers.
    proof fn lemma_add(a: Self, b: Self)
        ensures
            Self::obeys_add_spec(),
            a.add_req(b) <==> fits::<Self>(a.as_int() + b.as_int()),
            a.add_req(b) ==> a.add_spec(b).as_int() == a.as_int() + b.as_int(),
    ;

    /// `-` is defined when the difference is in range, and then subtracts the integers.
    proof fn lemma_sub(a: Self, b: Self)
        ensures
            Self::obeys_sub_spec(),
            a.sub_req(b) <==> fits::<Self>(a.as_int() - b.as_int()),
            a.sub_req(b) ==> a.sub_spec(b).as_int() == a.as_int() - b.as_int(),
    ;

    /// `*` is defined when the product is in range, and then multiplies the integers.
    proof fn lemma_mul(a: Self, b: Self)
        ensures
            Self::obeys_mul_spec(),
            a.mul_req(b) <==> fits::<Self>(a.as_int() * b.as_int()),
            a.mul_req(b) ==> a.mul_spec(b).as_int() == a.as_int() * b.as_int(),
    ;

    /// `/` is defined for a nonzero divisor when the quotient is in range, and
    /// then divides the integers, rounding toward zero.
    proof fn lemma_div(a: Self, b: Self)
        ensures
            Self::obeys_div_spec(),
            a.div_req(b) <==> b.as_int() != 0 && fits::<Self>(trunc_div(a.as_int(), b.as_int())),
            a.div_req(b) ==> a.div_spec(b).as_int() == trunc_div(a.as_int(), b.as_int()),
    ;

    /// The additive identity.
    fn zero() -> (r: Self)
        ensures
            r.as_int() == 0,
    ;

    /// The multiplicative identity.
    fn one() -> (r: Self)
        ensures
            r.as_int() == 1,
    ;

    /// The same integer as an `i128`, if it fits.
    fn to_i128(self) -> (r: Option<i128>)
        ensures
            r == converted::<Self, i128>(self),
    ;

    /// The same integer as a `u128`, if it fits.
    fn to_u128(self) -> (r: Option<u128>)
        ensures
            r == converted::<Self, u128>(self),
    ;

    /// The same integer as a value of this type, if it fits.
    fn from_i128(v: i128) -> (r: Option<Self>)
        ensures
            r == converted::<i128, Self>(v),
    ;

    /// The same integer as a value of this type, if it fits.
    fn from_u128(v: u128) -> (r: Option<Self>)
        ensures
            r == converted::<u128, Self>(v),
    ;
}

/// Calls `num_traits::zero`, which returns `Zero::zero()` of the type asked
/// for.  Not proved here, but taken from that crate: for each primitive
/// integer type the result is the integer 0.  Used at the primitive integer
/// types only.
#[verifier::external_body]
pub(crate) fn num_zero<T: Scalar + num_traits::Zero>() -> (r: T)
    ensures
        r.as_int() == 0,
{
    num_traits::zero()
}

/// Calls `num_traits::one`, which returns `One::one()` of the type asked for.
/// Not proved here, but taken from that crate: for each primitive integer
/// type the result is the integer 1.  Used at the primitive integer types
/// only.
#[verifier::external_body]
pub(crate) fn num_one<T: Scalar + num_traits::One>() -> (r: T)
    ensures
        r.as_int() == 1,
{
    num_traits::one()
}

/// Calls `num_traits::cast`, which is `NumCast::from` of the target type.
/// Not proved here, but taken from that crate: between primitive integer
/// types the cast succeeds exactly when the source's integer lies in the
/// target's range, and then yields the target's value for that same integer.
/// Used between primitive integer types only.
#[verifier::external_body]
pub(crate) fn num_cast<S, D>(s: S) -> (r: Option<D>)
    where
        S: Scalar + num_traits::NumCast,
        D: Scalar + num_traits::NumCast,
    ensures
        r == (converted::<S, D>(s)),
{
    num_traits::cast(s)
}

/// Converts a scalar to another scalar type: the value for the same integer
/// where the target type holds it, nothing otherwise.
pub fn convert<T: NumVec, U: NumVec>(x: T) -> (r: Option<U>)
    ensures
        r == converted::<T, U>(x),
{
    proof {
        T::lemma_bounds();
        x.lemma_as_int();
    }
    match x.to_i128() {
        Some(wide) => U::from_i128(wide),
        None => match x.to_u128() {
            Some(wide) => U::from_u128(wide),
            None => None,
        },
    }
}

} // verus!
