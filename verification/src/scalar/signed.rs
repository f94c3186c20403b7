//! The signed primitive integers as scalars.
use vstd::prelude::*;
use crate::math::lemma_trunc_div_bounds;
use crate::scalar::num_cast;
use crate::scalar::num_one;
use crate::scalar::num_zero;
use crate::scalar::NumVec;
use crate::scalar::Scalar;

verus! {

/// `i8` stands for the integers from `i8::MIN` to `i8::MAX`.
impl Scalar for i8 {
    open spec fn as_int(self) -> int {
        self as int
    }

    open spec fn lowest() -> int {
        i8::MIN as int
    }

    open spec fn highest() -> int {
        i8::MAX as int
    }

    open spec fn of_int(v: int) -> Self {
        v as i8
    }

    proof fn lemma_bounds() {
    }

    proof fn lemma_as_int(self) {
    }

    proof fn lemma_of_int(v: int) {
    }
}

impl NumVec for i8 {
    proof fn lemma_eq(a: Self, b: Self) {
    }

    proof fn lemma_add(a: Self, b: Self) {
    }

    proof fn lemma_sub(a: Self, b: Self) {
    }

    proof fn lemma_mul(a: Self, b: Self) {
    }

    proof fn lemma_div(a: Self, b: Self) {
        if b != 0 {
            lemma_trunc_div_bounds(a as int, b as int);
        }
    }

    fn zero() -> (r: Self) {
        num_zero::<i8>()
    }

    fn one() -> (r: Self) {
        num_one::<i8>()
    }

    fn to_i128(self) -> (r: Option<i128>) {
        num_cast::<i8, i128>(self)
    }

    fn to_u128(self) -> (r: Option<u128>) {
        num_cast::<i8, u128>(self)
    }

    fn from_i128(v: i128) -> (r: Option<Self>) {
        num_cast::<i128, i8>(v)
    }

    fn from_u128(v: u128) -> (r: Option<Self>) {
        num_cast::<u128, i8>(v)
    }
}

/// `i16` stands for the integers from `i16::MIN` to `i16::MAX`.
impl Scalar for i16 {
    open spec fn as_int(self) -> int {
        self as int
    }

    open spec fn lowest() -> int {
        i16::MIN as int
    }

    open spec fn highest() -> int {
        i16::MAX as int
    }

    open spec fn of_int(v: int) -> Self {
        v as i16
    }

    proof fn lemma_bounds() {
    }

    proof fn lemma_as_int(self) {
    }

    proof fn lemma_of_int(v: int) {
    }
}

impl NumVec for i16 {
    proof fn lemma_eq(a: Self, b: Self) {
    }

    proof fn lemma_add(a: Self, b: Self) {
    }

    proof fn lemma_sub(a: Self, b: Self) {
    }

    proof fn lemma_mul(a: Self, b: Self) {
    }

    proof fn lemma_div(a: Self, b: Self) {
        if b != 0 {
            lemma_trunc_div_bounds(a as int, b as int);
        }
    }

    fn zero() -> (r: Self) {
        num_zero::<i16>()
    }

    fn one() -> (r: Self) {
        num_one::<i16>()
    }

    fn to_i128(self) -> (r: Option<i128>) {
        num_cast::<i16, i128>(self)
    }

    fn to_u128(self) -> (r: Option<u128>) {
        num_cast::<i16, u128>(self)
    }

    fn from_i128(v: i128) -> (r: Option<Self>) {
        num_cast::<i128, i16>(v)
    }

    fn from_u128(v: u128) -> (r: Option<Self>) {
        num_cast::<u128, i16>(v)
    }
}

/// `i32` stands for the integers from `i32::MIN` to `i32::MAX`.
impl Scalar for i32 {
    open spec fn as_int(self) -> int {
        self as int
    }

    open spec fn lowest() -> int {
        i32::MIN as int
    }

    open spec fn highest() -> int {
        i32::MAX as int
    }

    open spec fn of_int(v: int) -> Self {
        v as i32
    }

    proof fn lemma_bounds() {
    }

    proof fn lemma_as_int(self) {
    }

    proof fn lemma_of_int(v: int) {
    }
}

impl NumVec for i32 {
    proof fn lemma_eq(a: Self, b: Self) {
    }

    proof fn lemma_add(a: Self, b: Self) {
    }

    proof fn lemma_sub(a: Self, b: Self) {
    }

    proof fn lemma_mul(a: Self, b: Self) {
    }

    proof fn lemma_div(a: Self, b: Self) {
        if b != 0 {
            lemma_trunc_div_bounds(a as int, b as int);
        }
    }

    fn zero() -> (r: Self) {
        num_zero::<i32>()
    }

    fn one() -> (r: Self) {
        num_one::<i32>()
    }

    fn to_i128(self) -> (r: Option<i128>) {
        num_cast::<i32, i128>(self)
    }

    fn to_u128(self) -> (r: Option<u128>) {
        num_cast::<i32, u128>(self)
    }

    fn from_i128(v: i128) -> (r: Option<Self>) {
        num_cast::<i128, i32>(v)
    }

    fn from_u128(v: u128) -> (r: Option<Self>) {
        num_cast::<u128, i32>(v)
    }
}

/// `i64` stands for the integers from `i64::MIN` to `i64::MAX`.
impl Scalar for i64 {
    open spec fn as_int(self) -> int {
        self as int
    }

    open spec fn lowest() -> int {
        i64::MIN as int
    }

    open spec fn highest() -> int {
        i64::MAX as int
    }

    open spec fn of_int(v: int) -> Self {
        v as i64
    }

    proof fn lemma_bounds() {
    }

    proof fn lemma_as_int(self) {
    }

    proof fn lemma_of_int(v: int) {
    }
}

impl NumVec for i64 {
    proof fn lemma_eq(a: Self, b: Self) {
    }

    proof fn lemma_add(a: Self, b: Self) {
    }

    proof fn lemma_sub(a: Self, b: Self) {
    }

    proof fn lemma_mul(a: Self, b: Self) {
    }

    proof fn lemma_div(a: Self, b: Self) {
        if b != 0 {
            lemma_trunc_div_bounds(a as int, b as int);
        }
    }

    fn zero() -> (r: Self) {
        num_zero::<i64>()
    }

    fn one() -> (r: Self) {
        num_one::<i64>()
    }

    fn to_i128(self) -> (r: Option<i128>) {
        num_cast::<i64, i128>(self)
    }

    fn to_u128(self) -> (r: Option<u128>) {
        num_cast::<i64, u128>(self)
    }

    fn from_i128(v: i128) -> (r: Option<Self>) {
        num_cast::<i128, i64>(v)
    }

    fn from_u128(v: u128) -> (r: Option<Self>) {
        num_cast::<u128, i64>(v)
    }
}

/// `i128` stands for the integers from `i128::MIN` to `i128::MAX`.
impl Scalar for i128 {
    open spec fn as_int(self) -> int {
        self as int
    }

    open spec fn lowest() -> int {
        i128::MIN as int
    }

    open spec fn highest() -> int {
        i128::MAX as int
    }

    open spec fn of_int(v: int) -> Self {
        v as i128
    }

    proof fn lemma_bounds() {
    }

    proof fn lemma_as_int(self) {
    }

    proof fn lemma_of_int(v: int) {
    }
}

impl NumVec for i128 {
    proof fn lemma_eq(a: Self, b: Self) {
    }

    proof fn lemma_add(a: Self, b: Self) {
    }

    proof fn lemma_sub(a: Self, b: Self) {
    }

    proof fn lemma_mul(a: Self, b: Self) {
    }

    proof fn lemma_div(a: Self, b: Self) {
        if b != 0 {
            lemma_trunc_div_bounds(a as int, b as int);
        }
    }

    fn zero() -> (r: Self) {
        num_zero::<i128>()
    }

    fn one() -> (r: Self) {
        num_one::<i128>()
    }

    fn to_i128(self) -> (r: Option<i128>) {
        num_cast::<i128, i128>(self)
    }

    fn to_u128(self) -> (r: Option<u128>) {
        num_cast::<i128, u128>(self)
    }

    fn from_i128(v: i128) -> (r: Option<Self>) {
        num_cast::<i128, i128>(v)
    }

    fn from_u128(v: u128) -> (r: Option<Self>) {
        num_cast::<u128, i128>(v)
    }
}

/// `isize` stands for the integers from `isize::MIN` to `isize::MAX`.
impl Scalar for isize {
    open spec fn as_int(self) -> int {
        self as int
    }

    open spec fn lowest() -> int {
        isize::MIN as int
    }

    open spec fn highest() -> int {
        isize::MAX as int
    }

    open spec fn of_int(v: int) -> Self {
        v as isize
    }

    proof fn lemma_bounds() {
    }

    proof fn lemma_as_int(self) {
    }

    proof fn lemma_of_int(v: int) {
    }
}

impl NumVec for isize {
    proof fn lemma_eq(a: Self, b: Self) {
    }

    proof fn lemma_add(a: Self, b: Self) {
    }

    proof fn lemma_sub(a: Self, b: Self) {
    }

    proof fn lemma_mul(a: Self, b: Self) {
    }

    proof fn lemma_div(a: Self, b: Self) {
        if b != 0 {
            lemma_trunc_div_bounds(a as int, b as int);
        }
    }

    fn zero() -> (r: Self) {
        num_zero::<isize>()
    }

    fn one() -> (r: Self) {
        num_one::<isize>()
    }

    fn to_i128(self) -> (r: Option<i128>) {
        num_cast::<isize, i128>(self)
    }

    fn to_u128(self) -> (r: Option<u128>) {
        num_cast::<isize, u128>(self)
    }

    fn from_i128(v: i128) -> (r: Option<Self>) {
        num_cast::<i128, isize>(v)
    }

    fn from_u128(v: u128) -> (r: Option<Self>) {
        num_cast::<u128, isize>(v)
    }
}

} // verus!
