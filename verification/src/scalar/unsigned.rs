//! The unsigned primitive integers as scalars.
use vstd::prelude::*;
use crate::scalar::num_cast;
use crate::scalar::num_one;
use crate::scalar::num_zero;
use crate::scalar::NumVec;
use crate::scalar::Scalar;

verus! {

/// `u8` stands for the integers from `u8::MIN` to `u8::MAX`.
impl Scalar for u8 {
    open spec fn as_int(self) -> int {
        self as int
    }

    open spec fn lowest() -> int {
        u8::MIN as int
    }

    open spec fn highest() -> int {
        u8::MAX as int
    }

    open spec fn of_int(v: int) -> Self {
        v as u8
    }

    proof fn lemma_bounds() {
    }

    proof fn lemma_as_int(self) {
    }

    proof fn lemma_of_int(v: int) {
    }
}

impl NumVec for u8 {
    proof fn lemma_eq(a: Self, b: Self) {
    }

    proof fn lemma_add(a: Self, b: Self) {
    }

    proof fn lemma_sub(a: Self, b: Self) {
    }

    proof fn lemma_mul(a: Self, b: Self) {
    }

    proof fn lemma_div(a: Self, b: Self) {
    }

    fn zero() -> (r: Self) {
        num_zero::<u8>()
    }

    fn one() -> (r: Self) {
        num_one::<u8>()
    }

    fn to_i128(self) -> (r: Option<i128>) {
        num_cast::<u8, i128>(self)
    }

    fn to_u128(self) -> (r: Option<u128>) {
        num_cast::<u8, u128>(self)
    }

    fn from_i128(v: i128) -> (r: Option<Self>) {
        num_cast::<i128, u8>(v)
    }

    fn from_u128(v: u128) -> (r: Option<Self>) {
        num_cast::<u128, u8>(v)
    }
}

/// `u16` stands for the integers from `u16::MIN` to `u16::MAX`.
impl Scalar for u16 {
    open spec fn as_int(self) -> int {
        self as int
    }

    open spec fn lowest() -> int {
        u16::MIN as int
    }

    open spec fn highest() -> int {
        u16::MAX as int
    }

    open spec fn of_int(v: int) -> Self {
        v as u16
    }

    proof fn lemma_bounds() {
    }

    proof fn lemma_as_int(self) {
    }

    proof fn lemma_of_int(v: int) {
    }
}

impl NumVec for u16 {
    proof fn lemma_eq(a: Self, b: Self) {
    }

    proof fn lemma_add(a: Self, b: Self) {
    }

    proof fn lemma_sub(a: Self, b: Self) {
    }

    proof fn lemma_mul(a: Self, b: Self) {
    }

    proof fn lemma_div(a: Self, b: Self) {
    }

    fn zero() -> (r: Self) {
        num_zero::<u16>()
    }

    fn one() -> (r: Self) {
        num_one::<u16>()
    }

    fn to_i128(self) -> (r: Option<i128>) {
        num_cast::<u16, i128>(self)
    }

    fn to_u128(self) -> (r: Option<u128>) {
        num_cast::<u16, u128>(self)
    }

    fn from_i128(v: i128) -> (r: Option<Self>) {
        num_cast::<i128, u16>(v)
    }

    fn from_u128(v: u128) -> (r: Option<Self>) {
        num_cast::<u128, u16>(v)
    }
}

/// `u32` stands for the integers from `u32::MIN` to `u32::MAX`.
impl Scalar for u32 {
    open spec fn as_int(self) -> int {
        self as int
    }

    open spec fn lowest() -> int {
        u32::MIN as int
    }

    open spec fn highest() -> int {
        u32::MAX as int
    }

    open spec fn of_int(v: int) -> Self {
        v as u32
    }

    proof fn lemma_bounds() {
    }

    proof fn lemma_as_int(self) {
    }

    proof fn lemma_of_int(v: int) {
    }
}

impl NumVec for u32 {
    proof fn lemma_eq(a: Self, b: Self) {
    }

    proof fn lemma_add(a: Self, b: Self) {
    }

    proof fn lemma_sub(a: Self, b: Self) {
    }

    proof fn lemma_mul(a: Self, b: Self) {
    }

    proof fn lemma_div(a: Self, b: Self) {
    }

    fn zero() -> (r: Self) {
        num_zero::<u32>()
    }

    fn one() -> (r: Self) {
        num_one::<u32>()
    }

    fn to_i128(self) -> (r: Option<i128>) {
        num_cast::<u32, i128>(self)
    }

    fn to_u128(self) -> (r: Option<u128>) {
        num_cast::<u32, u128>(self)
    }

    fn from_i128(v: i128) -> (r: Option<Self>) {
        num_cast::<i128, u32>(v)
    }

    fn from_u128(v: u128) -> (r: Option<Self>) {
        num_cast::<u128, u32>(v)
    }
}

/// `u64` stands for the integers from `u64::MIN` to `u64::MAX`.
impl Scalar for u64 {
    open spec fn as_int(self) -> int {
        self as int
    }

    open spec fn lowest() -> int {
        u64::MIN as int
    }

    open spec fn highest() -> int {
        u64::MAX as int
    }

    open spec fn of_int(v: int) -> Self {
        v as u64
    }

    proof fn lemma_bounds() {
    }

    proof fn lemma_as_int(self) {
    }

    proof fn lemma_of_int(v: int) {
    }
}

impl NumVec for u64 {
    proof fn lemma_eq(a: Self, b: Self) {
    }

    proof fn lemma_add(a: Self, b: Self) {
    }

    proof fn lemma_sub(a: Self, b: Self) {
    }

    proof fn lemma_mul(a: Self, b: Self) {
    }

    proof fn lemma_div(a: Self, b: Self) {
    }

    fn zero() -> (r: Self) {
        num_zero::<u64>()
    }

    fn one() -> (r: Self) {
        num_one::<u64>()
    }

    fn to_i128(self) -> (r: Option<i128>) {
        num_cast::<u64, i128>(self)
    }

    fn to_u128(self) -> (r: Option<u128>) {
        num_cast::<u64, u128>(self)
    }

    fn from_i128(v: i128) -> (r: Option<Self>) {
        num_cast::<i128, u64>(v)
    }

    fn from_u128(v: u128) -> (r: Option<Self>) {
        num_cast::<u128, u64>(v)
    }
}

/// `u128` stands for the integers from `u128::MIN` to `u128::MAX`.
impl Scalar for u128 {
    open spec fn as_int(self) -> int {
        self as int
    }

    open spec fn lowest() -> int {
        u128::MIN as int
    }

    open spec fn highest() -> int {
        u128::MAX as int
    }

    open spec fn of_int(v: int) -> Self {
        v as u128
    }

    proof fn lemma_bounds() {
    }

    proof fn lemma_as_int(self) {
    }

    proof fn lemma_of_int(v: int) {
    }
}

impl NumVec for u128 {
    proof fn lemma_eq(a: Self, b: Self) {
    }

    proof fn lemma_add(a: Self, b: Self) {
    }

    proof fn lemma_sub(a: Self, b: Self) {
    }

    proof fn lemma_mul(a: Self, b: Self) {
    }

    proof fn lemma_div(a: Self, b: Self) {
    }

    fn zero() -> (r: Self) {
        num_zero::<u128>()
    }

    fn one() -> (r: Self) {
        num_one::<u128>()
    }

    fn to_i128(self) -> (r: Option<i128>) {
        num_cast::<u128, i128>(self)
    }

    fn to_u128(self) -> (r: Option<u128>) {
        num_cast::<u128, u128>(self)
    }

    fn from_i128(v: i128) -> (r: Option<Self>) {
        num_cast::<i128, u128>(v)
    }

    fn from_u128(v: u128) -> (r: Option<Self>) {
        num_cast::<u128, u128>(v)
    }
}

/// `usize` stands for the integers from `usize::MIN` to `usize::MAX`.
impl Scalar for usize {
    open spec fn as_int(self) -> int {
        self as int
    }

    open spec fn lowest() -> int {
        usize::MIN as int
    }

    open spec fn highest() -> int {
        usize::MAX as int
    }

    open spec fn of_int(v: int) -> Self {
        v as usize
    }

    proof fn lemma_bounds() {
    }

    proof fn lemma_as_int(self) {
    }

    proof fn lemma_of_int(v: int) {
    }
}

impl NumVec for usize {
    proof fn lemma_eq(a: Self, b: Self) {
    }

    proof fn lemma_add(a: Self, b: Self) {
    }

    proof fn lemma_sub(a: Self, b: Self) {
    }

    proof fn lemma_mul(a: Self, b: Self) {
    }

    proof fn lemma_div(a: Self, b: Self) {
    }

    fn zero() -> (r: Self) {
        num_zero::<usize>()
    }

    fn one() -> (r: Self) {
        num_one::<usize>()
    }

    fn to_i128(self) -> (r: Option<i128>) {
        num_cast::<usize, i128>(self)
    }

    fn to_u128(self) -> (r: Option<u128>) {
        num_cast::<usize, u128>(self)
    }

    fn from_i128(v: i128) -> (r: Option<Self>) {
        num_cast::<i128, usize>(v)
    }

    fn from_u128(v: u128) -> (r: Option<Self>) {
        num_cast::<u128, usize>(v)
    }
}

} // verus!
