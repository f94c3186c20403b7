use compass::scalar::convert;
use compass::NumVec;

#[test]
fn zero_is_the_additive_identity() {
    assert_eq!(<u8 as NumVec>::zero(), 0u8);
    assert_eq!(<u128 as NumVec>::zero(), 0u128);
    assert_eq!(<i16 as NumVec>::zero(), 0i16);
    assert_eq!(<isize as NumVec>::zero(), 0isize);
    assert_eq!(7i32 + <i32 as NumVec>::zero(), 7i32);
}

#[test]
fn one_is_the_multiplicative_identity() {
    assert_eq!(<u16 as NumVec>::one(), 1u16);
    assert_eq!(<usize as NumVec>::one(), 1usize);
    assert_eq!(<i8 as NumVec>::one(), 1i8);
    assert_eq!(<i128 as NumVec>::one(), 1i128);
    assert_eq!(7i64 * <i64 as NumVec>::one(), 7i64);
}

#[test]
fn widening_to_i128() {
    assert_eq!(200u8.to_i128(), Some(200i128));
    assert_eq!((-128i8).to_i128(), Some(-128i128));
    assert_eq!(i64::MIN.to_i128(), Some(i64::MIN as i128));
    assert_eq!(u64::MAX.to_i128(), Some(u64::MAX as i128));
    assert_eq!(i128::MAX.to_i128(), Some(i128::MAX));
    assert_eq!((i128::MAX as u128).to_i128(), Some(i128::MAX));
    assert_eq!((i128::MAX as u128 + 1).to_i128(), None);
    assert_eq!(u128::MAX.to_i128(), None);
}

#[test]
fn widening_to_u128() {
    assert_eq!(200u8.to_u128(), Some(200u128));
    assert_eq!(u128::MAX.to_u128(), Some(u128::MAX));
    assert_eq!(0i32.to_u128(), Some(0u128));
    assert_eq!(i128::MAX.to_u128(), Some(i128::MAX as u128));
    assert_eq!((-1i8).to_u128(), None);
    assert_eq!(i128::MIN.to_u128(), None);
}

#[test]
fn narrowing_from_i128() {
    assert_eq!(<u8 as NumVec>::from_i128(255), Some(255u8));
    assert_eq!(<u8 as NumVec>::from_i128(256), None);
    assert_eq!(<u8 as NumVec>::from_i128(-1), None);
    assert_eq!(<i8 as NumVec>::from_i128(-128), Some(-128i8));
    assert_eq!(<i8 as NumVec>::from_i128(-129), None);
    assert_eq!(<i8 as NumVec>::from_i128(128), None);
    assert_eq!(<i64 as NumVec>::from_i128(i64::MAX as i128 + 1), None);
    assert_eq!(<u128 as NumVec>::from_i128(i128::MAX), Some(i128::MAX as u128));
    assert_eq!(<i128 as NumVec>::from_i128(i128::MIN), Some(i128::MIN));
}

#[test]
fn narrowing_from_u128() {
    assert_eq!(<u16 as NumVec>::from_u128(65535), Some(65535u16));
    assert_eq!(<u16 as NumVec>::from_u128(65536), None);
    assert_eq!(<i16 as NumVec>::from_u128(32767), Some(32767i16));
    assert_eq!(<i16 as NumVec>::from_u128(32768), None);
    assert_eq!(<i128 as NumVec>::from_u128(u128::MAX), None);
    assert_eq!(<u128 as NumVec>::from_u128(u128::MAX), Some(u128::MAX));
}

#[test]
fn convert_keeps_the_integer_when_it_fits() {
    assert_eq!(convert::<i32, u8>(200), Some(200u8));
    assert_eq!(convert::<u8, i8>(127), Some(127i8));
    assert_eq!(convert::<i64, i16>(-32768), Some(-32768i16));
    assert_eq!(convert::<u128, u64>(u64::MAX as u128), Some(u64::MAX));
    assert_eq!(convert::<u128, u128>(u128::MAX), Some(u128::MAX));
    assert_eq!(convert::<i128, i128>(i128::MIN), Some(i128::MIN));
    assert_eq!(convert::<usize, isize>(42), Some(42isize));
    assert_eq!(convert::<isize, usize>(42), Some(42usize));
}

#[test]
fn convert_refuses_what_does_not_fit() {
    assert_eq!(convert::<i32, u8>(256), None);
    assert_eq!(convert::<i32, u8>(-1), None);
    assert_eq!(convert::<u8, i8>(128), None);
    assert_eq!(convert::<i64, i16>(-32769), None);
    assert_eq!(convert::<u128, u64>(u64::MAX as u128 + 1), None);
    assert_eq!(convert::<u128, i128>(u128::MAX), None);
    assert_eq!(convert::<i128, u128>(-1), None);
    assert_eq!(convert::<isize, usize>(-1), None);
    assert_eq!(convert::<i8, u128>(i8::MIN), None);
}
