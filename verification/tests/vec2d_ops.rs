use compass::prelude::vec2d;
use compass::prelude::Vec2D;
use std::collections::hash_map::DefaultHasher;
use std::hash::Hash;
use std::hash::Hasher;

fn hash_of(v: &Vec2D<i32>) -> u64 {
    let mut hasher = DefaultHasher::new();
    v.hash(&mut hasher);
    hasher.finish()
}

#[test]
fn new_and_vec2d_build_the_same_vector() {
    let a = Vec2D::new(7i32, -9i32);
    let b = vec2d(7i32, -9i32);
    assert_eq!(a.x, 7);
    assert_eq!(a.y, -9);
    assert_eq!(a, b);
}

#[test]
fn cast_2d_keeps_the_values() {
    let v = vec2d(200i32, 17i32);
    assert_eq!(v.cast::<u8>(), Some(vec2d(200u8, 17u8)));
    assert_eq!(v.cast::<i128>(), Some(vec2d(200i128, 17i128)));
    assert_eq!(vec2d(u64::MAX, 0u64).cast::<u128>(), Some(vec2d(u64::MAX as u128, 0u128)));
}

#[test]
fn cast_2d_is_all_or_nothing() {
    assert_eq!(vec2d(-1i32, 5i32).cast::<u32>(), None);
    assert_eq!(vec2d(5i32, -1i32).cast::<u32>(), None);
    assert_eq!(vec2d(-1i32, -1i32).cast::<u32>(), None);
    assert_eq!(vec2d(256u16, 255u16).cast::<u8>(), None);
    assert_eq!(vec2d(255u16, 256u16).cast::<u8>(), None);
    assert_eq!(vec2d(255u16, 255u16).cast::<u8>(), Some(vec2d(255u8, 255u8)));
    assert_eq!(vec2d(u128::MAX, 1u128).cast::<i128>(), None);
}

#[test]
fn from_components_2d_needs_both() {
    assert_eq!(Vec2D::from_components(Some(1u8), Some(2u8)), Some(vec2d(1u8, 2u8)));
    assert_eq!(Vec2D::from_components(None, Some(2u8)), None);
    assert_eq!(Vec2D::from_components(Some(1u8), None), None);
    assert_eq!(Vec2D::<u8>::from_components(None, None), None);
}

#[test]
fn dot_2d_exact() {
    assert_eq!(vec2d(2i32, 3i32).dot(&vec2d(5i32, 7i32)), 31);
    assert_eq!(vec2d(-2i32, 3i32).dot(&vec2d(5i32, 7i32)), 11);
    assert_eq!(vec2d(0u8, 0u8).dot(&vec2d(255u8, 255u8)), 0);
}

#[test]
fn dot_2d_commutes() {
    let a = vec2d(12i64, -7i64);
    let b = vec2d(-3i64, 40i64);
    assert_eq!(a.dot(&b), b.dot(&a));
    assert_eq!(a.dot(&b), -316);
}

#[test]
fn pseudo_cross_exact() {
    assert_eq!(vec2d(2i32, 3i32).pseudo_cross(&vec2d(5i32, 7i32)), -1);
    assert_eq!(vec2d(5i32, 7i32).pseudo_cross(&vec2d(2i32, 3i32)), 1);
    assert_eq!(vec2d(1u8, 0u8).pseudo_cross(&vec2d(0u8, 1u8)), 1);
    assert_eq!(vec2d(4i16, 6i16).pseudo_cross(&vec2d(2i16, 3i16)), 0);
}

#[test]
fn is_zero_2d() {
    assert!(vec2d(0i32, 0i32).is_zero());
    assert!(!vec2d(0i32, 1i32).is_zero());
    assert!(!vec2d(1i32, 0i32).is_zero());
    assert!(!vec2d(-1i32, 1i32).is_zero());
    assert!(Vec2D::<u64>::default().is_zero());
}

#[test]
fn default_2d_is_the_zero_vector() {
    assert_eq!(Vec2D::<i16>::default(), vec2d(0i16, 0i16));
    assert_eq!(Vec2D::<u128>::default(), vec2d(0u128, 0u128));
}

#[test]
fn arithmetic_2d_exact() {
    let a = vec2d(10i32, -4i32);
    let b = vec2d(3i32, 9i32);
    assert_eq!(a + b, vec2d(13, 5));
    assert_eq!(a - b, vec2d(7, -13));
    assert_eq!(a * 3, vec2d(30, -12));
    assert_eq!(a / 2, vec2d(5, -2));
}

#[test]
fn division_2d_rounds_toward_zero() {
    assert_eq!(vec2d(-7i32, 7i32) / 2, vec2d(-3, 3));
    assert_eq!(vec2d(-7i32, 7i32) / -2, vec2d(3, -3));
    assert_eq!(vec2d(1u8, 255u8) / 2, vec2d(0u8, 127u8));
    assert_eq!(vec2d(i8::MIN, i8::MAX) / 1, vec2d(i8::MIN, i8::MAX));
}

#[test]
fn add_then_sub_2d_gives_back() {
    let a = vec2d(100u8, 27u8);
    let b = vec2d(155u8, 200u8);
    assert_eq!(a + b - b, a);
    let c = vec2d(-5i64, i64::MAX - 1);
    let d = vec2d(-9i64, 1i64);
    assert_eq!(c + d - d, c);
}

#[test]
fn mul_then_div_2d_gives_back() {
    let a = vec2d(-21i32, 8i32);
    assert_eq!((a * 6) / 6, a);
    assert_eq!((a * -6) / -6, a);
    assert_eq!((vec2d(4u16, 3u16) * 6u16) / 6u16, vec2d(4u16, 3u16));
}

#[test]
fn scaling_2d_distributes_over_addition() {
    let a = vec2d(3i32, -8i32);
    let b = vec2d(-11i32, 5i32);
    assert_eq!((a + b) * 7, a * 7 + b * 7);
    assert_eq!((a + b) * 7, vec2d(-56, -21));
}

#[test]
fn scaling_2d_by_one_changes_nothing() {
    let a = vec2d(3i32, -8i32);
    assert_eq!(a * <i32 as compass::NumVec>::one(), a);
}

#[test]
fn tuple_round_trip_2d() {
    let v = vec2d(9u32, 4u32);
    let t: (u32, u32) = v.into();
    assert_eq!(t, (9, 4));
    assert_eq!(Vec2D::from(t), v);
}

#[test]
fn array_round_trip_2d() {
    let v = vec2d(-9i8, 4i8);
    let a: [i8; 2] = v.into();
    assert_eq!(a, [-9, 4]);
    assert_eq!(Vec2D::from(a), v);
    assert_eq!(Vec2D::from(&a), v);
}

#[test]
fn sequence_round_trip_2d() {
    let v = vec2d(9u64, 4u64);
    let s: Vec<u64> = v.into();
    assert_eq!(s, vec![9, 4]);
    assert_eq!(Vec2D::try_from(s), Ok(v));
}

#[test]
fn sequence_of_wrong_length_is_refused_2d() {
    assert_eq!(
        Vec2D::<i32>::try_from(vec![]),
        Err(String::from("Expected Vec of length 2, got 0"))
    );
    assert_eq!(
        Vec2D::try_from(vec![1i32]),
        Err(String::from("Expected Vec of length 2, got 1"))
    );
    assert_eq!(
        Vec2D::try_from(vec![1i32, 2, 3]),
        Err(String::from("Expected Vec of length 2, got 3"))
    );
    assert_eq!(
        Vec2D::try_from(vec![0u8; 12]),
        Err(String::from("Expected Vec of length 2, got 12"))
    );
}

#[test]
fn ordering_2d_goes_by_x_then_y() {
    assert!(vec2d(1i32, 50i32) < vec2d(2i32, 0i32));
    assert!(vec2d(1i32, 1i32) < vec2d(1i32, 2i32));
    assert!(vec2d(3i32, 0i32) > vec2d(2i32, 99i32));
    assert_eq!(vec2d(1i32, 2i32).cmp(&vec2d(1i32, 2i32)), std::cmp::Ordering::Equal);
}

#[test]
fn equal_vectors_2d_hash_alike() {
    assert_eq!(hash_of(&vec2d(4, -4)), hash_of(&Vec2D::new(4, -4)));
    assert_ne!(vec2d(4, -4), vec2d(-4, 4));
}

#[test]
fn real_components_are_carried_2d() {
    let v = Vec2D::new(1.5f64, -2.25f64);
    let t: (f64, f64) = v.into();
    assert_eq!(t, (1.5, -2.25));
    assert_eq!(Vec2D::from([1.5f64, -2.25f64]), v);
    assert_eq!(Vec2D::try_from(vec![1.5f64, -2.25f64]), Ok(v));
}
