//! Identities of vector algebra, proved for every scalar type.
//!
//! Each identity relates the results of the vector operators as their
//! contracts state them, for operands on which the operators are defined.
use vstd::prelude::*;
use vstd::std_specs::convert::FromSpec;
use vstd::std_specs::ops::AddSpec;
use vstd::std_specs::ops::DivSpec;
use vstd::std_specs::ops::MulSpec;
use vstd::std_specs::ops::SubSpec;
use crate::math::lemma_trunc_div_of_product;
use crate::scalar::NumVec;
use crate::scalar::Scalar;
use crate::vecs::vec2d::Vec2D;
use crate::vecs::vec3d::Vec3D;

verus! {

/// Turning a vector into a pair and the pair back into a vector gives the
/// vector again, and so does the way through an array or a sequence.
pub proof fn lemma_round_trip_2d<T: Copy>(v: Vec2D<T>)
    ensures
        <Vec2D<T> as FromSpec<(T, T)>>::from_spec(<(T, T) as FromSpec<Vec2D<T>>>::from_spec(v))
            == v,
        <Vec2D<T> as FromSpec<[T; 2]>>::from_spec(<[T; 2] as FromSpec<Vec2D<T>>>::from_spec(v))
            == v,
        Vec2D::from_seq(v.to_seq()) == Some(v),
{
}

/// Turning a pair into a vector and the vector back into a pair gives the
/// pair again.
pub proof fn lemma_round_trip_pair<T: Copy>(p: (T, T))
    ensures
        <(T, T) as FromSpec<Vec2D<T>>>::from_spec(<Vec2D<T> as FromSpec<(T, T)>>::from_spec(p))
            == p,
{
}

/// Turning a vector into a triple and the triple back into a vector gives
/// the vector again, and so does the way through an array or a sequence.
pub proof fn lemma_round_trip_3d<T: Copy>(v: Vec3D<T>)
    ensures
        <Vec3D<T> as FromSpec<(T, T, T)>>::from_spec(
            <(T, T, T) as FromSpec<Vec3D<T>>>::from_spec(v),
        ) == v,
        <Vec3D<T> as FromSpec<[T; 3]>>::from_spec(<[T; 3] as FromSpec<Vec3D<T>>>::from_spec(v))
            == v,
        Vec3D::from_seq(v.to_seq()) == Some(v),
{
}

/// Turning a triple into a vector and the vector back into a triple gives
/// the triple again.
pub proof fn lemma_round_trip_triple<T: Copy>(p: (T, T, T))
    ensures
        <(T, T, T) as FromSpec<Vec3D<T>>>::from_spec(
            <Vec3D<T> as FromSpec<(T, T, T)>>::from_spec(p),
        ) == p,
{
}

/// Where `a + b` is defined, `(a + b) - b` is defined and equals `a`.
pub proof fn lemma_add_then_sub_2d<T: NumVec>(a: Vec2D<T>, b: Vec2D<T>)
    requires
        a.add_req(b),
    ensures
        a.add_spec(b).sub_req(b),
        a.add_spec(b).sub_spec(b) == a,
{
    Vec2D::<T>::lemma_of_math(a@.plus(b@));
    a.lemma_view();
}

/// Where `a + b` is defined, `(a + b) - b` is defined and equals `a`.
pub proof fn lemma_add_then_sub_3d<T: NumVec>(a: Vec3D<T>, b: Vec3D<T>)
    requires
        a.add_req(b),
    ensures
        a.add_spec(b).sub_req(b),
        a.add_spec(b).sub_spec(b) == a,
{
    Vec3D::<T>::lemma_of_math(a@.plus(b@));
    a.lemma_view();
}

/// Where `a * k` is defined and `k` is not zero, `(a * k) / k` is defined
/// and equals `a`.
pub proof fn lemma_mul_then_div_2d<T: NumVec>(a: Vec2D<T>, k: T)
    requires
        a.mul_req(k),
        k.as_int() != 0,
    ensures
        a.mul_spec(k).div_req(k),
        a.mul_spec(k).div_spec(k) == a,
{
    Vec2D::<T>::lemma_of_math(a@.scaled(k.as_int()));
    lemma_trunc_div_of_product(a@.x, k.as_int());
    lemma_trunc_div_of_product(a@.y, k.as_int());
    a.lemma_view();
}

/// Where `a * k` is defined and `k` is not zero, `(a * k) / k` is defined
/// and equals `a`.
pub proof fn lemma_mul_then_div_3d<T: NumVec>(a: Vec3D<T>, k: T)
    requires
        a.mul_req(k),
        k.as_int() != 0,
    ensures
        a.mul_spec(k).div_req(k),
        a.mul_spec(k).div_spec(k) == a,
{
    Vec3D::<T>::lemma_of_math(a@.scaled(k.as_int()));
    lemma_trunc_div_of_product(a@.x, k.as_int());
    lemma_trunc_div_of_product(a@.y, k.as_int());
    lemma_trunc_div_of_product(a@.z, k.as_int());
    a.lemma_view();
}

/// The dot product does not depend on the order of its operands, and is
/// defined for one order exactly when it is for the other.
pub proof fn lemma_dot_commutes_2d<T: NumVec>(a: Vec2D<T>, b: Vec2D<T>)
    ensures
        a.dot_req(&b) <==> b.dot_req(&a),
        a@.dot(b@) == b@.dot(a@),
{
    assert(a@.x * b@.x == b@.x * a@.x) by (nonlinear_arith);
    assert(a@.y * b@.y == b@.y * a@.y) by (nonlinear_arith);
}

/// The dot product does not depend on the order of its operands, and is
/// defined for one order exactly when it is for the other.
pub proof fn lemma_dot_commutes_3d<T: NumVec>(a: Vec3D<T>, b: Vec3D<T>)
    ensures
        a.dot_req(&b) <==> b.dot_req(&a),
        a@.dot(b@) == b@.dot(a@),
{
    assert(a@.x * b@.x == b@.x * a@.x) by (nonlinear_arith);
    assert(a@.y * b@.y == b@.y * a@.y) by (nonlinear_arith);
    assert(a@.z * b@.z == b@.z * a@.z) by (nonlinear_arith);
}

/// The cross product of two vectors is orthogonal to both: its dot product
/// with either of them is zero.
pub proof fn lemma_cross_orthogonal<T: NumVec>(a: Vec3D<T>, b: Vec3D<T>)
    ensures
        a@.cross(b@).dot(a@) == 0,
        a@.cross(b@).dot(b@) == 0,
        a.mul_req(b) ==> a.mul_spec(b)@.dot(a@) == 0 && a.mul_spec(b)@.dot(b@) == 0,
{
    let (ax, ay, az) = (a@.x, a@.y, a@.z);
    let (bx, by, bz) = (b@.x, b@.y, b@.z);
    assert((ay * bz - az * by) * ax + (az * bx - ax * bz) * ay + (ax * by - ay * bx) * az == 0)
        by (nonlinear_arith);
    assert((ay * bz - az * by) * bx + (az * bx - ax * bz) * by + (ax * by - ay * bx) * bz == 0)
        by (nonlinear_arith);
    if a.mul_req(b) {
        Vec3D::<T>::lemma_of_math(a@.cross(b@));
    }
}

/// Scaling distributes over addition: where `(a + b) * k`, `a * k` and
/// `b * k` are defined, `a * k + b * k` is defined and equals `(a + b) * k`.
pub proof fn lemma_scale_distributes_2d<T: NumVec>(a: Vec2D<T>, b: Vec2D<T>, k: T)
    requires
        a.add_req(b),
        a.add_spec(b).mul_req(k),
        a.mul_req(k),
        b.mul_req(k),
    ensures
        a.mul_spec(k).add_req(b.mul_spec(k)),
        a.add_spec(b).mul_spec(k) == a.mul_spec(k).add_spec(b.mul_spec(k)),
{
    let n = k.as_int();
    Vec2D::<T>::lemma_of_math(a@.plus(b@));
    Vec2D::<T>::lemma_of_math(a@.scaled(n));
    Vec2D::<T>::lemma_of_math(b@.scaled(n));
    assert((a@.x + b@.x) * n == a@.x * n + b@.x * n) by (nonlinear_arith);
    assert((a@.y + b@.y) * n == a@.y * n + b@.y * n) by (nonlinear_arith);
}

/// Scaling distributes over addition: where `(a + b) * k`, `a * k` and
/// `b * k` are defined, `a * k + b * k` is defined and equals `(a + b) * k`.
pub proof fn lemma_scale_distributes_3d<T: NumVec>(a: Vec3D<T>, b: Vec3D<T>, k: T)
    requires
        a.add_req(b),
        a.add_spec(b).mul_req(k),
        a.mul_req(k),
        b.mul_req(k),
    ensures
        a.mul_spec(k).add_req(b.mul_spec(k)),
        a.add_spec(b).mul_spec(k) == a.mul_spec(k).add_spec(b.mul_spec(k)),
{
    let n = k.as_int();
    Vec3D::<T>::lemma_of_math(a@.plus(b@));
    Vec3D::<T>::lemma_of_math(a@.scaled(n));
    Vec3D::<T>::lemma_of_math(b@.scaled(n));
    assert((a@.x + b@.x) * n == a@.x * n + b@.x * n) by (nonlinear_arith);
    assert((a@.y + b@.y) * n == a@.y * n + b@.y * n) by (nonlinear_arith);
    assert((a@.z + b@.z) * n == a@.z * n + b@.z * n) by (nonlinear_arith);
}

} // verus!
