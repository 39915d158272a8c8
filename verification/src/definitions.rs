//! The vector types that the library carries, and the test for a vector
//! that is too short to give a direction.

use nalgebra::Vector3;
use vstd::prelude::*;

verus! {

/// nalgebra's matrix type, of which its vectors are instances. The library
/// carries such values and never looks inside one.
#[verifier::external_type_specification]
#[verifier::external_body]
#[verifier::reject_recursive_types(T)]
#[verifier::reject_recursive_types(R)]
#[verifier::reject_recursive_types(C)]
#[verifier::reject_recursive_types(S)]
pub struct ExMatrix<T, R, C, S>(nalgebra::Matrix<T, R, C, S>);

/// nalgebra's dimension known at compile time.
#[verifier::external_type_specification]
#[verifier::external_body]
pub struct ExConst<const R: usize>(nalgebra::Const<R>);

/// nalgebra's storage of a matrix in an array.
#[verifier::external_type_specification]
#[verifier::external_body]
#[verifier::reject_recursive_types(T)]
pub struct ExArrayStorage<T, const R: usize, const C: usize>(nalgebra::ArrayStorage<T, R, C>);

/// A colour: its red, green and blue part as a vector.
pub type Color3<T> = Vector3<T>;

/// The distance of a key from zero.
pub open spec fn magnitude(key: i64) -> int {
    if key < 0 {
        -key
    } else {
        key as int
    }
}

/// Tells whether a vector is too short to give a direction: each of its
/// three components, given by its key, lies closer to zero than `s`.
pub fn is_near_zero(x: i64, y: i64, z: i64, s: i64) -> (near: bool)
    ensures
        near == (magnitude(x) < s && magnitude(y) < s && magnitude(z) < s),
{
    within(x, s) && within(y, s) && within(z, s)
}

/// Tells whether `key` lies closer to zero than `s`.
fn within(key: i64, s: i64) -> (near: bool)
    ensures
        near == (magnitude(key) < s),
{
    if s <= 0 {
        false
    } else if key < 0 {
        key > i64::MIN && -key < s
    } else {
        key < s
    }
}

} // verus!
