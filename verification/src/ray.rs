//! Rays: a point of origin and a direction.

use nalgebra::Vector3;
use vstd::prelude::*;

verus! {

/// A half-line: the points `origin + t * direction` for the parameters `t`.
/// The direction need not have unit length.
#[verifier::reject_recursive_types(T)]
pub struct Ray<T> {
    origin: Vector3<T>,
    direction: Vector3<T>,
}

impl<T> Ray<T> {
    pub closed spec fn spec_origin(&self) -> &Vector3<T> {
        &self.origin
    }

    pub closed spec fn spec_direction(&self) -> &Vector3<T> {
        &self.direction
    }

    pub fn new(origin: Vector3<T>, direction: Vector3<T>) -> (ray: Self)
        ensures
            *ray.origin() == origin,
            *ray.direction() == direction,
    {
        Self { origin, direction }
    }

    #[verifier::when_used_as_spec(spec_origin)]
    pub fn origin(&self) -> (origin: &Vector3<T>)
        ensures
            origin == self.spec_origin(),
    {
        &self.origin
    }

    #[verifier::when_used_as_spec(spec_direction)]
    pub fn direction(&self) -> (direction: &Vector3<T>)
        ensures
            direction == self.spec_direction(),
    {
        &self.direction
    }
}

} // verus!
