//! Open ranges of scalar keys.
//!
//! The host computes with real-valued scalars. Where only the order or the
//! sign of a scalar matters, it reaches this library as its key: a signed
//! integer that the host assigns so that
//!
//! - one scalar is less than another exactly when its key is,
//! - zero has the key zero, and
//! - the key of the negative of a scalar is the negative of its key.
//!
//! The two infinities have the keys [`INFINITY`] and [`NEG_INFINITY`], and
//! every other scalar a key strictly between them.

use vstd::prelude::*;

verus! {

/// The key of positive infinity.
pub const INFINITY: i64 = 0x7fff_ffff_ffff_ffff;

/// The key of negative infinity.
pub const NEG_INFINITY: i64 = -0x7fff_ffff_ffff_ffff;

/// A range of keys with its two bounds. Nothing forces `min <= max`; a
/// range whose bounds cross simply contains nothing.
#[derive(Clone, Copy, Debug, PartialEq, Eq, Structural)]
pub struct Interval {
    pub min: i64,
    pub max: i64,
}

impl Interval {
    /// `item` lies strictly between the bounds. The bounds themselves are
    /// outside, so that a ray leaving a surface does not meet that surface
    /// again at its own origin.
    pub open spec fn surrounds(&self, item: i64) -> bool {
        self.min < item && item < self.max
    }

    /// `item`, moved to the nearer bound where it lies outside the closed
    /// range; the lower bound is tried first.
    pub open spec fn clamped(&self, item: i64) -> i64 {
        if item < self.min {
            self.min
        } else if item > self.max {
            self.max
        } else {
            item
        }
    }

    pub fn new(min: i64, max: i64) -> (interval: Self)
        ensures
            interval.min == min,
            interval.max == max,
    {
        Self { min, max }
    }

    /// The range between the two infinities, which surrounds the key of
    /// every other scalar.
    pub fn new_inf() -> (interval: Self)
        ensures
            interval.min == NEG_INFINITY,
            interval.max == INFINITY,
            forall|item: i64| interval.surrounds(item) <==> NEG_INFINITY < item < INFINITY,
    {
        Self { min: NEG_INFINITY, max: INFINITY }
    }

    pub fn contains(&self, item: i64) -> (inside: bool)
        ensures
            inside == self.surrounds(item),
    {
        self.min < item && item < self.max
    }

    pub fn clamp(&self, item: i64) -> (kept: i64)
        ensures
            kept == self.clamped(item),
            self.min <= self.max ==> self.min <= kept <= self.max,
            self.min <= item <= self.max ==> kept == item,
    {
        if item < self.min {
            self.min
        } else if item > self.max {
            self.max
        } else {
            item
        }
    }
}

} // verus!
