//! Which crossing of a ray counts, and which surface a ray meets first.
//!
//! A ray meets the surface of a solid where a quadratic equation in the ray
//! parameter has a root. The host solves the equation; this module decides
//! among the roots. All parameters are scalar keys (see `interval`).

use crate::definitions::magnitude;
use crate::interval::Interval;
use nalgebra::Vector3;
use vstd::prelude::*;

verus! {

/// What is known of the place where a ray meets a surface.
#[verifier::reject_recursive_types(T)]
pub struct HitRecord<T> {
    pub point: Vector3<T>,
    /// The normal of the surface at the point, turned against the ray.
    pub normal: Vector3<T>,
    pub t: T,
    /// The ray came from outside: the outward normal needed no turning.
    pub front_face: bool,
}

impl<T> HitRecord<T> {
    /// Records a hit at `point`, at the parameter `t`. `outward_normal` is
    /// the normal that points out of the solid, `reversed_normal` its
    /// reverse, and `facing` the key of the product of the ray's direction
    /// with the outward normal.
    ///
    /// The hit is on the front face exactly when `facing` is negative, and
    /// the record keeps that one of the two normals which points against
    /// the ray.
    pub fn new(
        point: Vector3<T>,
        outward_normal: Vector3<T>,
        reversed_normal: Vector3<T>,
        t: T,
        facing: i64,
    ) -> (record: Self)
        ensures
            record.point == point,
            record.t == t,
            record.front_face <==> facing < 0,
            record.normal == if facing < 0 {
                outward_normal
            } else {
                reversed_normal
            },
    {
        let (front_face, normal) = Self::set_face_normal(outward_normal, reversed_normal, facing);
        Self { point, normal, t, front_face }
    }

    fn set_face_normal(outward_normal: Vector3<T>, reversed_normal: Vector3<T>, facing: i64) -> (out:
        (bool, Vector3<T>))
        ensures
            out.0 <==> facing < 0,
            out.1 == if facing < 0 {
                outward_normal
            } else {
                reversed_normal
            },
    {
        let front_face = facing < 0;
        let normal = if front_face {
            outward_normal
        } else {
            reversed_normal
        };
        (front_face, normal)
    }
}

/// The key of the product of the ray's direction with the normal that a
/// record keeps, where `facing` is the key of its product with the outward
/// normal: reversing a vector negates its product with any other.
pub open spec fn kept_facing(facing: i64) -> int {
    if facing < 0 {
        facing as int
    } else {
        -facing
    }
}

/// The normal that a record keeps never points along the ray.
pub proof fn kept_normal_opposes_ray(facing: i64)
    ensures
        kept_facing(facing) <= 0,
        kept_facing(facing) == -magnitude(facing),
{
}

/// How the line of a ray lies to one surface.
#[derive(Clone, Copy, Debug, PartialEq, Eq, Structural)]
pub enum Crossing {
    /// The discriminant is negative: the line passes the surface by.
    Apart,
    /// The line enters the solid at `near` and leaves it at `far`.
    Through { near: i64, far: i64 },
}

impl Crossing {
    /// The entry does not come after the exit.
    pub open spec fn ordered(&self) -> bool {
        *self matches Crossing::Through { near, far } ==> near <= far
    }

    /// The parameter at which the ray meets the surface within `interval`:
    /// the entry if the interval surrounds it, else the exit if the
    /// interval surrounds that, else nothing.
    pub open spec fn first_in(&self, interval: Interval) -> Option<i64> {
        match *self {
            Crossing::Apart => None,
            Crossing::Through { near, far } => if interval.surrounds(near) {
                Some(near)
            } else if interval.surrounds(far) {
                Some(far)
            } else {
                None
            },
        }
    }

    /// Finds where the ray meets the surface within `interval`.
    ///
    /// There is no hit exactly when the line passes the surface by or the
    /// interval surrounds neither root, and a hit always lies strictly
    /// inside the interval.
    pub fn hit(&self, interval: Interval) -> (t: Option<i64>)
        ensures
            t == self.first_in(interval),
            t is None <==> (*self matches Crossing::Through { near, far } ==> !interval.surrounds(
                near,
            ) && !interval.surrounds(far)),
            t matches Some(at) ==> interval.surrounds(at),
            t matches Some(at) ==> (*self matches Crossing::Through { near, far } && (at == near
                || at == far)),
    {
        match *self {
            Crossing::Apart => None,
            Crossing::Through { near, far } => {
                if interval.contains(near) {
                    Some(near)
                } else if interval.contains(far) {
                    Some(far)
                } else {
                    None
                }
            },
        }
    }
}

/// A hit within a scene: the position of the surface in the list, and the
/// parameter at which the ray meets it.
#[derive(Clone, Copy, Debug, PartialEq, Eq, Structural)]
pub struct Hit {
    pub index: usize,
    pub t: i64,
}

/// The upper bound that is left for further surfaces once `best` is known.
pub open spec fn closest_so_far(best: Option<Hit>, interval: Interval) -> i64 {
    match best {
        Some(hit) => hit.t,
        None => interval.max,
    }
}

/// The hit that is held after the first `n` surfaces were asked in turn,
/// each within what the earlier hits left of `interval`.
pub open spec fn narrowing(surfaces: Seq<Crossing>, interval: Interval, n: nat) -> Option<Hit>
    decreases n,
{
    if n == 0 {
        None
    } else {
        let best = narrowing(surfaces, interval, (n - 1) as nat);
        let left = Interval { min: interval.min, max: closest_so_far(best, interval) };
        match surfaces[n - 1].first_in(left) {
            Some(t) => Some(Hit { index: (n - 1) as usize, t }),
            None => best,
        }
    }
}

/// `found` is the nearest hit among the first `n` surfaces, each asked on
/// its own within the whole of `interval`: no hit if none of them is hit,
/// else a hit of the surface it names, which no other surface undercuts
/// and no earlier surface equals.
pub open spec fn is_nearest(
    surfaces: Seq<Crossing>,
    interval: Interval,
    n: nat,
    found: Option<Hit>,
) -> bool {
    match found {
        None => forall|i: int| 0 <= i < n ==> (#[trigger] surfaces[i]).first_in(interval) is None,
        Some(hit) => {
            &&& hit.index < n
            &&& surfaces[hit.index as int].first_in(interval) == Some(hit.t)
            &&& forall|i: int|
                0 <= i < n ==> ((#[trigger] surfaces[i]).first_in(interval) matches Some(t) ==> hit.t
                    <= t && (i < hit.index ==> hit.t < t))
        },
    }
}

/// Narrowing the interval hit by hit finds the nearest hit: asking the
/// surfaces in turn, each within what the earlier hits left, ends with the
/// same hit as asking each within the whole interval and taking the one
/// with the least parameter, the earliest surface among equals.
pub proof fn narrowing_finds_nearest(surfaces: Seq<Crossing>, interval: Interval, n: nat)
    requires
        n <= surfaces.len(),
        n <= usize::MAX,
        forall|i: int| 0 <= i < n ==> (#[trigger] surfaces[i]).ordered(),
    ensures
        is_nearest(surfaces, interval, n, narrowing(surfaces, interval, n)),
    decreases n,
{
    if n > 0 {
        narrowing_finds_nearest(surfaces, interval, (n - 1) as nat);
        let best = narrowing(surfaces, interval, (n - 1) as nat);
        assert(is_nearest(surfaces, interval, (n - 1) as nat, best));
        assert(surfaces[n - 1].ordered());
    }
}

/// The surfaces of a scene as one ray sees them, in the order in which
/// they were added.
pub struct HittableList(pub Vec<Crossing>);

impl HittableList {
    /// Every surface has its entry before its exit.
    pub open spec fn ordered(&self) -> bool {
        forall|i: int| 0 <= i < self.0@.len() ==> (#[trigger] self.0@[i]).ordered()
    }

    pub fn new() -> (list: Self)
        ensures
            list.0@.len() == 0,
    {
        Self(Vec::new())
    }

    /// Finds the nearest hit of the ray within `interval`.
    ///
    /// The surfaces are asked in turn, and each hit lowers the upper bound
    /// for those that follow. Where every crossing is ordered, the result is
    /// the hit with the least parameter among the hits of the single
    /// surfaces.
    pub fn hit(&self, interval: Interval) -> (found: Option<Hit>)
        ensures
            found == narrowing(self.0@, interval, self.0@.len()),
            self.ordered() ==> is_nearest(self.0@, interval, self.0@.len(), found),
            found matches Some(hit) ==> hit.index < self.0@.len() && interval.surrounds(hit.t),
    {
        let mut output: Option<Hit> = None;
        let mut closest_so_far: i64 = interval.max;
        let mut i: usize = 0;
        while i < self.0.len()
            invariant
                i <= self.0@.len(),
                output == narrowing(self.0@, interval, i as nat),
                closest_so_far == self::closest_so_far(output, interval),
                closest_so_far <= interval.max,
                output matches Some(hit) ==> hit.index < i && interval.surrounds(hit.t),
            decreases self.0@.len() - i,
        {
            if let Some(t) = self.0[i].hit(Interval::new(interval.min, closest_so_far)) {
                closest_so_far = t;
                output = Some(Hit { index: i, t });
            }
            i = i + 1;
        }
        proof {
            if self.ordered() {
                narrowing_finds_nearest(self.0@, interval, self.0@.len());
            }
        }
        output
    }
}

} // verus!
