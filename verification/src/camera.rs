//! How far a light path is followed, and how the pixels of an image are
//! gathered.

use crate::ppm::{Image, Pixel, ToU8};
use vstd::prelude::*;

verus! {

/// What happened to a ray on its way through the scene.
#[derive(Clone, Copy, Debug, PartialEq, Eq, Structural)]
pub enum Bounce {
    /// The ray met no surface.
    Miss,
    /// The ray met a surface, which absorbed it.
    Absorbed,
    /// The ray met a surface, which sent it on.
    Scattered,
}

/// What a finished path contributes before attenuation.
#[derive(Clone, Copy, Debug, PartialEq, Eq, Structural)]
pub enum Radiance {
    /// No light at all.
    Black,
    /// The light of the background in the direction of the last ray.
    Background,
}

/// The state of a light path.
#[derive(Clone, Copy, Debug, PartialEq, Eq, Structural)]
pub enum Trace {
    /// The path may go on for this many bounces, at least one.
    Tracing(usize),
    /// The path was cut off: its bounces are used up.
    Exhausted,
    /// The path left the scene.
    Escaped,
    /// The path ended on a surface.
    Absorbed,
}

impl Trace {
    /// The state of a path that may take `depth` bounces and has taken
    /// none.
    pub open spec fn begun(depth: usize) -> Trace {
        if depth == 0 {
            Trace::Exhausted
        } else {
            Trace::Tracing(depth)
        }
    }

    /// The state after one more bounce. A path that has ended stays as it
    /// is.
    pub open spec fn after(self, bounce: Bounce) -> Trace {
        match self {
            Trace::Tracing(depth) => match bounce {
                Bounce::Miss => Trace::Escaped,
                Bounce::Absorbed => Trace::Absorbed,
                Bounce::Scattered => if depth <= 1 {
                    Trace::Exhausted
                } else {
                    Trace::Tracing((depth - 1) as usize)
                },
            },
            _ => self,
        }
    }

    /// The path has ended.
    pub open spec fn ended(self) -> bool {
        !(self is Tracing)
    }

    /// What the path contributes, once it has ended: the background where
    /// it left the scene, and nothing where it was absorbed or cut off.
    pub open spec fn contributes(self) -> Option<Radiance> {
        match self {
            Trace::Tracing(_) => None,
            Trace::Escaped => Some(Radiance::Background),
            Trace::Exhausted => Some(Radiance::Black),
            Trace::Absorbed => Some(Radiance::Black),
        }
    }

    /// Begins a path that may take `depth` bounces. With none to take, the
    /// path is cut off at once.
    pub fn begin(depth: usize) -> (trace: Trace)
        ensures
            trace == Trace::begun(depth),
            depth == 0 ==> trace.contributes() == Some(Radiance::Black),
    {
        if depth == 0 {
            Trace::Exhausted
        } else {
            Trace::Tracing(depth)
        }
    }

    /// Moves the path on by one bounce.
    pub fn step(self, bounce: Bounce) -> (trace: Trace)
        ensures
            trace == self.after(bounce),
            self.ended() ==> trace == self,
    {
        match self {
            Trace::Tracing(depth) => match bounce {
                Bounce::Miss => Trace::Escaped,
                Bounce::Absorbed => Trace::Absorbed,
                Bounce::Scattered => if depth <= 1 {
                    Trace::Exhausted
                } else {
                    Trace::Tracing(depth - 1)
                },
            },
            Trace::Exhausted => Trace::Exhausted,
            Trace::Escaped => Trace::Escaped,
            Trace::Absorbed => Trace::Absorbed,
        }
    }

    pub fn is_terminal(&self) -> (ended: bool)
        ensures
            ended == self.ended(),
    {
        match self {
            Trace::Tracing(_) => false,
            _ => true,
        }
    }

    /// What the path contributes; nothing is known while it goes on.
    pub fn radiance(&self) -> (light: Option<Radiance>)
        ensures
            light == self.contributes(),
            light is Some <==> self.ended(),
    {
        match self {
            Trace::Tracing(_) => None,
            Trace::Escaped => Some(Radiance::Background),
            Trace::Exhausted => Some(Radiance::Black),
            Trace::Absorbed => Some(Radiance::Black),
        }
    }
}

/// The state of a path that may take `depth` bounces, after the bounces
/// `bounces`.
pub open spec fn traced(depth: usize, bounces: Seq<Bounce>) -> Trace
    decreases bounces.len(),
{
    if bounces.len() == 0 {
        Trace::begun(depth)
    } else {
        traced(depth, bounces.drop_last()).after(bounces.last())
    }
}

/// All of the first `n` bounces sent the ray on.
pub open spec fn all_scattered(bounces: Seq<Bounce>, n: int) -> bool {
    forall|k: int| 0 <= k < n ==> bounces[k] == Bounce::Scattered
}

/// A path goes on exactly as long as every bounce sent the ray on and
/// bounces are left; the count it carries is the number of those left.
pub proof fn tracing_while_scattered(depth: usize, bounces: Seq<Bounce>)
    ensures
        traced(depth, bounces) is Tracing <==> bounces.len() < depth && all_scattered(
            bounces,
            bounces.len() as int,
        ),
        traced(depth, bounces) matches Trace::Tracing(left) ==> left == depth - bounces.len(),
    decreases bounces.len(),
{
    if bounces.len() > 0 {
        let before = bounces.drop_last();
        tracing_while_scattered(depth, before);
        assert forall|k: int| 0 <= k < before.len() implies before[k] == bounces[k] by {}
        if all_scattered(bounces, bounces.len() as int) {
            assert(all_scattered(before, before.len() as int));
            assert(bounces.last() == Bounce::Scattered);
        }
        if traced(depth, bounces) is Tracing {
            assert(all_scattered(before, before.len() as int));
            assert(bounces.last() == Bounce::Scattered);
            assert(all_scattered(bounces, bounces.len() as int));
        }
    }
}

/// With no bounce to take, a path contributes no light, whatever the ray
/// and the scene.
pub proof fn no_depth_is_black(bounces: Seq<Bounce>)
    ensures
        traced(0, bounces) == Trace::Exhausted,
        traced(0, bounces).contributes() == Some(Radiance::Black),
    decreases bounces.len(),
{
    if bounces.len() > 0 {
        no_depth_is_black(bounces.drop_last());
    }
}

/// A path never takes more bounces than it was given: after `depth`
/// bounces or more it has ended.
pub proof fn depth_bounds_path(depth: usize, bounces: Seq<Bounce>)
    requires
        bounces.len() >= depth,
    ensures
        traced(depth, bounces).ended(),
{
    tracing_while_scattered(depth, bounces);
}

/// A path brings light exactly when it leaves the scene before its bounces
/// are used up: some bounce among the first `depth` is a miss, and every
/// bounce before it sent the ray on.
pub proof fn light_only_by_escape(depth: usize, bounces: Seq<Bounce>)
    ensures
        traced(depth, bounces).contributes() == Some(Radiance::Background) <==> exists|k: int|
            0 <= k < bounces.len() && k < depth && #[trigger] bounces[k] == Bounce::Miss
                && all_scattered(bounces, k),
    decreases bounces.len(),
{
    if bounces.len() > 0 {
        let before = bounces.drop_last();
        let last = before.len() as int;
        light_only_by_escape(depth, before);
        tracing_while_scattered(depth, before);
        assert forall|k: int| 0 <= k < before.len() implies before[k] == bounces[k] by {}
        if traced(depth, bounces) == Trace::Escaped {
            if traced(depth, before) == Trace::Escaped {
                let k = choose|k: int|
                    0 <= k < before.len() && k < depth && #[trigger] before[k] == Bounce::Miss
                        && all_scattered(before, k);
                assert(all_scattered(bounces, k));
                assert(bounces[k] == Bounce::Miss);
            } else {
                assert(traced(depth, before) is Tracing);
                assert(bounces[last] == Bounce::Miss);
                assert(all_scattered(bounces, last));
            }
        }
        if exists|k: int|
            0 <= k < bounces.len() && k < depth && #[trigger] bounces[k] == Bounce::Miss
                && all_scattered(bounces, k) {
            let k = choose|k: int|
                0 <= k < bounces.len() && k < depth && #[trigger] bounces[k] == Bounce::Miss
                    && all_scattered(bounces, k);
            if k < last {
                assert(before[k] == Bounce::Miss);
                assert(all_scattered(before, k));
            } else {
                assert(all_scattered(before, before.len() as int));
            }
        }
    }
}

/// Gathers an image of `image_height` rows of `image_width` pixels, top
/// row first and each row from the left, asking `shade` for the pixel of
/// each column and row.
///
/// The image is complete: it has exactly the rows and columns asked for,
/// and at each place the pixel that `shade` gave for it.
pub fn render<T: ToU8, F: Fn(usize, usize) -> Pixel<T>>(
    image_height: usize,
    image_width: usize,
    max: usize,
    shade: F,
) -> (image: Image<T>)
    requires
        forall|i: usize, j: usize|
            i < image_width && j < image_height ==> call_requires(shade, (i, j)),
    ensures
        image.height() == image_height,
        image.width() == image_width,
        image.max() == max,
        image.complete(),
        image.rows().len() == image_height,
        forall|j: int| 0 <= j < image_height ==> (#[trigger] image.rows()[j])@.len() == image_width,
        forall|i: usize, j: usize|
            i < image_width && j < image_height ==> call_ensures(
                shade,
                (i, j),
                #[trigger] image.rows()[j as int]@[i as int],
            ),
{
    let mut data: Vec<Vec<Pixel<T>>> = Vec::new();
    let mut j: usize = 0;
    while j < image_height
        invariant
            j <= image_height,
            data@.len() == j,
            forall|i: usize, j: usize|
                i < image_width && j < image_height ==> call_requires(shade, (i, j)),
            forall|r: int| 0 <= r < j ==> (#[trigger] data@[r])@.len() == image_width,
            forall|i: usize, r: usize|
                i < image_width && r < j ==> call_ensures(
                    shade,
                    (i, r),
                    #[trigger] data@[r as int]@[i as int],
                ),
        decreases image_height - j,
    {
        let mut row: Vec<Pixel<T>> = Vec::new();
        let mut i: usize = 0;
        while i < image_width
            invariant
                i <= image_width,
                j < image_height,
                row@.len() == i,
                forall|i: usize, j: usize|
                    i < image_width && j < image_height ==> call_requires(shade, (i, j)),
                forall|c: usize| c < i ==> call_ensures(shade, (c, j), #[trigger] row@[c as int]),
            decreases image_width - i,
        {
            let pixel = shade(i, j);
            row.push(pixel);
            i = i + 1;
        }
        data.push(row);
        j = j + 1;
    }
    let image = Image::new(image_height, image_width, max, data);
    image
}

} // verus!
