//! How a surface sends a ray on: diffuse, metallic and dielectric.
//!
//! The directions a ray may take are computed by the host. A material here
//! decides which of them the ray takes, or that it is absorbed, and puts
//! the scattered ray together with its attenuation.

use crate::definitions::{is_near_zero, magnitude, Color3};
use crate::hittable::HitRecord;
use crate::ray::Ray;
use nalgebra::Vector3;
use vstd::prelude::*;

verus! {

/// A diffuse surface.
#[verifier::reject_recursive_types(T)]
pub struct Lambertian<T> {
    albedo: Color3<T>,
}

impl<T: Copy> Lambertian<T> {
    pub closed spec fn spec_albedo(&self) -> &Color3<T> {
        &self.albedo
    }

    pub fn new(albedo: Color3<T>) -> (material: Self)
        ensures
            *material.albedo() == albedo,
    {
        Self { albedo }
    }

    #[verifier::when_used_as_spec(spec_albedo)]
    pub fn albedo(&self) -> (albedo: &Color3<T>)
        ensures
            albedo == self.spec_albedo(),
    {
        &self.albedo
    }

    /// Scatters a ray at a hit. `scattered` is the sum of the surface
    /// normal and a random unit vector, `components` the keys of its three
    /// components, and `s` the key of the length below which a component
    /// counts as zero.
    ///
    /// The ray always scatters: from the point of the hit, along
    /// `scattered`, or along the normal where `scattered` is near zero, and
    /// attenuated by the albedo.
    pub fn scatter(
        &self,
        hit_record: &HitRecord<T>,
        scattered: Vector3<T>,
        components: (i64, i64, i64),
        s: i64,
    ) -> (out: Option<(Ray<T>, Color3<T>)>)
        ensures
            out matches Some((ray, attenuation)) && {
                &&& *ray.origin() == hit_record.point
                &&& *ray.direction() == if magnitude(components.0) < s && magnitude(components.1)
                    < s && magnitude(components.2) < s {
                    hit_record.normal
                } else {
                    scattered
                }
                &&& attenuation == *self.albedo()
            },
    {
        let scatter_direction = if is_near_zero(components.0, components.1, components.2, s) {
            hit_record.normal
        } else {
            scattered
        };
        let outgoing = Ray::new(hit_record.point, scatter_direction);
        Some((outgoing, self.albedo))
    }
}

/// A mirroring surface, the rougher the greater its fuzz.
#[verifier::reject_recursive_types(T)]
pub struct Metal<T> {
    albedo: Color3<T>,
    fuzz: T,
}

impl<T: Copy> Metal<T> {
    pub closed spec fn spec_albedo(&self) -> &Color3<T> {
        &self.albedo
    }

    pub closed spec fn spec_fuzz(&self) -> &T {
        &self.fuzz
    }

    pub fn new(albedo: Color3<T>, fuzz: T) -> (material: Self)
        ensures
            *material.albedo() == albedo,
            *material.fuzz() == fuzz,
    {
        Self { albedo, fuzz }
    }

    #[verifier::when_used_as_spec(spec_albedo)]
    pub fn albedo(&self) -> (albedo: &Color3<T>)
        ensures
            albedo == self.spec_albedo(),
    {
        &self.albedo
    }

    #[verifier::when_used_as_spec(spec_fuzz)]
    pub fn fuzz(&self) -> (fuzz: &T)
        ensures
            fuzz == self.spec_fuzz(),
    {
        &self.fuzz
    }

    /// Scatters a ray at a hit. `reflected` is the mirrored direction of
    /// the incoming ray, moved by the fuzz, and `facing` the key of its
    /// product with the surface normal.
    ///
    /// The ray scatters exactly when `reflected` points away from the
    /// surface: then from the point of the hit, along `reflected`, and
    /// attenuated by the albedo. Otherwise it is absorbed.
    pub fn scatter(&self, hit_record: &HitRecord<T>, reflected: Vector3<T>, facing: i64) -> (out:
        Option<(Ray<T>, Color3<T>)>)
        ensures
            out is Some <==> facing > 0,
            out matches Some((ray, attenuation)) ==> {
                &&& *ray.origin() == hit_record.point
                &&& *ray.direction() == reflected
                &&& attenuation == *self.albedo()
            },
    {
        let outgoing = Ray::new(hit_record.point, reflected);
        if facing > 0 {
            return Some((outgoing, self.albedo));
        }
        None
    }
}

/// A clear surface, which both mirrors and lets through.
pub struct Dielectric<T> {
    refraction_index: T,
}

impl<T: Copy> Dielectric<T> {
    pub closed spec fn spec_refraction_index(&self) -> &T {
        &self.refraction_index
    }

    pub fn new(refraction_index: T) -> (material: Self)
        ensures
            *material.refraction_index() == refraction_index,
    {
        Self { refraction_index }
    }

    #[verifier::when_used_as_spec(spec_refraction_index)]
    pub fn refraction_index(&self) -> (index: &T)
        ensures
            index == self.spec_refraction_index(),
    {
        &self.refraction_index
    }

    /// The ratio of the refraction indices at a hit: `reciprocal`, which is
    /// one over the refraction index, where the ray enters the medium at
    /// its front face, and the refraction index itself where it leaves.
    pub fn ratio(&self, hit_record: &HitRecord<T>, reciprocal: T) -> (ri: T)
        ensures
            ri == if hit_record.front_face {
                reciprocal
            } else {
                *self.refraction_index()
            },
    {
        if hit_record.front_face {
            reciprocal
        } else {
            self.refraction_index
        }
    }

    /// The ray is mirrored, and not let through: total reflection leaves no
    /// other way, or the reflectance exceeds the draw.
    pub open spec fn reflects(cannot_refract: bool, reflectance: i64, draw: i64) -> bool {
        cannot_refract || reflectance > draw
    }

    /// Scatters a ray at a hit. `reflected` and `refracted` are the two
    /// directions the ray may take, `cannot_refract` says that the ratio of
    /// the indices times the sine of the angle of incidence exceeds one,
    /// `reflectance` and `draw` are the keys of the reflectance at that
    /// angle and of a uniform draw from zero up to one, and `white` is the
    /// neutral colour.
    ///
    /// The ray always scatters, from the point of the hit and unattenuated:
    /// along `reflected` under total reflection or where the reflectance
    /// exceeds the draw, else along `refracted`.
    pub fn scatter(
        &self,
        hit_record: &HitRecord<T>,
        reflected: Vector3<T>,
        refracted: Vector3<T>,
        cannot_refract: bool,
        reflectance: i64,
        draw: i64,
        white: Color3<T>,
    ) -> (out: Option<(Ray<T>, Color3<T>)>)
        ensures
            out matches Some((ray, attenuation)) && {
                &&& *ray.origin() == hit_record.point
                &&& *ray.direction() == if Self::reflects(cannot_refract, reflectance, draw) {
                    reflected
                } else {
                    refracted
                }
                &&& attenuation == white
            },
            cannot_refract ==> (out matches Some((ray, _)) && *ray.direction() == reflected),
    {
        let direction = if cannot_refract || reflectance > draw {
            reflected
        } else {
            refracted
        };
        Some((Ray::new(hit_record.point, direction), white))
    }
}

} // verus!
