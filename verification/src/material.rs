//! How a surface answers a ray: the three materials and their bounce rules.
//!
//! Each rule takes the directions and numbers that the caller has computed
//! from the incoming ray and its random draws, and decides what leaves the
//! surface.
use vstd::prelude::*;
use crate::hittable::Hit;
use crate::ray::Ray;
use crate::scalar::{Scalar, ONE_BITS};
use crate::vec3::Vec3;

verus! {

/// A ray that left a surface, and the share of light it keeps per channel.
#[derive(Clone, Copy, Debug, PartialEq, Eq, Structural)]
pub struct Scattered {
    pub attenuation: Vec3,
    pub ray: Ray,
}

/// A diffuse surface.
#[derive(Clone, Copy, Debug, PartialEq, Eq, Structural)]
pub struct Lambertian {
    pub albedo: Vec3,
}

/// A mirror-like surface whose reflection is blurred by `fuzz`, a number
/// from 0 to 1.
#[derive(Clone, Copy, Debug, PartialEq, Eq, Structural)]
pub struct Metal {
    pub albedo: Vec3,
    pub fuzz: Scalar,
}

/// A clear surface with refractive index `ir`.
#[derive(Clone, Copy, Debug, PartialEq, Eq, Structural)]
pub struct Dielectric {
    pub ir: Scalar,
}

/// The material of a surface: one of the three kinds.
#[derive(Clone, Copy, Debug, PartialEq, Eq, Structural)]
pub enum Material {
    Lambertian(Lambertian),
    Metal(Metal),
    Dielectric(Dielectric),
}

/// The numbers on which glass decides between mirror and lens.
#[derive(Clone, Copy, Debug, PartialEq, Eq, Structural)]
pub struct Fresnel {
    /// Refraction ratio times the sine of the angle of incidence.
    pub bend: Scalar,
    /// Share of light that is reflected at this angle.
    pub reflectance: Scalar,
    /// A uniform random number from 0 to 1.
    pub draw: Scalar,
}

impl Lambertian {
    pub fn new(albedo: Vec3) -> (m: Lambertian)
        ensures
            m.albedo == albedo,
    {
        Lambertian { albedo }
    }

    pub open spec fn scatter_spec(&self, rec: &Hit, direction: Vec3) -> Scattered {
        Scattered {
            attenuation: self.albedo,
            ray: Ray {
                origin: rec.p,
                dir: if direction.near_zero_spec() {
                    rec.norm
                } else {
                    direction
                },
            },
        }
    }

    /// Scatters from the hit point along `direction`, the surface normal
    /// plus a random unit vector. Where the two cancelled and `direction` is
    /// near zero, the ray leaves along the normal instead. Always scatters,
    /// and keeps the albedo's share of the light.
    pub fn scatter(&self, rec: &Hit, direction: Vec3) -> (s: Scattered)
        ensures
            s == self.scatter_spec(rec, direction),
    {
        let dir = if direction.near_zero() {
            rec.norm
        } else {
            direction
        };
        Scattered { attenuation: self.albedo, ray: Ray::new(rec.p, dir) }
    }
}

impl Metal {
    /// The fuzz that a metal is built with: the one asked for if it lies
    /// from 0 to 1, else 1.
    pub open spec fn fuzz_spec(fuzz: Scalar) -> Scalar {
        if fuzz.lt_spec(Scalar { bits: 0 }) || (Scalar { bits: ONE_BITS }).lt_spec(fuzz) {
            Scalar { bits: ONE_BITS }
        } else {
            fuzz
        }
    }

    /// A metal of the given colour. A fuzz below 0 or above 1 is replaced
    /// by 1, never refused.
    pub fn new(albedo: Vec3, fuzz: Scalar) -> (m: Metal)
        ensures
            m.albedo == albedo,
            m.fuzz == Metal::fuzz_spec(fuzz),
    {
        let f = if fuzz.lt(Scalar::zero()) || fuzz.gt(Scalar::one()) {
            Scalar::one()
        } else {
            fuzz
        };
        Metal { albedo, fuzz: f }
    }

    pub open spec fn scatter_spec(&self, rec: &Hit, direction: Vec3, facing: Scalar) -> Option<
        Scattered,
    > {
        if (Scalar { bits: 0 }).lt_spec(facing) {
            Some(Scattered { attenuation: self.albedo, ray: Ray { origin: rec.p, dir: direction } })
        } else {
            None
        }
    }

    /// Scatters from the hit point along `direction`, the mirrored incoming
    /// direction plus `fuzz` times a random unit vector, if that leaves on
    /// the normal's side: `facing`, the dot product of `direction` and the
    /// surface normal, must be above zero. Otherwise the ray is absorbed.
    pub fn scatter(&self, rec: &Hit, direction: Vec3, facing: Scalar) -> (s: Option<Scattered>)
        ensures
            s == self.scatter_spec(rec, direction, facing),
    {
        if facing.gt(Scalar::zero()) {
            Some(Scattered { attenuation: self.albedo, ray: Ray::new(rec.p, direction) })
        } else {
            None
        }
    }
}

impl Dielectric {
    pub fn new(ir: Scalar) -> (m: Dielectric)
        ensures
            m.ir == ir,
    {
        Dielectric { ir }
    }

    /// The ratio of refractive indices that a ray meets at `rec`: entering
    /// through the front face it is `reciprocal`, which the caller computed
    /// as 1 over the index; leaving the medium it is the index itself.
    pub fn refraction_ratio(&self, rec: &Hit, reciprocal: Scalar) -> (r: Scalar)
        ensures
            r == if rec.frnt {
                reciprocal
            } else {
                self.ir
            },
    {
        if rec.frnt {
            reciprocal
        } else {
            self.ir
        }
    }

    pub open spec fn cannot_refract_spec(bend: Scalar) -> bool {
        (Scalar { bits: ONE_BITS }).lt_spec(bend)
    }

    /// Total internal reflection: the refraction ratio times the sine of
    /// the angle of incidence is above 1, so no refracted ray exists.
    #[verifier::when_used_as_spec(cannot_refract_spec)]
    pub fn cannot_refract(bend: Scalar) -> (b: bool)
        ensures
            b == Dielectric::cannot_refract_spec(bend),
    {
        bend.gt(Scalar::one())
    }

    pub open spec fn reflects_spec(f: &Fresnel) -> bool {
        Dielectric::cannot_refract_spec(f.bend) || f.draw.lt_spec(f.reflectance)
    }

    /// Whether the ray is mirrored rather than refracted: always under
    /// total internal reflection, else when the reflectance exceeds the
    /// random draw.
    #[verifier::when_used_as_spec(reflects_spec)]
    pub fn reflects(f: &Fresnel) -> (b: bool)
        ensures
            b == Dielectric::reflects_spec(f),
    {
        Dielectric::cannot_refract(f.bend) || f.reflectance.gt(f.draw)
    }

    pub open spec fn scatter_spec(
        &self,
        rec: &Hit,
        f: &Fresnel,
        reflected: Vec3,
        refracted: Vec3,
    ) -> Scattered {
        Scattered {
            attenuation: Vec3 {
                x: Scalar { bits: ONE_BITS },
                y: Scalar { bits: ONE_BITS },
                z: Scalar { bits: ONE_BITS },
            },
            ray: Ray {
                origin: rec.p,
                dir: if Dielectric::reflects_spec(f) {
                    reflected
                } else {
                    refracted
                },
            },
        }
    }

    /// Scatters from the hit point along `reflected` or along `refracted`,
    /// as `reflects` decides. Glass never absorbs: the attenuation is white.
    pub fn scatter(&self, rec: &Hit, f: &Fresnel, reflected: Vec3, refracted: Vec3) -> (s:
        Scattered)
        ensures
            s == self.scatter_spec(rec, f, reflected, refracted),
    {
        let dir = if Dielectric::reflects(f) {
            reflected
        } else {
            refracted
        };
        Scattered {
            attenuation: Vec3::new(Scalar::one(), Scalar::one(), Scalar::one()),
            ray: Ray::new(rec.p, dir),
        }
    }
}

/// A fuzz outside the range from 0 to 1 gives the metal that fuzz 1 gives;
/// so do 1.5 and -1 in particular. A fuzz inside the range is kept.
pub proof fn law_fuzz_is_clamped(fuzz: Scalar)
    ensures
        fuzz.lt_spec(Scalar { bits: 0 }) || (Scalar { bits: ONE_BITS }).lt_spec(fuzz)
            ==> Metal::fuzz_spec(fuzz) == Metal::fuzz_spec(Scalar { bits: ONE_BITS }),
        (Scalar { bits: 0 }).le_spec(fuzz) && fuzz.le_spec(Scalar { bits: ONE_BITS })
            ==> Metal::fuzz_spec(fuzz) == fuzz,
        Metal::fuzz_spec(Scalar { bits: ONE_BITS }) == (Scalar { bits: ONE_BITS }),
        Metal::fuzz_spec(Scalar { bits: 0x3ff8_0000_0000_0000 }) == (Scalar { bits: ONE_BITS }),
        Metal::fuzz_spec(Scalar { bits: 0xbff0_0000_0000_0000 }) == (Scalar { bits: ONE_BITS }),
{
}

} // verus!
