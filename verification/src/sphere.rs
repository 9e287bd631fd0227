//! The sphere, and the choice among the two places where a ray crosses it.
use vstd::prelude::*;
use crate::hittable::Hit;
use crate::interval::Interval;
use crate::material::Material;
use crate::scalar::Scalar;
use crate::vec3::Vec3;

verus! {

/// A sphere. A negative radius turns it inside out: the surface is the same
/// and its normal points to the centre.
#[derive(Clone, Copy, Debug, PartialEq, Eq, Structural)]
pub struct Sphere {
    pub center: Vec3,
    pub radius: Scalar,
    pub material: Material,
}

/// One place where the line of a ray crosses a sphere.
#[derive(Clone, Copy, Debug, PartialEq, Eq, Structural)]
pub struct Crossing {
    /// The ray parameter of the place.
    pub t: Scalar,
    /// The place: origin plus `t` times direction.
    pub p: Vec3,
    /// The sphere's normal there: `p` minus the centre, over the radius.
    pub outward_normal: Vec3,
    /// Dot product of the ray's direction and `outward_normal`.
    pub facing: Scalar,
}

/// The solution of the quadratic `|origin + t dir - center|^2 = radius^2` for
/// one ray and one sphere. With `a = dir.dir`, `h = (origin - center).dir`
/// and `c = |origin - center|^2 - radius^2`, the discriminant is `h^2 - a c`
/// and the roots are `(-h - sqrt(discriminant)) / a`, the near one, and
/// `(-h + sqrt(discriminant)) / a`, the far one. Where the discriminant is
/// negative the two crossings hold NaN and are never read.
#[derive(Clone, Copy, Debug, PartialEq, Eq, Structural)]
pub struct Probe {
    pub discriminant: Scalar,
    pub near: Crossing,
    pub far: Crossing,
}

impl Probe {
    /// Whether the far root is not below the near one. It is so of every
    /// probe computed as above: the square root is not negative and `a`, a
    /// sum of squares, is not negative either.
    pub open spec fn ordered(&self) -> bool {
        !self.far.t.lt_spec(self.near.t)
    }
}

impl Sphere {
    pub fn new(center: Vec3, radius: Scalar, material: Material) -> (s: Sphere)
        ensures
            s == (Sphere { center, radius, material }),
    {
        Sphere { center, radius, material }
    }

    /// The hit record of a crossing on this sphere.
    pub open spec fn record_spec(&self, c: Crossing) -> Hit {
        (Hit { p: c.p, norm: c.outward_normal, t: c.t, frnt: false, mat: self.material })
            .face_normal_spec(c.facing, c.outward_normal)
    }

    /// The hit record of a crossing on this sphere: its place and parameter,
    /// the normal turned against the ray, and the sphere's material.
    pub fn record(&self, c: &Crossing) -> (h: Hit)
        ensures
            h == self.record_spec(*c),
    {
        let mut rec = Hit::new(c.p, c.outward_normal, c.t, false, self.material);
        rec.set_face_normal(c.facing, c.outward_normal);
        rec
    }

    pub open spec fn hit_spec(&self, probe: &Probe, ray_t: Interval) -> Option<Hit> {
        if probe.discriminant.lt_spec(Scalar { bits: 0 }) {
            None
        } else if ray_t.surrounds_spec(probe.near.t) {
            Some(self.record_spec(probe.near))
        } else if ray_t.surrounds_spec(probe.far.t) {
            Some(self.record_spec(probe.far))
        } else {
            None
        }
    }

    /// The intersection of the probed ray with this sphere inside `ray_t`.
    /// There is none where the discriminant is negative. Else the near root
    /// is taken if it lies strictly inside `ray_t`, else the far root if that
    /// one does: so a ray that starts inside the sphere hits it on its way
    /// out.
    pub fn hit(&self, probe: &Probe, ray_t: Interval) -> (h: Option<Hit>)
        ensures
            h == self.hit_spec(probe, ray_t),
    {
        if probe.discriminant.lt(Scalar::zero()) {
            None
        } else if ray_t.surrounds(probe.near.t) {
            Some(self.record(&probe.near))
        } else if ray_t.surrounds(probe.far.t) {
            Some(self.record(&probe.far))
        } else {
            None
        }
    }
}

/// A sphere reports the nearest of its crossings that lie inside the
/// interval: the hit is the record of one of the two, its parameter lies
/// strictly inside, and neither crossing lies inside nearer to the origin.
/// There is no hit only where the discriminant is negative or neither
/// crossing lies inside.
pub proof fn law_nearest_root(s: Sphere, probe: Probe, ray_t: Interval)
    requires
        probe.ordered(),
    ensures
        s.hit_spec(&probe, ray_t) matches Some(rec) ==> {
            &&& rec == s.record_spec(probe.near) || rec == s.record_spec(probe.far)
            &&& ray_t.surrounds_spec(rec.t)
            &&& ray_t.surrounds_spec(probe.near.t) ==> !probe.near.t.lt_spec(rec.t)
            &&& ray_t.surrounds_spec(probe.far.t) ==> !probe.far.t.lt_spec(rec.t)
        },
        s.hit_spec(&probe, ray_t) is None <==> probe.discriminant.lt_spec(Scalar { bits: 0 })
            || (!ray_t.surrounds_spec(probe.near.t) && !ray_t.surrounds_spec(probe.far.t)),
{
}

impl Crossing {
    /// The same crossing seen from a sphere of the opposite radius: the same
    /// parameter and place, the normal reversed, and with it the sign of
    /// `facing`. Dividing by the opposite radius reverses each component of
    /// the normal exactly, and the dot product with it.
    pub open spec fn inverted(self) -> Crossing {
        Crossing {
            t: self.t,
            p: self.p,
            outward_normal: self.outward_normal.neg_spec(),
            facing: self.facing.neg_spec(),
        }
    }
}

/// A sphere of radius `-r` in place of one of radius `r` is hit by the same
/// ray at the same parameter and place; its own normal there is the
/// opposite one. The record holds the normal turned against the ray, which
/// is therefore the same, and tells the two apart by the face that was hit.
/// A ray that only grazes the sphere (`facing` zero, or NaN) is left out.
pub proof fn law_negative_radius(s: Sphere, inverse: Sphere, c: Crossing)
    requires
        inverse == (Sphere { radius: s.radius.neg_spec(), ..s }),
        !c.facing.same_spec(Scalar { bits: 0 }),
        !c.facing.is_nan_spec(),
    ensures
        inverse.record_spec(c.inverted()).t == s.record_spec(c).t,
        inverse.record_spec(c.inverted()).p == s.record_spec(c).p,
        inverse.record_spec(c.inverted()).mat == s.record_spec(c).mat,
        inverse.record_spec(c.inverted()).frnt != s.record_spec(c).frnt,
        inverse.record_spec(c.inverted()).norm == s.record_spec(c).norm,
        s.record_spec(c).frnt ==> s.record_spec(c).norm == c.outward_normal
            && inverse.record_spec(c.inverted()).norm == c.inverted().outward_normal.neg_spec(),
        !s.record_spec(c).frnt ==> s.record_spec(c).norm == c.outward_normal.neg_spec()
            && inverse.record_spec(c.inverted()).norm == c.inverted().outward_normal,
{
}

} // verus!
