//! What a ray can hit: the record of an intersection, and the list of
//! objects that is searched for the nearest one.
use vstd::prelude::*;
use crate::interval::Interval;
use crate::material::{Lambertian, Material};
use crate::scalar::Scalar;
use crate::sphere::{Probe, Sphere};
use crate::vec3::Vec3;

verus! {

/// The pattern of 1e8, the ray parameter of a record that holds no hit yet.
pub const FAR_BITS: u64 = 0x4197_d784_0000_0000;

/// A successful intersection.
#[derive(Clone, Copy, Debug, PartialEq, Eq, Structural)]
pub struct Hit {
    /// Where the ray met the surface.
    pub p: Vec3,
    /// Surface normal at `p`, turned against the incoming ray.
    pub norm: Vec3,
    /// The ray parameter at `p`.
    pub t: Scalar,
    /// Whether the ray came from the side that the surface's own normal
    /// points to.
    pub frnt: bool,
    /// Material of the surface.
    pub mat: Material,
}

impl Hit {
    pub fn new(p: Vec3, norm: Vec3, t: Scalar, frnt: bool, mat: Material) -> (h: Hit)
        ensures
            h == (Hit { p, norm, t, frnt, mat }),
    {
        Hit { p, norm, t, frnt, mat }
    }

    pub open spec fn initialize_spec() -> Hit {
        Hit {
            p: Vec3::zero_spec(),
            norm: Vec3::zero_spec(),
            t: Scalar { bits: FAR_BITS },
            frnt: false,
            mat: Material::Lambertian(Lambertian { albedo: Vec3::zero_spec() }),
        }
    }

    /// A record that stands for no hit yet: at the origin, with no normal,
    /// at parameter 1e8, on a black diffuse surface.
    pub fn initialize() -> (h: Hit)
        ensures
            h == Hit::initialize_spec(),
    {
        Hit {
            p: Vec3::zero(),
            norm: Vec3::zero(),
            t: Scalar { bits: FAR_BITS },
            frnt: false,
            mat: Material::Lambertian(Lambertian::new(Vec3::zero())),
        }
    }

    /// The record after `set_face_normal`.
    pub open spec fn face_normal_spec(self, facing: Scalar, outward_normal: Vec3) -> Hit {
        let frnt = facing.lt_spec(Scalar { bits: 0 });
        Hit {
            frnt,
            norm: if frnt {
                outward_normal
            } else {
                outward_normal.neg_spec()
            },
            ..self
        }
    }

    /// Turns the normal against the ray. `facing` is the dot product of the
    /// ray's direction and `outward_normal`: where it is below zero the ray
    /// came from outside, the front face was hit and the normal is kept; else
    /// the normal is reversed.
    pub fn set_face_normal(&mut self, facing: Scalar, outward_normal: Vec3)
        ensures
            *final(self) == old(self).face_normal_spec(facing, outward_normal),
    {
        self.frnt = facing.lt(Scalar::zero());
        if self.frnt {
            self.norm = outward_normal;
        } else {
            self.norm = outward_normal.neg();
        }
    }
}

/// An object of the scene. Spheres are the only kind.
#[derive(Clone, Copy, Debug, PartialEq, Eq, Structural)]
pub enum Hittable {
    Sphere(Sphere),
}

impl Hittable {
    pub open spec fn hit_spec(&self, probe: &Probe, ray_t: Interval) -> Option<Hit> {
        match self {
            Hittable::Sphere(s) => s.hit_spec(probe, ray_t),
        }
    }

    /// The object's nearest intersection inside `ray_t`, if it has one.
    pub fn hit(&self, probe: &Probe, ray_t: Interval) -> (h: Option<Hit>)
        ensures
            h == self.hit_spec(probe, ray_t),
    {
        match self {
            Hittable::Sphere(s) => s.hit(probe, ray_t),
        }
    }
}

/// The objects of a scene, in the order in which they were added.
#[derive(Debug)]
pub struct HittableList {
    pub objects: Vec<Hittable>,
}

/// What object `i` reports when it is asked alone, with the whole of `ray_t`.
pub open spec fn alone(objects: Seq<Hittable>, probes: Seq<Probe>, ray_t: Interval, i: int)
    -> Option<Hit> {
    objects[i].hit_spec(&probes[i], ray_t)
}

/// Whether every probe has its far root not below its near root.
pub open spec fn all_ordered(probes: Seq<Probe>) -> bool {
    forall|i: int| 0 <= i < probes.len() ==> (#[trigger] probes[i]).ordered()
}

/// Whether `best` is the nearest of what the first `n` objects report alone,
/// found at object `k`, the first one that reports it so near.
pub open spec fn nearest_of_first(
    objects: Seq<Hittable>,
    probes: Seq<Probe>,
    ray_t: Interval,
    n: int,
    best: Option<Hit>,
    k: int,
) -> bool {
    match best {
        None => forall|j: int| 0 <= j < n ==> (#[trigger] alone(objects, probes, ray_t, j)) is None,
        Some(rec) => {
            &&& 0 <= k < n
            &&& alone(objects, probes, ray_t, k) == Some(rec)
            &&& forall|j: int|
                0 <= j < n ==> (#[trigger] alone(objects, probes, ray_t, j) matches Some(other)
                    ==> !other.t.lt_spec(rec.t))
            &&& forall|j: int|
                0 <= j < k ==> (#[trigger] alone(objects, probes, ray_t, j) matches Some(other)
                    ==> rec.t.lt_spec(other.t))
        },
    }
}

/// Whether `best` is the nearest of what the objects report alone: no hit
/// where none reports one; else the record of an object such that no object
/// reports a nearer hit and every earlier object reports a farther one.
pub open spec fn nearest(
    objects: Seq<Hittable>,
    probes: Seq<Probe>,
    ray_t: Interval,
    best: Option<Hit>,
) -> bool {
    exists|k: int| #[trigger] nearest_of_first(objects, probes, ray_t, objects.len() as int, best, k)
}

/// The upper bound of the search once `best` is found: its parameter, or
/// the upper bound of `ray_t` while nothing is found.
pub open spec fn closest_of(best: Option<Hit>, ray_t: Interval) -> Scalar {
    match best {
        Some(rec) => rec.t,
        None => ray_t.max,
    }
}

/// The search as it proceeds: objects from `from` on are asked in turn, each
/// with the upper bound drawn in to the latest hit.
pub open spec fn scan(
    objects: Seq<Hittable>,
    probes: Seq<Probe>,
    from: int,
    min: Scalar,
    closest: Scalar,
    best: Option<Hit>,
) -> Option<Hit>
    decreases objects.len() - from,
{
    if from < 0 || from >= objects.len() {
        best
    } else {
        match objects[from].hit_spec(&probes[from], Interval { min, max: closest }) {
            Some(rec) => scan(objects, probes, from + 1, min, rec.t, Some(rec)),
            None => scan(objects, probes, from + 1, min, closest, best),
        }
    }
}

/// With the upper bound drawn in to `closest`, an object reports what it
/// reports alone if that is nearer than `closest`, and nothing otherwise.
pub proof fn lemma_narrowed(obj: Hittable, probe: Probe, ray_t: Interval, closest: Scalar)
    requires
        probe.ordered(),
        closest == ray_t.max || ray_t.surrounds_spec(closest),
    ensures
        obj.hit_spec(&probe, ray_t) matches Some(rec) ==> ray_t.surrounds_spec(rec.t),
        obj.hit_spec(&probe, Interval { min: ray_t.min, max: closest }) == (match obj.hit_spec(
            &probe,
            ray_t,
        ) {
            Some(rec) => if rec.t.lt_spec(closest) {
                Some(rec)
            } else {
                None
            },
            None => None,
        }),
{
}

/// The search finds the nearest hit: carried on from object `from` with
/// `best`, the nearest of the objects before, it ends with the nearest of
/// all.
pub proof fn lemma_scan_finds_nearest(
    objects: Seq<Hittable>,
    probes: Seq<Probe>,
    ray_t: Interval,
    from: int,
    best: Option<Hit>,
    k: int,
)
    requires
        probes.len() == objects.len(),
        all_ordered(probes),
        0 <= from <= objects.len(),
        best matches Some(rec) ==> ray_t.surrounds_spec(rec.t),
        nearest_of_first(objects, probes, ray_t, from, best, k),
    ensures
        nearest(
            objects,
            probes,
            ray_t,
            scan(objects, probes, from, ray_t.min, closest_of(best, ray_t), best),
        ),
        scan(objects, probes, from, ray_t.min, closest_of(best, ray_t), best) matches Some(rec)
            ==> ray_t.surrounds_spec(rec.t),
    decreases objects.len() - from,
{
    let closest = closest_of(best, ray_t);
    if from == objects.len() {
        assert(nearest_of_first(objects, probes, ray_t, objects.len() as int, best, k));
    } else {
        lemma_narrowed(objects[from], probes[from], ray_t, closest);
        assert forall|j: int| 0 <= j < from implies (#[trigger] alone(objects, probes, ray_t, j)
            matches Some(other) ==> ray_t.surrounds_spec(other.t)) by {
            lemma_narrowed(objects[j], probes[j], ray_t, ray_t.max);
        }
        assert(alone(objects, probes, ray_t, from) == objects[from].hit_spec(&probes[from], ray_t));
        match objects[from].hit_spec(&probes[from], Interval { min: ray_t.min, max: closest }) {
            Some(rec) => {
                assert(nearest_of_first(objects, probes, ray_t, from + 1, Some(rec), from));
                lemma_scan_finds_nearest(objects, probes, ray_t, from + 1, Some(rec), from);
            },
            None => {
                assert(nearest_of_first(objects, probes, ray_t, from + 1, best, k));
                lemma_scan_finds_nearest(objects, probes, ray_t, from + 1, best, k);
            },
        }
    }
}

impl HittableList {
    /// A scene of one object.
    pub fn new(object: Hittable) -> (l: HittableList)
        ensures
            l.objects@ == seq![object],
    {
        let mut objects = Vec::new();
        objects.push(object);
        HittableList { objects }
    }

    /// Appends an object to the scene.
    pub fn add(&mut self, object: Hittable)
        ensures
            final(self).objects@ == old(self).objects@.push(object),
    {
        self.objects.push(object);
    }

    /// The nearest intersection inside `ray_t` of a ray with the scene.
    /// `probes[i]` is the probe of that ray against object `i`.
    ///
    /// The objects are asked in order, each only for a hit nearer than the
    /// nearest found so far, so that the last hit found is returned. For
    /// probes whose roots are in order this is the nearest of all hits, and
    /// of several equally near ones that of the earliest object.
    pub fn hit(&self, probes: &Vec<Probe>, ray_t: Interval) -> (h: Option<Hit>)
        requires
            probes@.len() == self.objects@.len(),
        ensures
            h == scan(self.objects@, probes@, 0, ray_t.min, ray_t.max, None),
            all_ordered(probes@) ==> nearest(self.objects@, probes@, ray_t, h),
            h matches Some(rec) ==> ray_t.surrounds_spec(rec.t),
    {
        let mut best: Option<Hit> = None;
        let mut closest = ray_t.max;
        let n: usize = self.objects.len();
        for i in 0..n
            invariant
                n == self.objects@.len(),
                n == probes@.len(),
                closest == closest_of(best, ray_t),
                best matches Some(rec) ==> ray_t.surrounds_spec(rec.t),
                scan(self.objects@, probes@, 0, ray_t.min, ray_t.max, None) == scan(
                    self.objects@,
                    probes@,
                    i as int,
                    ray_t.min,
                    closest,
                    best,
                ),
        {
            if let Some(rec) = self.objects[i].hit(&probes[i], Interval::new(ray_t.min, closest)) {
                closest = rec.t;
                best = Some(rec);
            }
        }
        proof {
            if all_ordered(probes@) {
                lemma_scan_finds_nearest(self.objects@, probes@, ray_t, 0, None, 0);
            }
        }
        best
    }
}

/// The nearest hit does not depend on the order of the objects. Let two
/// scenes hold the same objects, each with its probe: object `i` of the
/// second is object `to[i]` of the first, object `k` of the first is object
/// `back[k]` of the second. Then both scenes report a hit or neither does,
/// and neither hit is nearer than the other.
pub proof fn law_nearest_in_any_order(
    objects: Seq<Hittable>,
    probes: Seq<Probe>,
    others: Seq<Hittable>,
    other_probes: Seq<Probe>,
    to: Seq<int>,
    back: Seq<int>,
    ray_t: Interval,
)
    requires
        probes.len() == objects.len(),
        other_probes.len() == others.len(),
        to.len() == others.len(),
        back.len() == objects.len(),
        all_ordered(probes),
        forall|i: int|
            0 <= i < others.len() ==> 0 <= #[trigger] to[i] < objects.len() && others[i]
                == objects[to[i]] && other_probes[i] == probes[to[i]],
        forall|k: int|
            0 <= k < objects.len() ==> 0 <= #[trigger] back[k] < others.len() && objects[k]
                == others[back[k]] && probes[k] == other_probes[back[k]],
    ensures
        ({
            let a = scan(objects, probes, 0, ray_t.min, ray_t.max, None);
            let b = scan(others, other_probes, 0, ray_t.min, ray_t.max, None);
            &&& a is Some == b is Some
            &&& a matches Some(x) ==> b matches Some(y) ==> !x.t.lt_spec(y.t) && !y.t.lt_spec(
                x.t,
            )
        }),
{
    let a = scan(objects, probes, 0, ray_t.min, ray_t.max, None);
    let b = scan(others, other_probes, 0, ray_t.min, ray_t.max, None);
    assert(all_ordered(other_probes)) by {
        assert forall|i: int| 0 <= i < other_probes.len() implies (#[trigger] other_probes[i]).ordered() by {
            assert(other_probes[i] == probes[to[i]]);
        }
    }
    lemma_scan_finds_nearest(objects, probes, ray_t, 0, None, 0);
    lemma_scan_finds_nearest(others, other_probes, ray_t, 0, None, 0);
    let ka = choose|k: int| #[trigger] nearest_of_first(objects, probes, ray_t, objects.len() as int, a, k);
    let kb = choose|k: int| #[trigger] nearest_of_first(others, other_probes, ray_t, others.len() as int, b, k);
    if let Some(x) = a {
        let there = back[ka];
        assert(alone(others, other_probes, ray_t, there) == Some(x));
    }
    if let Some(y) = b {
        let there = to[kb];
        assert(alone(objects, probes, ray_t, there) == Some(y));
    }
}

/// Two objects in particular: asked in either order, both orders find a hit
/// or neither does, and neither hit is nearer than the other.
pub proof fn law_order_of_two(a: Hittable, pa: Probe, b: Hittable, pb: Probe, ray_t: Interval)
    requires
        pa.ordered(),
        pb.ordered(),
    ensures
        ({
            let ab = scan(seq![a, b], seq![pa, pb], 0, ray_t.min, ray_t.max, None);
            let ba = scan(seq![b, a], seq![pb, pa], 0, ray_t.min, ray_t.max, None);
            &&& ab is Some == ba is Some
            &&& ab matches Some(x) ==> ba matches Some(y) ==> !x.t.lt_spec(y.t) && !y.t.lt_spec(
                x.t,
            )
        }),
{
    law_nearest_in_any_order(
        seq![a, b],
        seq![pa, pb],
        seq![b, a],
        seq![pb, pa],
        seq![1, 0],
        seq![1, 0],
        ray_t,
    );
}

} // verus!
