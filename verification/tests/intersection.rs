use raytracing::hittable::{Hit, Hittable, HittableList};
use raytracing::interval::Interval;
use raytracing::material::{Lambertian, Material};
use raytracing::scalar::Scalar;
use raytracing::sphere::{Crossing, Probe, Sphere};
use raytracing::vec3::Vec3;

type P = [f64; 3];

fn s(x: f64) -> Scalar {
    Scalar::from_bits(x.to_bits())
}

fn f(x: Scalar) -> f64 {
    f64::from_bits(x.to_bits())
}

fn v(a: P) -> Vec3 {
    Vec3::new(s(a[0]), s(a[1]), s(a[2]))
}

fn p3(a: Vec3) -> P {
    [f(a.x()), f(a.y()), f(a.z())]
}

fn dot3(a: P, b: P) -> f64 {
    a[0] * b[0] + a[1] * b[1] + a[2] * b[2]
}

fn sub3(a: P, b: P) -> P {
    [a[0] - b[0], a[1] - b[1], a[2] - b[2]]
}

fn grey(level: f64) -> Material {
    Material::Lambertian(Lambertian::new(v([level, level, level])))
}

fn ball(center: P, radius: f64, level: f64) -> Sphere {
    Sphere::new(v(center), s(radius), grey(level))
}

fn crossing_at(sphere: &Sphere, origin: P, dir: P, t: f64) -> Crossing {
    let p = [origin[0] + t * dir[0], origin[1] + t * dir[1], origin[2] + t * dir[2]];
    let r = f(sphere.radius);
    let c = p3(sphere.center);
    let n = [(p[0] - c[0]) / r, (p[1] - c[1]) / r, (p[2] - c[2]) / r];
    Crossing { t: s(t), p: v(p), outward_normal: v(n), facing: s(dot3(dir, n)) }
}

fn probe_of(sphere: &Sphere, origin: P, dir: P) -> Probe {
    let oc = sub3(origin, p3(sphere.center));
    let a = dot3(dir, dir);
    let half_b = dot3(oc, dir);
    let r = f(sphere.radius);
    let c = dot3(oc, oc) - r * r;
    let discriminant = half_b * half_b - a * c;
    let sqrtd = discriminant.sqrt();
    Probe {
        discriminant: s(discriminant),
        near: crossing_at(sphere, origin, dir, (-half_b - sqrtd) / a),
        far: crossing_at(sphere, origin, dir, (-half_b + sqrtd) / a),
    }
}

fn forward() -> Interval {
    Interval::new(s(0.001), s(f64::INFINITY))
}

fn scene_hit(spheres: &[Sphere], origin: P, dir: P, ray_t: Interval) -> Option<Hit> {
    let mut world = HittableList::new(Hittable::Sphere(spheres[0]));
    for sphere in &spheres[1..] {
        world.add(Hittable::Sphere(*sphere));
    }
    let probes: Vec<Probe> = spheres.iter().map(|sp| probe_of(sp, origin, dir)).collect();
    world.hit(&probes, ray_t)
}

fn close(a: f64, b: f64) -> bool {
    (a - b).abs() <= 1e-9 * (1.0 + b.abs())
}

#[test]
fn ray_toward_a_centred_sphere_hits_at_d_minus_r() {
    for (r, d) in [(0.5, 1.0), (1.0, 3.0), (2.0, 2.5), (100.0, 1000.5), (0.001, 10.0)] {
        let sphere = ball([0.0, 0.0, 0.0], r, 0.5);
        let origin = [0.0, 0.0, d];
        let dir = [0.0, 0.0, -1.0];
        let rec = sphere.hit(&probe_of(&sphere, origin, dir), forward()).expect("a hit");
        assert!(close(f(rec.t), d - r), "t = {} for r {r} d {d}", f(rec.t));
        let n = p3(rec.norm);
        assert!(close(dot3(n, n).sqrt(), 1.0), "normal {n:?}");
        assert!(close(n[2], 1.0) && n[0] == 0.0 && n[1] == 0.0, "normal {n:?}");
        assert!(rec.frnt);
        assert!(close(p3(rec.p)[2], r));
        assert_eq!(rec.mat, grey(0.5));
    }
}

#[test]
fn ray_past_the_silhouette_hits_nothing() {
    let sphere = ball([0.0, 0.0, 0.0], 1.0, 0.5);
    for origin in [[1.5, 0.0, 3.0], [0.0, -1.0001, 3.0], [1.0, 1.0, 3.0]] {
        let probe = probe_of(&sphere, origin, [0.0, 0.0, -1.0]);
        assert!(f(probe.discriminant) < 0.0);
        assert_eq!(sphere.hit(&probe, forward()), None);
    }
    // pointing away from the sphere: both roots lie behind the origin
    let probe = probe_of(&sphere, [0.0, 0.0, 3.0], [0.0, 0.0, 1.0]);
    assert_eq!(sphere.hit(&probe, forward()), None);
}

#[test]
fn negative_radius_keeps_place_and_parameter_and_turns_the_normal() {
    let origin = [0.3, -0.2, 4.0];
    let dir = [0.0, 0.1, -1.0];
    for r in [0.5, 1.0, 2.0] {
        let solid = ball([0.0, 0.0, 0.0], r, 0.5);
        let hollow = ball([0.0, 0.0, 0.0], -r, 0.5);
        let probe_solid = probe_of(&solid, origin, dir);
        let probe_hollow = probe_of(&hollow, origin, dir);
        // the sphere's own normal at the crossing is the opposite one
        assert_eq!(probe_hollow.near.outward_normal, probe_solid.near.outward_normal.neg());
        assert_eq!(probe_hollow.near.facing, probe_solid.near.facing.neg());
        let a = solid.hit(&probe_solid, forward()).expect("a hit");
        let b = hollow.hit(&probe_hollow, forward()).expect("a hit");
        assert_eq!(a.t, b.t);
        assert_eq!(a.p, b.p);
        assert!(a.frnt);
        assert!(!b.frnt);
        // both records hold the normal that opposes the ray
        assert_eq!(a.norm, b.norm);
        assert_eq!(a.norm, probe_solid.near.outward_normal);
        assert_eq!(b.norm, probe_hollow.near.outward_normal.neg());
        assert!(dot3(dir, p3(b.norm)) < 0.0);
    }
}

#[test]
fn ray_from_inside_hits_on_the_way_out() {
    let sphere = ball([0.0, 0.0, 0.0], 2.0, 0.5);
    let probe = probe_of(&sphere, [0.0, 0.0, 0.0], [0.0, 0.0, -1.0]);
    assert!(close(f(probe.near.t), -2.0));
    let rec = sphere.hit(&probe, forward()).expect("a hit");
    assert!(close(f(rec.t), 2.0));
    assert!(!rec.frnt);
    assert!(close(p3(rec.norm)[2], 1.0));
}

#[test]
fn a_root_on_the_bound_is_outside() {
    let sphere = ball([0.0, 0.0, 0.0], 1.0, 0.5);
    let probe = probe_of(&sphere, [0.0, 0.0, 3.0], [0.0, 0.0, -1.0]);
    assert_eq!(f(probe.near.t), 2.0);
    assert_eq!(f(probe.far.t), 4.0);
    let hit_t = |lo: f64, hi: f64| sphere.hit(&probe, Interval::new(s(lo), s(hi))).map(|h| f(h.t));
    assert_eq!(hit_t(0.0, 10.0), Some(2.0));
    assert_eq!(hit_t(2.0, 10.0), Some(4.0));
    assert_eq!(hit_t(0.0, 2.0), None);
    assert_eq!(hit_t(2.0, 4.0), None);
    assert_eq!(hit_t(1.9999999999999998, 2.0000000000000004), Some(2.0));
    assert_eq!(hit_t(4.0, 10.0), None);
    assert_eq!(hit_t(f64::NAN, 10.0), None);
    assert_eq!(hit_t(0.0, f64::NAN), None);
}

#[test]
fn negative_discriminant_is_a_miss_whatever_the_roots() {
    let sphere = ball([0.0, 0.0, 0.0], 1.0, 0.5);
    let mut probe = probe_of(&sphere, [0.0, 0.0, 3.0], [0.0, 0.0, -1.0]);
    probe.discriminant = s(-1e-300);
    assert_eq!(sphere.hit(&probe, forward()), None);
    probe.discriminant = s(-0.0);
    assert!(sphere.hit(&probe, forward()).is_some());
}

#[test]
fn the_nearer_of_two_overlapping_spheres_wins_in_either_order() {
    let front = ball([0.0, 0.0, -1.0], 0.5, 0.2);
    let back = ball([0.0, 0.0, -1.4], 0.5, 0.8);
    let origin = [0.0, 0.0, 0.0];
    let dir = [0.0, 0.0, -1.0];
    let a = scene_hit(&[front, back], origin, dir, forward()).expect("a hit");
    let b = scene_hit(&[back, front], origin, dir, forward()).expect("a hit");
    assert_eq!(a, b);
    assert!(close(f(a.t), 0.5));
    assert_eq!(a.mat, grey(0.2));
    // seen from behind the order of depth is the other one
    let origin = [0.0, 0.0, -5.0];
    let dir = [0.0, 0.0, 1.0];
    let a = scene_hit(&[front, back], origin, dir, forward()).expect("a hit");
    let b = scene_hit(&[back, front], origin, dir, forward()).expect("a hit");
    assert_eq!(a, b);
    assert!(close(f(a.t), 5.0 - 1.9));
    assert_eq!(a.mat, grey(0.8));
}

#[test]
fn the_nearest_of_many_wins_in_every_rotation() {
    let mut spheres: Vec<Sphere> = (0..7)
        .map(|k| ball([0.0, 0.0, -2.0 - 1.3 * k as f64], 0.6 + 0.05 * k as f64, 0.1 * k as f64))
        .collect();
    spheres.push(ball([5.0, 0.0, -1.0], 0.5, 0.9));
    for _ in 0..spheres.len() {
        spheres.rotate_left(1);
        let rec = scene_hit(&spheres, [0.0, 0.0, 0.0], [0.0, 0.0, -1.0], forward()).expect("a hit");
        assert!(close(f(rec.t), 1.4));
        assert_eq!(rec.mat, grey(0.0));
    }
}

#[test]
fn of_two_equally_near_hits_the_earlier_object_wins() {
    let one = ball([0.0, 0.0, -1.0], 0.5, 0.1);
    let two = ball([0.0, 0.0, -1.0], 0.5, 0.9);
    let origin = [0.0, 0.0, 0.0];
    let dir = [0.0, 0.0, -1.0];
    assert_eq!(scene_hit(&[one, two], origin, dir, forward()).unwrap().mat, grey(0.1));
    assert_eq!(scene_hit(&[two, one], origin, dir, forward()).unwrap().mat, grey(0.9));
}

#[test]
fn nothing_in_range_is_no_hit() {
    let one = ball([0.0, 0.0, -1.0], 0.5, 0.1);
    let two = ball([0.0, 0.0, -3.0], 0.5, 0.9);
    let origin = [0.0, 0.0, 0.0];
    let dir = [0.0, 0.0, -1.0];
    assert_eq!(scene_hit(&[one, two], origin, [0.0, 1.0, 0.0], forward()), None);
    assert_eq!(scene_hit(&[one, two], origin, dir, Interval::new(s(0.001), s(0.4))), None);
    let rec = scene_hit(&[one, two], origin, dir, Interval::new(s(1.6), s(10.0))).unwrap();
    assert!(close(f(rec.t), 2.5));
    assert_eq!(scene_hit(&[one, two], origin, dir, Interval::initialize()), None);
}

#[test]
fn list_keeps_its_objects_in_order() {
    let one = Hittable::Sphere(ball([0.0, 0.0, -1.0], 0.5, 0.1));
    let two = Hittable::Sphere(ball([0.0, 0.0, -3.0], 0.5, 0.9));
    let mut world = HittableList::new(one);
    assert_eq!(world.objects, vec![one]);
    world.add(two);
    world.add(one);
    assert_eq!(world.objects, vec![one, two, one]);
}

#[test]
fn hit_record_is_built_as_given() {
    let rec = Hit::new(v([1.0, 2.0, 3.0]), v([0.0, 1.0, 0.0]), s(4.0), true, grey(0.3));
    assert_eq!(rec.p, v([1.0, 2.0, 3.0]));
    assert_eq!(rec.norm, v([0.0, 1.0, 0.0]));
    assert_eq!(rec.t, s(4.0));
    assert!(rec.frnt);
    assert_eq!(rec.mat, grey(0.3));
    let empty = Hit::initialize();
    assert_eq!(empty.p, v([0.0, 0.0, 0.0]));
    assert_eq!(empty.norm, v([0.0, 0.0, 0.0]));
    assert_eq!(empty.t, s(1e8));
    assert!(!empty.frnt);
    assert_eq!(empty.mat, grey(0.0));
}

#[test]
fn face_normal_opposes_the_ray() {
    let n = v([0.0, 0.0, 1.0]);
    let mut rec = Hit::initialize();
    rec.set_face_normal(s(-0.7), n);
    assert!(rec.frnt);
    assert_eq!(rec.norm, n);
    rec.set_face_normal(s(0.7), n);
    assert!(!rec.frnt);
    assert_eq!(rec.norm, n.neg());
    rec.set_face_normal(s(0.0), n);
    assert!(!rec.frnt);
    assert_eq!(rec.norm, n.neg());
    rec.set_face_normal(s(f64::NAN), n);
    assert!(!rec.frnt);
    assert_eq!(rec.t, s(1e8));
}

#[test]
fn sphere_record_carries_the_material() {
    let sphere = ball([0.0, 0.0, 0.0], 1.0, 0.4);
    let c = Crossing { t: s(2.0), p: v([0.0, 0.0, 1.0]), outward_normal: v([0.0, 0.0, 1.0]), facing: s(-1.0) };
    let rec = sphere.record(&c);
    assert_eq!(rec, Hit::new(v([0.0, 0.0, 1.0]), v([0.0, 0.0, 1.0]), s(2.0), true, grey(0.4)));
    assert_eq!(Hittable::Sphere(sphere).hit(
        &Probe { discriminant: s(1.0), near: c, far: c },
        forward(),
    ), Some(rec));
}
