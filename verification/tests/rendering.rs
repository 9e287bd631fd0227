use raytracing::camera::{ray_color, Bounce, Camera, Radiance, Render, Work};
use raytracing::scalar::Scalar;
use raytracing::vec3::Vec3;

fn s(x: f64) -> Scalar {
    Scalar::from_bits(x.to_bits())
}

fn v(x: f64, y: f64, z: f64) -> Vec3 {
    Vec3::new(s(x), s(y), s(z))
}

fn all_work(mut render: Render) -> Vec<Work> {
    let mut out = Vec::new();
    loop {
        let work = render.next();
        if work == Work::Done {
            assert_eq!(render.next(), Work::Done);
            return out;
        }
        out.push(work);
    }
}

#[test]
fn default_camera_looks_down_minus_z() {
    let c = Camera::new();
    assert_eq!(c.aspect_ratio, s(1.0));
    assert_eq!(c.image_width, 400);
    assert_eq!(c.sample_per_pixel, 10);
    assert_eq!(c.max_depth, 10);
    assert_eq!(c.vfov, s(90.0));
    assert_eq!(c.look_from, v(0.0, 0.0, 0.0));
    assert_eq!(c.look_at, v(0.0, 0.0, -1.0));
    assert_eq!(c.vup, v(0.0, 1.0, 0.0));
    assert_eq!(c.defocus_angle, s(0.0));
    assert_eq!(c.focus_dist, s(10.0));
}

#[test]
fn image_height_is_the_integer_part_and_at_least_one() {
    assert_eq!(Camera::image_height(s(400.0 / (16.0 / 9.0))), 225);
    assert_eq!(Camera::image_height(s(1200.0 / (16.0 / 9.0))), 675);
    assert_eq!(Camera::image_height(s(400.0 / 1.0)), 400);
    assert_eq!(Camera::image_height(s(100.0 / 3.0)), 33);
    assert_eq!(Camera::image_height(s(1.0 / 2.0)), 1);
    assert_eq!(Camera::image_height(s(0.0)), 1);
    assert_eq!(Camera::image_height(s(-7.0)), 1);
    assert_eq!(Camera::image_height(s(f64::NAN)), 1);
    assert_eq!(Camera::image_height(s(f64::INFINITY)), u32::MAX);
    assert_eq!(Camera::image_height(s(1e12)), u32::MAX);
}

#[test]
fn visible_range_starts_above_the_surface() {
    let r = Camera::visible_range();
    assert_eq!(r.min, s(0.001));
    assert_eq!(r.max, s(f64::INFINITY));
    assert!(!r.surrounds(s(0.001)));
    assert!(r.surrounds(s(0.0011)));
    assert!(r.surrounds(s(1e300)));
}

#[test]
fn depth_zero_is_black_whatever_the_scene() {
    for bounce in [None, Some(Bounce::Escaped), Some(Bounce::Absorbed), Some(Bounce::Scattered)] {
        assert_eq!(ray_color(0, bounce), Radiance::Black);
    }
}

#[test]
fn ray_color_follows_the_bounce() {
    assert_eq!(ray_color(50, None), Radiance::Pending);
    assert_eq!(ray_color(50, Some(Bounce::Escaped)), Radiance::Sky);
    assert_eq!(ray_color(50, Some(Bounce::Absorbed)), Radiance::Black);
    assert_eq!(ray_color(50, Some(Bounce::Scattered)), Radiance::Attenuated { depth: 49 });
    assert_eq!(ray_color(1, Some(Bounce::Scattered)), Radiance::Attenuated { depth: 0 });
    assert_eq!(ray_color(u32::MAX, Some(Bounce::Scattered)), Radiance::Attenuated { depth: u32::MAX - 1 });
}

#[test]
fn a_path_ends_after_max_depth_bounces() {
    for max_depth in [0u32, 1, 2, 10, 50] {
        let mut depth = max_depth;
        let mut attenuations = 0;
        loop {
            match ray_color(depth, Some(Bounce::Scattered)) {
                Radiance::Attenuated { depth: rest } => {
                    assert!(rest < depth);
                    depth = rest;
                    attenuations += 1;
                }
                end => {
                    assert_eq!(end, Radiance::Black);
                    break;
                }
            }
        }
        assert_eq!(attenuations, max_depth);
    }
}

#[test]
fn render_works_rows_then_pixels_then_samples() {
    let work = all_work(Render::new(2, 2, 2));
    let expected = vec![
        Work::Sample { i: 0, j: 0 },
        Work::Sample { i: 0, j: 0 },
        Work::Pixel { i: 0, j: 0 },
        Work::Sample { i: 1, j: 0 },
        Work::Sample { i: 1, j: 0 },
        Work::Pixel { i: 1, j: 0 },
        Work::Row { j: 0 },
        Work::Sample { i: 0, j: 1 },
        Work::Sample { i: 0, j: 1 },
        Work::Pixel { i: 0, j: 1 },
        Work::Sample { i: 1, j: 1 },
        Work::Sample { i: 1, j: 1 },
        Work::Pixel { i: 1, j: 1 },
        Work::Row { j: 1 },
    ];
    assert_eq!(work, expected);
}

#[test]
fn render_emits_pixels_in_row_major_order() {
    let work = all_work(Render::new(4, 3, 5));
    let pixels: Vec<(u32, u32)> = work
        .iter()
        .filter_map(|w| match w {
            Work::Pixel { i, j } => Some((*j, *i)),
            _ => None,
        })
        .collect();
    let expected: Vec<(u32, u32)> = (0..3).flat_map(|j| (0..4).map(move |i| (j, i))).collect();
    assert_eq!(pixels, expected);
    assert_eq!(work.len(), 3 * (4 * (5 + 1) + 1));
    let rows: Vec<&Work> = work.iter().filter(|w| matches!(w, Work::Row { .. })).collect();
    assert_eq!(rows, vec![&Work::Row { j: 0 }, &Work::Row { j: 1 }, &Work::Row { j: 2 }]);
}

#[test]
fn render_gives_every_pixel_its_samples_before_it_is_emitted() {
    let work = all_work(Render::new(3, 2, 4));
    let mut samples = 0;
    for w in work {
        match w {
            Work::Sample { .. } => samples += 1,
            Work::Pixel { .. } => {
                assert_eq!(samples, 4);
                samples = 0;
            }
            Work::Row { .. } => assert_eq!(samples, 0),
            Work::Done => unreachable!(),
        }
    }
}

#[test]
fn render_of_an_empty_image_is_done_at_once() {
    assert_eq!(all_work(Render::new(5, 0, 3)), vec![]);
    assert_eq!(all_work(Render::new(0, 2, 3)), vec![Work::Row { j: 0 }, Work::Row { j: 1 }]);
    assert_eq!(
        all_work(Render::new(2, 1, 0)),
        vec![Work::Pixel { i: 0, j: 0 }, Work::Pixel { i: 1, j: 0 }, Work::Row { j: 0 }]
    );
}

#[test]
fn camera_schedules_its_own_width_and_samples() {
    let mut c = Camera::new();
    c.image_width = 3;
    c.sample_per_pixel = 1;
    let work = all_work(c.render(1));
    assert_eq!(
        work,
        vec![
            Work::Sample { i: 0, j: 0 },
            Work::Pixel { i: 0, j: 0 },
            Work::Sample { i: 1, j: 0 },
            Work::Pixel { i: 1, j: 0 },
            Work::Sample { i: 2, j: 0 },
            Work::Pixel { i: 2, j: 0 },
            Work::Row { j: 0 },
        ]
    );
}
