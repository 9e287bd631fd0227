//! The camera's settings, and the decisions of a render: how tall the image
//! is, in what order samples and pixels are worked, and where a path ends.
use vstd::prelude::*;
use vstd::arithmetic::div_mod::lemma_fundamental_div_mod_converse;
use vstd::arithmetic::mul::{lemma_mul_inequality, lemma_mul_nonnegative};
use crate::interval::Interval;
use crate::scalar::{Scalar, INFINITY_BITS, ONE_BITS};
use crate::vec3::Vec3;

verus! {

/// The pattern of 0.001: a ray that leaves a surface is not tested against
/// anything nearer, lest it hit the surface it left.
pub const SHADOW_BIAS_BITS: u64 = 0x3f50_624d_d2f1_a9fc;

/// The pattern of 90, the default vertical field of view in degrees.
pub const DEFAULT_VFOV_BITS: u64 = 0x4056_8000_0000_0000;

/// The pattern of 10, the default focus distance.
pub const DEFAULT_FOCUS_DIST_BITS: u64 = 0x4024_0000_0000_0000;

/// The pattern of -1.
pub const MINUS_ONE_BITS: u64 = 0xbff0_0000_0000_0000;

/// What a render is asked for.
#[derive(Clone, Copy, Debug, PartialEq, Eq, Structural)]
pub struct Camera {
    /// Width over height of the image.
    pub aspect_ratio: Scalar,
    /// Width of the image in pixels.
    pub image_width: u32,
    /// Rays averaged into one pixel.
    pub sample_per_pixel: u32,
    /// Bounces after which a path is given up as black.
    pub max_depth: u32,
    /// Vertical field of view, in degrees.
    pub vfov: Scalar,
    pub look_from: Vec3,
    pub look_at: Vec3,
    /// The direction that is up in the image.
    pub vup: Vec3,
    /// Angle of the cone from the focus point to the lens, in degrees; 0
    /// gives a pinhole.
    pub defocus_angle: Scalar,
    /// Distance from `look_from` to the plane that is in focus.
    pub focus_dist: Scalar,
}

impl Camera {
    pub open spec fn new_spec() -> Camera {
        Camera {
            aspect_ratio: Scalar { bits: ONE_BITS },
            image_width: 400,
            sample_per_pixel: 10,
            max_depth: 10,
            vfov: Scalar { bits: DEFAULT_VFOV_BITS },
            look_from: Vec3::zero_spec(),
            look_at: Vec3 {
                x: Scalar { bits: 0 },
                y: Scalar { bits: 0 },
                z: Scalar { bits: MINUS_ONE_BITS },
            },
            vup: Vec3 { x: Scalar { bits: 0 }, y: Scalar { bits: ONE_BITS }, z: Scalar { bits: 0 } },
            defocus_angle: Scalar { bits: 0 },
            focus_dist: Scalar { bits: DEFAULT_FOCUS_DIST_BITS },
        }
    }

    /// The default camera: a square image 400 pixels wide, 10 samples per
    /// pixel, 10 bounces, 90 degrees of view, looking from the origin down
    /// the negative z axis with y up, no defocus, focus at distance 10.
    pub fn new() -> (c: Camera)
        ensures
            c == Camera::new_spec(),
    {
        Camera {
            aspect_ratio: Scalar::one(),
            image_width: 400,
            sample_per_pixel: 10,
            max_depth: 10,
            vfov: Scalar { bits: DEFAULT_VFOV_BITS },
            look_from: Vec3::zero(),
            look_at: Vec3::new(Scalar::zero(), Scalar::zero(), Scalar { bits: MINUS_ONE_BITS }),
            vup: Vec3::new(Scalar::zero(), Scalar::one(), Scalar::zero()),
            defocus_angle: Scalar::zero(),
            focus_dist: Scalar { bits: DEFAULT_FOCUS_DIST_BITS },
        }
    }

    pub open spec fn image_height_spec(quotient: Scalar) -> int {
        if quotient.to_u32_spec() < 1 {
            1
        } else {
            quotient.to_u32_spec()
        }
    }

    /// The height of the image in pixels, from `quotient`, the image width
    /// over the aspect ratio: its integer part, and at least 1.
    pub fn image_height(quotient: Scalar) -> (h: u32)
        ensures
            h == Camera::image_height_spec(quotient),
            h >= 1,
    {
        let h: u32 = quotient.to_u32();
        if h < 1 {
            1
        } else {
            h
        }
    }

    /// The schedule of a render with this camera's width and samples per
    /// pixel, for an image of the given height.
    pub fn render(&self, image_height: u32) -> (r: Render)
        ensures
            r.width() == self.image_width,
            r.height() == image_height,
            r.samples() == self.sample_per_pixel,
            r.position() == 0,
    {
        Render::new(self.image_width, image_height, self.sample_per_pixel)
    }

    /// The range of ray parameters in which a hit counts: above 0.001 and
    /// below infinity.
    pub fn visible_range() -> (r: Interval)
        ensures
            r.min.bits == SHADOW_BIAS_BITS,
            r.max.bits == INFINITY_BITS,
    {
        Interval::new(Scalar { bits: SHADOW_BIAS_BITS }, Scalar::infinity())
    }
}

/// What became of a ray that was sent into the scene.
#[derive(Clone, Copy, Debug, PartialEq, Eq, Structural)]
pub enum Bounce {
    /// It hit nothing.
    Escaped,
    /// It hit a surface that did not scatter it.
    Absorbed,
    /// It hit a surface that scattered it.
    Scattered,
}

/// How the radiance along a ray is found.
#[derive(Clone, Copy, Debug, PartialEq, Eq, Structural)]
pub enum Radiance {
    /// It is black: three zeros.
    Black,
    /// It is that of the sky in the ray's direction.
    Sky,
    /// It is the attenuation of the surface, channel by channel, times the
    /// radiance along the scattered ray, found with `depth` bounces left.
    Attenuated { depth: u32 },
    /// The ray has to be sent into the scene first.
    Pending,
}

pub open spec fn ray_color_spec(depth: u32, bounce: Option<Bounce>) -> Radiance {
    if depth == 0 {
        Radiance::Black
    } else {
        match bounce {
            None => Radiance::Pending,
            Some(Bounce::Escaped) => Radiance::Sky,
            Some(Bounce::Absorbed) => Radiance::Black,
            Some(Bounce::Scattered) => Radiance::Attenuated { depth: (depth - 1) as u32 },
        }
    }
}

/// The radiance along a ray that may bounce `depth` times more. With no
/// bounce left it is black, and the scene is not asked. Else the scene is
/// asked what became of the ray (`bounce` is `None` until it has answered):
/// a ray that escaped shows the sky, one that was absorbed is black, and one
/// that was scattered shows what the scattered ray shows with one bounce
/// fewer, attenuated by the surface.
pub fn ray_color(depth: u32, bounce: Option<Bounce>) -> (r: Radiance)
    ensures
        r == ray_color_spec(depth, bounce),
{
    if depth == 0 {
        return Radiance::Black;
    }
    match bounce {
        None => Radiance::Pending,
        Some(Bounce::Escaped) => Radiance::Sky,
        Some(Bounce::Absorbed) => Radiance::Black,
        Some(Bounce::Scattered) => Radiance::Attenuated { depth: depth - 1 },
    }
}

/// The number of surfaces that attenuate a path of `depth` bounces at most,
/// when the scene answers the rays of the path with `bounces` in turn.
pub open spec fn attenuations(depth: u32, bounces: Seq<Bounce>) -> nat
    decreases bounces.len(),
{
    if bounces.len() == 0 {
        0
    } else {
        match ray_color_spec(depth, Some(bounces[0])) {
            Radiance::Attenuated { depth: rest } => 1 + attenuations(rest, bounces.drop_first()),
            _ => 0,
        }
    }
}

/// With no bounce allowed every ray is black, whatever the scene holds; and
/// a path is never attenuated more often than its depth allows.
pub proof fn law_depth_bounds_path(depth: u32, bounces: Seq<Bounce>)
    ensures
        forall|bounce: Option<Bounce>| ray_color_spec(0, bounce) == Radiance::Black,
        attenuations(depth, bounces) <= depth,
        depth == 0 ==> attenuations(depth, bounces) == 0,
    decreases bounces.len(),
{
    if bounces.len() > 0 {
        if let Radiance::Attenuated { depth: rest } = ray_color_spec(depth, Some(bounces[0])) {
            law_depth_bounds_path(rest, bounces.drop_first());
        }
    }
}

/// One step of a render.
#[derive(Clone, Copy, Debug, PartialEq, Eq, Structural)]
pub enum Work {
    /// Trace one more ray through pixel `i` of row `j` and add its radiance
    /// to the pixel's sum.
    Sample { i: u32, j: u32 },
    /// Pixel `i` of row `j` has all its samples: encode its sum and emit it.
    Pixel { i: u32, j: u32 },
    /// Row `j` is complete: report progress.
    Row { j: u32 },
    /// The image is complete.
    Done,
}

/// The progress of a render through its image: rows from the top down, the
/// pixels of a row from left to right, and the samples of a pixel one after
/// another.
#[derive(Clone, Copy, Debug)]
pub struct Render {
    width: u32,
    height: u32,
    samples: u32,
    j: u32,
    i: u32,
    s: u32,
}

/// Steps that one row takes: for each pixel its samples and its emission,
/// and the report at the row's end.
pub open spec fn row_steps(width: u32, samples: u32) -> int {
    width * (samples + 1) + 1
}

/// The step that a render of `width` by `height` pixels with `samples` per
/// pixel takes as its step number `k`, counting from 0.
pub open spec fn work_at(width: u32, height: u32, samples: u32, k: int) -> Work {
    let row = row_steps(width, samples);
    if k < 0 || k >= height * row {
        Work::Done
    } else {
        let j = (k / row) as u32;
        let r = k % row;
        if r == row - 1 {
            Work::Row { j }
        } else if r % (samples + 1) < samples {
            Work::Sample { i: (r / (samples + 1)) as u32, j }
        } else {
            Work::Pixel { i: (r / (samples + 1)) as u32, j }
        }
    }
}

impl Render {
    #[verifier::type_invariant]
    spec fn wf(self) -> bool {
        &&& self.j <= self.height
        &&& self.i <= self.width
        &&& self.s <= self.samples
        &&& self.i == self.width ==> self.s == 0
        &&& self.j == self.height ==> self.i == 0 && self.s == 0
    }

    pub closed spec fn width(self) -> u32 {
        self.width
    }

    pub closed spec fn height(self) -> u32 {
        self.height
    }

    pub closed spec fn samples(self) -> u32 {
        self.samples
    }

    /// The number of steps taken so far; it stays at the total once the
    /// image is complete.
    pub closed spec fn position(self) -> int {
        self.j * row_steps(self.width, self.samples) + self.i * (self.samples + 1) + self.s
    }

    /// A render at its first step.
    pub fn new(width: u32, height: u32, samples: u32) -> (r: Render)
        ensures
            r.width() == width,
            r.height() == height,
            r.samples() == samples,
            r.position() == 0,
    {
        Render { width, height, samples, j: 0, i: 0, s: 0 }
    }

    /// The next step, in the order that `work_at` numbers.
    pub fn next(&mut self) -> (work: Work)
        ensures
            work == work_at(old(self).width(), old(self).height(), old(self).samples(), old(self).position()),
            final(self).width() == old(self).width(),
            final(self).height() == old(self).height(),
            final(self).samples() == old(self).samples(),
            final(self).position() == if work == Work::Done {
                old(self).position()
            } else {
                old(self).position() + 1
            },
    {
        proof {
            use_type_invariant(&*self);
            let row = row_steps(self.width, self.samples);
            let per = self.samples + 1;
            let r = self.i * per + self.s;
            lemma_mul_nonnegative(self.i as int, per as int);
            lemma_mul_nonnegative(self.width as int, per as int);
            lemma_mul_nonnegative(self.j as int, row);
            if self.i < self.width {
                lemma_mul_inequality(self.i as int + 1, self.width as int, per as int);
                assert((self.i + 1) * per == self.i * per + per) by (nonlinear_arith);
            }
            assert(0 <= r < row);
            if self.j < self.height {
                lemma_mul_inequality(self.j as int + 1, self.height as int, row);
                assert((self.j + 1) * row == self.j * row + row) by (nonlinear_arith);
                lemma_fundamental_div_mod_converse(self.position(), row, self.j as int, r);
                if self.i < self.width {
                    lemma_fundamental_div_mod_converse(r, per as int, self.i as int, self.s as int);
                }
            }
        }
        if self.j >= self.height {
            Work::Done
        } else if self.i >= self.width {
            let work = Work::Row { j: self.j };
            *self = Render { j: self.j + 1, i: 0, s: 0, ..*self };
            work
        } else if self.s < self.samples {
            let work = Work::Sample { i: self.i, j: self.j };
            *self = Render { s: self.s + 1, ..*self };
            work
        } else {
            let work = Work::Pixel { i: self.i, j: self.j };
            *self = Render { i: self.i + 1, s: 0, ..*self };
            work
        }
    }
}

/// Every pixel has its place in the order of work. Pixel `i` of row `j` is
/// emitted at step `j * row_steps + i * (samples + 1) + samples`, right after
/// its samples, which take the steps before it; so the pixels are emitted row
/// by row from the top, and within a row from the left. The row is reported
/// at the last of its steps, and after the last row the render is done.
pub proof fn law_order_of_work(width: u32, height: u32, samples: u32, i: u32, j: u32, n: u32)
    ensures
        i < width && j < height && n < samples ==> work_at(
            width,
            height,
            samples,
            j * row_steps(width, samples) + i * (samples + 1) + n,
        ) == (Work::Sample { i, j }),
        i < width && j < height ==> work_at(
            width,
            height,
            samples,
            j * row_steps(width, samples) + i * (samples + 1) + samples,
        ) == (Work::Pixel { i, j }),
        j < height ==> work_at(
            width,
            height,
            samples,
            j * row_steps(width, samples) + row_steps(width, samples) - 1,
        ) == (Work::Row { j }),
        work_at(width, height, samples, height * row_steps(width, samples)) == Work::Done,
{
    let row = row_steps(width, samples);
    let per = samples + 1;
    lemma_mul_nonnegative(width as int, per as int);
    lemma_mul_nonnegative(j as int, row);
    if j < height {
        lemma_mul_inequality(j as int + 1, height as int, row);
        assert((j + 1) * row == j * row + row) by (nonlinear_arith);
        lemma_fundamental_div_mod_converse(j * row + row - 1, row, j as int, row - 1);
        if i < width {
            lemma_mul_nonnegative(i as int, per as int);
            lemma_mul_inequality(i as int + 1, width as int, per as int);
            assert((i + 1) * per == i * per + per) by (nonlinear_arith);
            let at_pixel = i * per + samples;
            lemma_fundamental_div_mod_converse(j * row + at_pixel, row, j as int, at_pixel);
            lemma_fundamental_div_mod_converse(at_pixel, per as int, i as int, samples as int);
            if n < samples {
                let at_sample = i * per + n;
                lemma_fundamental_div_mod_converse(j * row + at_sample, row, j as int, at_sample);
                lemma_fundamental_div_mod_converse(at_sample, per as int, i as int, n as int);
            }
        }
    }
}

} // verus!
