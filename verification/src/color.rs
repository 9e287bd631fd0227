//! From a gamma-encoded colour to the three bytes of a pixel and their text.
use vstd::prelude::*;
use vstd::string::StringExecFns;
use crate::interval::{law_clamp_monotonic, law_clamp_within, Interval};
use crate::scalar::{law_truncation_monotonic, Scalar};
use crate::vec3::Vec3;

verus! {

/// The pattern of 0.999, the brightest that a channel is let be.
pub const INTENSITY_MAX_BITS: u64 = 0x3fef_f7ce_d916_872b;

pub open spec fn intensity_spec() -> Interval {
    Interval { min: Scalar { bits: 0 }, max: Scalar { bits: INTENSITY_MAX_BITS } }
}

/// The range of a colour channel before it is scaled to a byte: from 0 to
/// 0.999.
#[verifier::when_used_as_spec(intensity_spec)]
pub fn intensity() -> (i: Interval)
    ensures
        i == intensity_spec(),
{
    Interval::new(Scalar::zero(), Scalar { bits: INTENSITY_MAX_BITS })
}

pub open spec fn clamp_color_spec(c: &Vec3) -> Vec3 {
    Vec3 {
        x: intensity_spec().clamp_spec(c.x),
        y: intensity_spec().clamp_spec(c.y),
        z: intensity_spec().clamp_spec(c.z),
    }
}

/// Each channel clamped to the range of `intensity`.
#[verifier::when_used_as_spec(clamp_color_spec)]
pub fn clamp_color(c: &Vec3) -> (r: Vec3)
    ensures
        r == clamp_color_spec(c),
{
    let range = intensity();
    Vec3::new(range.clamp(c.x), range.clamp(c.y), range.clamp(c.z))
}

/// Each channel cut to a byte: red, green, blue.
pub fn quantize(c: &Vec3) -> (rgb: (u8, u8, u8))
    ensures
        rgb.0 == c.x.to_byte_spec(),
        rgb.1 == c.y.to_byte_spec(),
        rgb.2 == c.z.to_byte_spec(),
{
    (c.x.to_byte(), c.y.to_byte(), c.z.to_byte())
}

/// The character of a decimal digit.
pub open spec fn digit(d: int) -> char {
    ((48 + d) as u8) as char
}

/// A natural number in decimal, without leading zeros.
pub open spec fn decimal(n: nat) -> Seq<char>
    decreases n,
{
    if n < 10 {
        seq![digit(n as int)]
    } else {
        decimal(n / 10).push(digit((n % 10) as int))
    }
}

/// The text of one pixel: the three numbers in decimal, a space between
/// them and a line feed after them.
pub open spec fn pixel_text(r: nat, g: nat, b: nat) -> Seq<char> {
    decimal(r) + seq![' '] + decimal(g) + seq![' '] + decimal(b) + seq!['\n']
}

/// The text that opens a plain pixel map of the given size: the magic
/// number, the size and the largest channel value, a line each.
pub open spec fn header_text(width: nat, height: nat) -> Seq<char> {
    seq!['P', '3', '\n'] + decimal(width) + seq![' '] + decimal(height) + seq![
        '\n',
        '2',
        '5',
        '5',
        '\n',
    ]
}

fn digit_str(d: u32) -> (s: &'static str)
    requires
        d < 10,
    ensures
        s@ == seq![digit(d as int)],
{
    proof {
        reveal_strlit("0");
        reveal_strlit("1");
        reveal_strlit("2");
        reveal_strlit("3");
        reveal_strlit("4");
        reveal_strlit("5");
        reveal_strlit("6");
        reveal_strlit("7");
        reveal_strlit("8");
        reveal_strlit("9");
    }
    let s = match d {
        0 => "0",
        1 => "1",
        2 => "2",
        3 => "3",
        4 => "4",
        5 => "5",
        6 => "6",
        7 => "7",
        8 => "8",
        _ => "9",
    };
    assert(s@ =~= seq![digit(d as int)]);
    s
}

/// Appends `n` in decimal.
pub fn push_decimal(out: &mut String, n: u32)
    ensures
        final(out)@ == old(out)@ + decimal(n as nat),
    decreases n,
{
    if n >= 10 {
        push_decimal(out, n / 10);
    }
    out.append(digit_str(n % 10));
    assert(final(out)@ =~= old(out)@ + decimal(n as nat));
}

/// The line of one pixel, `"R G B\n"`, for a colour whose channels were
/// gamma-encoded, clamped and scaled to the range of a byte.
pub fn write_color(pixel: &Vec3) -> (line: String)
    ensures
        line@ == pixel_text(
            pixel.x.to_byte_spec() as nat,
            pixel.y.to_byte_spec() as nat,
            pixel.z.to_byte_spec() as nat,
        ),
{
    let (r, g, b) = quantize(pixel);
    proof {
        reveal_strlit(" ");
        reveal_strlit("\n");
    }
    let mut line = String::new();
    push_decimal(&mut line, r as u32);
    line.append(" ");
    push_decimal(&mut line, g as u32);
    line.append(" ");
    push_decimal(&mut line, b as u32);
    line.append("\n");
    assert(line@ =~= pixel_text(r as nat, g as nat, b as nat));
    line
}

/// The header of a plain pixel map of `width` by `height` pixels with
/// channels up to 255.
pub fn header(width: u32, height: u32) -> (text: String)
    ensures
        text@ == header_text(width as nat, height as nat),
{
    proof {
        reveal_strlit("P3\n");
        reveal_strlit(" ");
        reveal_strlit("\n255\n");
    }
    let mut text = String::from_str("P3\n");
    push_decimal(&mut text, width);
    text.append(" ");
    push_decimal(&mut text, height);
    text.append("\n255\n");
    assert(text@ =~= header_text(width as nat, height as nat));
    text
}

/// Encoding keeps the order of brightness, stage by stage: of two
/// gamma-encoded channels the brighter is not clamped below the other, and
/// of two scaled channels the brighter is not given the smaller byte.
pub proof fn law_encoding_monotonic(a: Scalar, b: Scalar)
    requires
        a.le_spec(b),
    ensures
        intensity_spec().clamp_spec(a).le_spec(intensity_spec().clamp_spec(b)),
        intensity_spec().contains_spec(intensity_spec().clamp_spec(a)),
        a.to_byte_spec() <= b.to_byte_spec(),
{
    law_clamp_monotonic(intensity_spec(), a, b);
    law_clamp_within(intensity_spec(), a);
    law_truncation_monotonic(a, b);
}

/// Black stays black: three zeros are clamped to three zeros, and three
/// zeros are written as the pixel `0 0 0`.
pub proof fn law_black_pixel()
    ensures
        clamp_color_spec(&Vec3::zero_spec()) == Vec3::zero_spec(),
        (Scalar { bits: 0 }).to_byte_spec() == 0,
        pixel_text(0, 0, 0) == seq!['0', ' ', '0', ' ', '0', '\n'],
{
    assert(decimal(0) =~= seq!['0']);
    assert(pixel_text(0, 0, 0) =~= seq!['0', ' ', '0', ' ', '0', '\n']);
}

} // verus!
