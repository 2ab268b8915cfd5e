//! The per-pixel color transform of the grading pass.
//!
//! This is the semantics of the fragment shader, stated and implemented in
//! exact fixed-point arithmetic on 8-bit channels. For one RGBA pixel the
//! pass applies, in order:
//!
//! 1. invert: `c := 255 - c` on each color channel when the invert flag is
//!    set;
//! 2. contrast: scale each color channel around mid-gray (128) by the
//!    contrast multiplier;
//! 3. brightness: add the brightness offset, scaled to the 0..=255 range,
//!    to each color channel;
//! 4. saturation: blend each color channel toward the pixel's luminance by
//!    the saturation factor.
//!
//! Every step clamps to `0..=255`, as the render target's 8-bit normalized
//! format does. The alpha channel is never touched. Luminance uses integer
//! weights 54/256, 183/256, and 19/256 for red, green, and blue: the
//! weights of the usual HDTV luma formula scaled by 256, chosen to total
//! exactly 256 so that gray pixels keep their level exactly.

use vstd::arithmetic::div_mod::lemma_div_is_ordered;
use vstd::arithmetic::div_mod::lemma_div_multiples_vanish;
use vstd::arithmetic::mul::lemma_mul_upper_bound;
use vstd::prelude::*;

use crate::settings::Settings;

verus! {

/// One pixel of an 8-bit RGBA image.
#[derive(Clone, Copy, Debug, PartialEq, Eq, Structural)]
pub struct Rgba {
    /// Red channel.
    pub r: u8,
    /// Green channel.
    pub g: u8,
    /// Blue channel.
    pub b: u8,
    /// Alpha channel.
    pub a: u8,
}

/// Clamps an exact intermediate value to the renderable 0..=255 range.
pub open spec fn clamp255(v: int) -> u8 {
    if v < 0 {
        0
    } else if v > 255 {
        255
    } else {
        v as u8
    }
}

/// The invert step on one channel.
pub open spec fn invert_step(c: u8, inv: bool) -> u8 {
    if inv {
        (255 - c) as u8
    } else {
        c
    }
}

/// The contrast step on one channel: scale the distance from mid-gray by
/// the multiplier `k` (milli-units) and clamp.
pub open spec fn contrast_step(c: u8, k: u32) -> u8 {
    if c >= 128 {
        clamp255(128 + (c - 128) * k / 1000)
    } else {
        clamp255(128 - (128 - c) * k / 1000)
    }
}

/// The brightness offset `b` (milli-units of full scale) in channel units,
/// rounded toward zero.
pub open spec fn brightness_delta(b: i32) -> int {
    if b >= 0 {
        b * 255 / 1000
    } else {
        -((-b) * 255 / 1000)
    }
}

/// The brightness step on one channel.
pub open spec fn brightness_step(c: u8, b: i32) -> u8 {
    clamp255(c + brightness_delta(b))
}

/// Integer luminance of a color, with weights 54, 183, and 19 out of 256.
pub open spec fn luma(r: u8, g: u8, b: u8) -> u8 {
    ((54 * r + 183 * g + 19 * b) / 256) as u8
}

/// The saturation step on one channel: blend from the luminance `l` toward
/// the channel by the factor `s` (milli-units) and clamp.
pub open spec fn saturate_step(c: u8, l: u8, s: u32) -> u8 {
    if c >= l {
        clamp255(l + (c - l) * s / 1000)
    } else {
        clamp255(l - (l - c) * s / 1000)
    }
}

/// The whole color grade on one pixel: invert, contrast, and brightness on
/// each color channel, then blend toward the luminance of the adjusted
/// color; alpha passes through.
pub open spec fn shaded(s: Settings, p: Rgba) -> Rgba {
    let r1 = brightness_step(
        contrast_step(invert_step(p.r, s.invert), s.contrast),
        s.brightness,
    );
    let g1 = brightness_step(
        contrast_step(invert_step(p.g, s.invert), s.contrast),
        s.brightness,
    );
    let b1 = brightness_step(
        contrast_step(invert_step(p.b, s.invert), s.contrast),
        s.brightness,
    );
    let l = luma(r1, g1, b1);
    Rgba {
        r: saturate_step(r1, l, s.saturation),
        g: saturate_step(g1, l, s.saturation),
        b: saturate_step(b1, l, s.saturation),
        a: p.a,
    }
}

/// Clamps an exact intermediate value to the renderable 0..=255 range.
pub fn clamp_channel(v: i32) -> (c: u8)
    ensures
        c == clamp255(v as int),
{
    if v < 0 {
        0
    } else if v > 255 {
        255
    } else {
        v as u8
    }
}

/// The invert step on one channel.
pub fn invert_channel(c: u8, inv: bool) -> (o: u8)
    ensures
        o == invert_step(c, inv),
{
    if inv {
        255 - c
    } else {
        c
    }
}

/// Scales a channel distance `x` by a milli-unit factor `f`, exactly.
fn scaled_milli(x: u32, f: u32) -> (r: u32)
    requires
        x <= 255,
        f <= 2000,
    ensures
        r == x * f / 1000,
        r <= 510,
{
    proof {
        lemma_mul_upper_bound(x as int, 255, f as int, 2000);
        lemma_div_is_ordered((x * f) as int, 510000, 1000);
    }
    x * f / 1000
}

/// The contrast step on one channel.
pub fn contrast_channel(c: u8, k: u32) -> (o: u8)
    requires
        k <= crate::settings::CONTRAST_MAX,
    ensures
        o == contrast_step(c, k),
{
    if c >= 128 {
        let d: u32 = scaled_milli((c - 128) as u32, k);
        clamp_channel(128 + d as i32)
    } else {
        let d: u32 = scaled_milli((128 - c) as u32, k);
        clamp_channel(128 - d as i32)
    }
}

/// The brightness step on one channel.
pub fn brightness_channel(c: u8, b: i32) -> (o: u8)
    requires
        -crate::settings::BRIGHTNESS_MAX <= b <= crate::settings::BRIGHTNESS_MAX,
    ensures
        o == brightness_step(c, b),
{
    if b >= 0 {
        let d: u32 = b as u32 * 255 / 1000;
        clamp_channel(c as i32 + d as i32)
    } else {
        let d: u32 = (-b) as u32 * 255 / 1000;
        clamp_channel(c as i32 - d as i32)
    }
}

/// Integer luminance of a color.
pub fn luma_channel(r: u8, g: u8, b: u8) -> (l: u8)
    ensures
        l == luma(r, g, b),
{
    let w: u32 = 54 * r as u32 + 183 * g as u32 + 19 * b as u32;
    proof {
        assert(54 * r + 183 * g + 19 * b <= 256 * 255);
    }
    (w / 256) as u8
}

/// The saturation step on one channel.
pub fn saturate_channel(c: u8, l: u8, s: u32) -> (o: u8)
    requires
        s <= crate::settings::SATURATION_MAX,
    ensures
        o == saturate_step(c, l, s),
{
    if c >= l {
        let d: u32 = scaled_milli((c - l) as u32, s);
        clamp_channel(l as i32 + d as i32)
    } else {
        let d: u32 = scaled_milli((l - c) as u32, s);
        clamp_channel(l as i32 - d as i32)
    }
}

/// The whole color grade on one pixel.
pub fn shade_pixel(s: &Settings, p: Rgba) -> (q: Rgba)
    requires
        s.valid(),
    ensures
        q == shaded(*s, p),
{
    let r1 = brightness_channel(contrast_channel(invert_channel(p.r, s.invert), s.contrast), s.brightness);
    let g1 = brightness_channel(contrast_channel(invert_channel(p.g, s.invert), s.contrast), s.brightness);
    let b1 = brightness_channel(contrast_channel(invert_channel(p.b, s.invert), s.contrast), s.brightness);
    let l = luma_channel(r1, g1, b1);
    Rgba {
        r: saturate_channel(r1, l, s.saturation),
        g: saturate_channel(g1, l, s.saturation),
        b: saturate_channel(b1, l, s.saturation),
        a: p.a,
    }
}

/// With the neutral multiplier, the contrast step changes nothing.
pub proof fn lemma_contrast_neutral(c: u8)
    ensures
        contrast_step(c, crate::settings::CONTRAST_NEUTRAL) == c,
{
    if c >= 128 {
        lemma_div_multiples_vanish((c - 128) as int, 1000);
        assert((c - 128) * 1000 == 1000 * ((c - 128) as int));
    } else {
        lemma_div_multiples_vanish((128 - c) as int, 1000);
        assert((128 - c) * 1000 == 1000 * ((128 - c) as int));
    }
}

/// With a zero offset, the brightness step changes nothing.
pub proof fn lemma_brightness_neutral(c: u8)
    ensures
        brightness_step(c, 0) == c,
{
}

/// With the neutral factor, the saturation step changes nothing.
pub proof fn lemma_saturate_neutral(c: u8, l: u8)
    ensures
        saturate_step(c, l, crate::settings::SATURATION_NEUTRAL) == c,
{
    if c >= l {
        lemma_div_multiples_vanish((c - l) as int, 1000);
        assert((c - l) * 1000 == 1000 * ((c - l) as int));
    } else {
        lemma_div_multiples_vanish((l - c) as int, 1000);
        assert((l - c) * 1000 == 1000 * ((l - c) as int));
    }
}

/// A gray pixel's luminance is exactly its level.
pub proof fn lemma_luma_gray(c: u8)
    ensures
        luma(c, c, c) == c,
{
    assert(54 * c + 183 * c + 19 * c == 256 * (c as int));
    lemma_div_multiples_vanish(c as int, 256);
}

/// Neutral settings grade every pixel to itself: the identity property of
/// the render pass.
pub proof fn lemma_shaded_neutral(s: Settings, p: Rgba)
    requires
        s.valid(),
        s.is_neutral(),
    ensures
        shaded(s, p) == p,
{
    lemma_contrast_neutral(p.r);
    lemma_contrast_neutral(p.g);
    lemma_contrast_neutral(p.b);
    lemma_brightness_neutral(p.r);
    lemma_brightness_neutral(p.g);
    lemma_brightness_neutral(p.b);
    let l = luma(p.r, p.g, p.b);
    lemma_saturate_neutral(p.r, l);
    lemma_saturate_neutral(p.g, l);
    lemma_saturate_neutral(p.b, l);
}

/// With everything else neutral, the grade with the invert flag set maps a
/// pixel to its channel-wise complement.
pub proof fn lemma_shaded_invert_only(s: Settings, p: Rgba)
    requires
        s.valid(),
        s.is_invert_only(),
    ensures
        shaded(s, p) == (Rgba {
            r: (255 - p.r) as u8,
            g: (255 - p.g) as u8,
            b: (255 - p.b) as u8,
            a: p.a,
        }),
{
    lemma_contrast_neutral((255 - p.r) as u8);
    lemma_contrast_neutral((255 - p.g) as u8);
    lemma_contrast_neutral((255 - p.b) as u8);
    lemma_brightness_neutral((255 - p.r) as u8);
    lemma_brightness_neutral((255 - p.g) as u8);
    lemma_brightness_neutral((255 - p.b) as u8);
    let l = luma((255 - p.r) as u8, (255 - p.g) as u8, (255 - p.b) as u8);
    lemma_saturate_neutral((255 - p.r) as u8, l);
    lemma_saturate_neutral((255 - p.g) as u8, l);
    lemma_saturate_neutral((255 - p.b) as u8, l);
}

/// Inverting twice restores the pixel: the involution property of the
/// invert flag, stated for one pixel.
pub proof fn lemma_shaded_invert_involutive(s: Settings, p: Rgba)
    requires
        s.valid(),
        s.is_invert_only(),
    ensures
        shaded(s, shaded(s, p)) == p,
{
    lemma_shaded_invert_only(s, p);
    lemma_shaded_invert_only(s, shaded(s, p));
}

} // verus!
