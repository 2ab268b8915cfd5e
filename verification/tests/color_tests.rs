use emulse::color::brightness_channel;
use emulse::color::clamp_channel;
use emulse::color::contrast_channel;
use emulse::color::invert_channel;
use emulse::color::luma_channel;
use emulse::color::saturate_channel;
use emulse::color::shade_pixel;
use emulse::color::Rgba;
use emulse::settings::Settings;

#[test]
fn clamp_channel_limits() {
    assert_eq!(clamp_channel(-1), 0);
    assert_eq!(clamp_channel(0), 0);
    assert_eq!(clamp_channel(128), 128);
    assert_eq!(clamp_channel(255), 255);
    assert_eq!(clamp_channel(256), 255);
    assert_eq!(clamp_channel(-1000), 0);
    assert_eq!(clamp_channel(100000), 255);
}

#[test]
fn invert_channel_flips() {
    assert_eq!(invert_channel(0, true), 255);
    assert_eq!(invert_channel(255, true), 0);
    assert_eq!(invert_channel(100, true), 155);
    assert_eq!(invert_channel(100, false), 100);
}

#[test]
fn invert_channel_involutive_samples() {
    for c in [0u8, 1, 53, 128, 200, 255] {
        assert_eq!(invert_channel(invert_channel(c, true), true), c);
    }
}

#[test]
fn contrast_channel_neutral_is_identity() {
    for c in [0u8, 1, 127, 128, 129, 254, 255] {
        assert_eq!(contrast_channel(c, 1000), c);
    }
}

#[test]
fn contrast_channel_scales_around_mid_gray() {
    // (200 - 128) * 1500 / 1000 = 108 above mid-gray.
    assert_eq!(contrast_channel(200, 1500), 236);
    // (128 - 50) * 1500 / 1000 = 117 below mid-gray.
    assert_eq!(contrast_channel(50, 1500), 11);
    // Saturates at full scale.
    assert_eq!(contrast_channel(255, 2000), 255);
    assert_eq!(contrast_channel(0, 2000), 0);
    // Contrast zero collapses everything to mid-gray.
    assert_eq!(contrast_channel(10, 0), 128);
    assert_eq!(contrast_channel(250, 0), 128);
}

#[test]
fn brightness_channel_offsets() {
    assert_eq!(brightness_channel(100, 0), 100);
    // 500 * 255 / 1000 = 127 channel units.
    assert_eq!(brightness_channel(100, 500), 227);
    assert_eq!(brightness_channel(100, -500), 0);
    assert_eq!(brightness_channel(130, -500), 3);
    // 250 * 255 / 1000 = 63 channel units, clamped at white.
    assert_eq!(brightness_channel(200, 250), 255);
}

#[test]
fn luma_channel_exact_weights() {
    assert_eq!(luma_channel(255, 255, 255), 255);
    assert_eq!(luma_channel(0, 0, 0), 0);
    // 54 * 255 / 256 = 53.
    assert_eq!(luma_channel(255, 0, 0), 53);
    // 183 * 255 / 256 = 182.
    assert_eq!(luma_channel(0, 255, 0), 182);
    // 19 * 255 / 256 = 18.
    assert_eq!(luma_channel(0, 0, 255), 18);
    // A gray pixel keeps its level exactly.
    for c in [0u8, 17, 128, 200, 255] {
        assert_eq!(luma_channel(c, c, c), c);
    }
}

#[test]
fn saturate_channel_blends_toward_luminance() {
    // Neutral saturation changes nothing.
    assert_eq!(saturate_channel(200, 100, 1000), 200);
    assert_eq!(saturate_channel(50, 100, 1000), 50);
    // Zero saturation lands on the luminance.
    assert_eq!(saturate_channel(200, 100, 0), 100);
    assert_eq!(saturate_channel(50, 100, 0), 100);
    // Half saturation halves the distance: (200 - 100) * 500 / 1000 = 50.
    assert_eq!(saturate_channel(200, 100, 500), 150);
    assert_eq!(saturate_channel(50, 100, 500), 75);
    // Oversaturation doubles it and clamps.
    assert_eq!(saturate_channel(200, 100, 2000), 255);
}

#[test]
fn shade_pixel_neutral_identity() {
    let s = Settings::new();
    for p in [
        Rgba { r: 255, g: 255, b: 255, a: 255 },
        Rgba { r: 0, g: 0, b: 0, a: 255 },
        Rgba { r: 255, g: 0, b: 0, a: 255 },
        Rgba { r: 0, g: 0, b: 255, a: 7 },
        Rgba { r: 12, g: 200, b: 99, a: 0 },
    ] {
        assert_eq!(shade_pixel(&s, p), p);
    }
}

#[test]
fn shade_pixel_contrast_example() {
    let mut s = Settings::new();
    s.set_contrast(1500);
    let p = Rgba { r: 200, g: 50, b: 100, a: 255 };
    // Per channel around mid-gray: 236, 11, 86; neutral saturation keeps
    // them; alpha passes through.
    assert_eq!(shade_pixel(&s, p), Rgba { r: 236, g: 11, b: 86, a: 255 });
}

#[test]
fn shade_pixel_invert_involutive() {
    let mut s = Settings::new();
    s.set_invert(true);
    let p = Rgba { r: 3, g: 250, b: 77, a: 9 };
    let once = shade_pixel(&s, p);
    assert_eq!(once, Rgba { r: 252, g: 5, b: 178, a: 9 });
    assert_eq!(shade_pixel(&s, once), p);
}
