use emulse::darkroom::Darkroom;
use emulse::image::Image;
use emulse::renderer::render_pixels;
use emulse::renderer::ContractViolation;
use emulse::renderer::Renderer;
use emulse::settings::Settings;
use emulse::texture::DeviceError;
use emulse::texture::TextureManager;
use emulse::texture::TextureType;
use emulse::texture::DISPLAY_ID_BASE;

fn two_by_two() -> Image {
    // White, black, red, blue.
    let pixels: Vec<u8> = vec![
        255, 255, 255, 255, //
        0, 0, 0, 255, //
        255, 0, 0, 255, //
        0, 0, 255, 255,
    ];
    Image::new(2, 2, pixels).unwrap()
}

#[test]
fn image_new_checks_buffer_size() {
    assert!(Image::new(2, 2, vec![0u8; 16]).is_some());
    assert!(Image::new(2, 2, vec![0u8; 15]).is_none());
    assert!(Image::new(2, 2, vec![0u8; 17]).is_none());
    assert!(Image::new(0, 0, vec![]).is_some());
}

#[test]
fn render_neutral_is_identity() {
    // A neutral grade returns the input bytes unchanged.
    let img = two_by_two();
    let s = Settings::new();
    let out = render_pixels(&s, &img.pixels);
    assert_eq!(out, img.pixels);
}

#[test]
fn render_saturation_zero_lands_on_luminance() {
    // Fully desaturated, every channel of a pixel converges to its
    // luminance; alpha is untouched.
    let img = two_by_two();
    let mut s = Settings::new();
    s.set_saturation(0);
    let out = render_pixels(&s, &img.pixels);
    let expected: Vec<u8> = vec![
        255, 255, 255, 255, // white stays white
        0, 0, 0, 255, // black stays black
        53, 53, 53, 255, // red's luminance is 53
        18, 18, 18, 255, // blue's luminance is 18
    ];
    assert_eq!(out, expected);
}

#[test]
fn render_invert_twice_restores_image() {
    let img = two_by_two();
    let mut s = Settings::new();
    s.set_invert(true);
    let once = render_pixels(&s, &img.pixels);
    assert_ne!(once, img.pixels);
    let twice = render_pixels(&s, &once);
    assert_eq!(twice, img.pixels);
}

#[test]
fn render_invert_complements_channels() {
    let img = two_by_two();
    let mut s = Settings::new();
    s.set_invert(true);
    let out = render_pixels(&s, &img.pixels);
    let expected: Vec<u8> = vec![
        0, 0, 0, 255, //
        255, 255, 255, 255, //
        0, 255, 255, 255, //
        255, 255, 0, 255,
    ];
    assert_eq!(out, expected);
}

#[test]
fn render_preserves_alpha() {
    // Grading touches only the color channels, never alpha.
    let img = Image::new(2, 1, vec![200, 50, 100, 7, 10, 20, 30, 0]).unwrap();
    let mut s = Settings::new();
    s.set_saturation(0);
    s.set_invert(true);
    s.set_brightness(-100);
    let out = render_pixels(&s, &img.pixels);
    assert_eq!(out[3], 7);
    assert_eq!(out[7], 0);
}

#[test]
fn settings_default_is_neutral() {
    let s = Settings::default();
    assert_eq!(s, Settings::new());
    assert_eq!(s.contrast, 1000);
    assert_eq!(s.brightness, 0);
    assert_eq!(s.saturation, 1000);
    assert!(!s.invert);
    assert_eq!(s.temperature, 5500);
}

#[test]
fn bind_allocates_input_and_output() {
    let mut m = TextureManager::new();
    let mut r = Renderer::new();
    let img = two_by_two();
    let handle = r.bind(&mut m, &img).unwrap();
    assert_eq!(m.texture_count(), 2);
    assert_eq!(r.input_index(), 0);
    assert_eq!(r.output_index(), 1);
    assert_eq!(img.pixel(2).r, 255);
    assert_eq!(img.pixel(3).b, 255);
    // The display token is derived from the render target's id by the
    // fixed registration offset.
    assert_eq!(handle.id, 1 + DISPLAY_ID_BASE);
    assert_eq!(m.textures[0].ty, TextureType::Input);
    assert_eq!(m.textures[0].texels, img.pixels);
    assert_eq!(m.textures[1].ty, TextureType::Output);
    assert!(m.textures[1].texels.iter().all(|b| *b == 0));
}

#[test]
fn bind_rejects_zero_dimension() {
    let mut m = TextureManager::new();
    let mut r = Renderer::new();
    let img = Image::new(0, 4, vec![]).unwrap();
    assert_eq!(r.bind(&mut m, &img), Err(DeviceError::ZeroDimension));
    assert_eq!(m.texture_count(), 0);
}

#[test]
fn bind_rejects_oversized_dimension() {
    let mut m = TextureManager::new();
    let mut r = Renderer::new();
    let img = Image::new(8193, 1, vec![0u8; 4 * 8193]).unwrap();
    assert_eq!(r.bind(&mut m, &img), Err(DeviceError::DimensionTooLarge));
    assert_eq!(m.texture_count(), 0);
}

#[test]
fn try_render_reports_unbound() {
    let mut m = TextureManager::new();
    let r = Renderer::new();
    let s = Settings::new();
    assert_eq!(
        r.try_render(&mut m, &s),
        Err(ContractViolation::RendererUnbound)
    );
}

#[test]
fn render_writes_output_texture() {
    let mut m = TextureManager::new();
    let mut r = Renderer::new();
    let img = two_by_two();
    r.bind(&mut m, &img).unwrap();
    let mut s = Settings::new();
    s.set_invert(true);
    let d = r.try_render(&mut m, &s).unwrap();
    assert_eq!(d.id, 1 + DISPLAY_ID_BASE);
    // The input texture is untouched; the render target holds the graded
    // pixels.
    assert_eq!(m.textures[0].texels, img.pixels);
    assert_eq!(m.textures[1].texels, render_pixels(&s, &img.pixels));
}

#[test]
fn darkroom_session_renders_and_sizes() {
    let mut m = TextureManager::new();
    let img = two_by_two();
    let mut d = Darkroom::new(&mut m, &img).unwrap();
    assert!(d.is_bound());
    assert_eq!(d.display_size(), (2, 2));
    let token = d.update(&mut m);
    assert_eq!(token.id, 1 + DISPLAY_ID_BASE);
    // Fresh sessions grade neutrally: the render target equals the input.
    assert_eq!(m.textures[1].texels, img.pixels);
    d.transform.rotate_cw();
    assert_eq!(d.display_size(), (2, 2));
    let tall = Image::new(1, 4, vec![9u8; 16]).unwrap();
    let mut m2 = TextureManager::new();
    let mut d2 = Darkroom::new(&mut m2, &tall).unwrap();
    assert_eq!(d2.display_size(), (1, 4));
    d2.transform.rotate_cw();
    assert_eq!(d2.display_size(), (4, 1));
}

#[test]
fn unbind_forbids_draws() {
    let mut m = TextureManager::new();
    let mut r = Renderer::new();
    let img = two_by_two();
    r.bind(&mut m, &img).unwrap();
    r.unbind();
    let s = Settings::new();
    assert_eq!(
        r.try_render(&mut m, &s),
        Err(ContractViolation::RendererUnbound)
    );
}
