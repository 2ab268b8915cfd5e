use emulse::texture::DeviceError;
use emulse::texture::FilterMode;
use emulse::texture::SamplerDesc;
use emulse::texture::TextureManager;
use emulse::texture::TextureType;
use emulse::texture::DISPLAY_ID_BASE;
use emulse::texture::MAX_TEXTURE_DIM;

#[test]
fn create_input_uploads_pixels() {
    let mut m = TextureManager::new();
    let pixels = vec![1u8, 2, 3, 4, 5, 6, 7, 8];
    let h = m.create_input(&pixels, 2, 1).unwrap();
    assert_eq!(m.texture_count(), 1);
    assert_eq!(m.textures[h.id].texels, pixels);
    assert_eq!(m.textures[h.id].ty, TextureType::Input);
    assert!(m.textures[h.id].has_view);
    assert_eq!(
        m.textures[h.id].sampler,
        Some(SamplerDesc { mag_filter: FilterMode::Nearest, min_filter: FilterMode::Linear })
    );
    assert_eq!(m.view_of(h).id, h.id);
    assert_eq!(m.sampler_for(h).id, h.id);
}

#[test]
fn create_output_is_cleared() {
    let mut m = TextureManager::new();
    let h = m.create_output(3, 2).unwrap();
    assert_eq!(m.textures[h.id].ty, TextureType::Output);
    assert_eq!(m.textures[h.id].texels, vec![0u8; 24]);
    assert!(m.textures[h.id].has_view);
    assert_eq!(m.textures[h.id].sampler, None);
}

#[test]
fn create_rejects_bad_dimensions() {
    let mut m = TextureManager::new();
    assert_eq!(m.create_output(0, 5), Err(DeviceError::ZeroDimension));
    assert_eq!(m.create_output(5, 0), Err(DeviceError::ZeroDimension));
    assert_eq!(
        m.create_output(MAX_TEXTURE_DIM + 1, 5),
        Err(DeviceError::DimensionTooLarge)
    );
    assert_eq!(m.texture_count(), 0);
    let empty: Vec<u8> = Vec::new();
    assert_eq!(m.create_input(&empty, 0, 0), Err(DeviceError::ZeroDimension));
}

#[test]
fn display_ids_are_offset_texture_ids() {
    let mut m = TextureManager::new();
    let a = m.create_output(1, 1).unwrap();
    let b = m.create_output(1, 1).unwrap();
    assert_eq!(m.display_handle_of(a).id, DISPLAY_ID_BASE);
    assert_eq!(m.display_handle_of(b).id, 1 + DISPLAY_ID_BASE);
}

#[test]
fn write_texels_replaces_only_the_target() {
    let mut m = TextureManager::new();
    let pixels = vec![9u8; 4];
    let input = m.create_input(&pixels, 1, 1).unwrap();
    let output = m.create_output(1, 1).unwrap();
    m.write_texels(output, vec![1, 2, 3, 4]);
    assert_eq!(m.textures[output.id].texels, vec![1, 2, 3, 4]);
    assert_eq!(m.textures[input.id].texels, pixels);
}
