use emulse::bytes::push_le_word;
use emulse::bytes::word_from_le;
use emulse::bytes::words_from_bytes;
use emulse::bytes::words_to_bytes;
use emulse::uniform::FragmentUniform;
use emulse::uniform::VertexUniform;
use emulse::uniform::FRAGMENT_UNIFORM_SIZE;
use emulse::uniform::MATRIX_WORDS;
use emulse::uniform::ONE_BITS;
use emulse::uniform::VERTEX_UNIFORM_SIZE;

#[test]
fn le_word_byte_order() {
    let mut out: Vec<u8> = Vec::new();
    push_le_word(&mut out, 0x01020304);
    assert_eq!(out, vec![0x04, 0x03, 0x02, 0x01]);
    assert_eq!(word_from_le(0x04, 0x03, 0x02, 0x01), 0x01020304);
}

#[test]
fn words_roundtrip_through_bytes() {
    let ws: Vec<u32> = vec![0, 1, 0xdeadbeef, u32::MAX, 12345678];
    let bytes = words_to_bytes(&ws);
    assert_eq!(bytes.len(), 20);
    assert_eq!(words_from_bytes(&bytes), ws);
}

#[test]
fn fragment_uniform_layout() {
    // One 32-bit slot per setting, in declaration order, little-endian:
    // exactly what the fragment shader's uniform block expects.
    let u = FragmentUniform {
        contrast_bits: 0x01020304,
        saturation_bits: 0x05060708,
        brightness_bits: 0x090a0b0c,
        invert: 1,
        temperature_bits: 0x0d0e0f10,
    };
    let bytes = u.to_bytes();
    assert_eq!(bytes.len(), FRAGMENT_UNIFORM_SIZE);
    assert_eq!(
        bytes,
        vec![
            0x04, 0x03, 0x02, 0x01, // contrast
            0x08, 0x07, 0x06, 0x05, // saturation
            0x0c, 0x0b, 0x0a, 0x09, // brightness
            0x01, 0x00, 0x00, 0x00, // invert
            0x10, 0x0f, 0x0e, 0x0d, // temperature
        ]
    );
}

#[test]
fn fragment_uniform_carries_float_bits() {
    // The shell hands over native float bit patterns; the layout must
    // deliver them verbatim.
    let u = FragmentUniform {
        contrast_bits: 1.0f32.to_bits(),
        saturation_bits: 1.0f32.to_bits(),
        brightness_bits: 0.0f32.to_bits(),
        invert: 0,
        temperature_bits: 5500.0f32.to_bits(),
    };
    assert_eq!(u.contrast_bits, ONE_BITS);
    let bytes = u.to_bytes();
    assert_eq!(&bytes[0..4], &[0x00, 0x00, 0x80, 0x3f]);
    assert_eq!(f32::from_bits(word_from_le(bytes[16], bytes[17], bytes[18], bytes[19])), 5500.0);
}

#[test]
fn fragment_uniform_encodes_invert_flag() {
    let on = FragmentUniform::from_parts(0, 0, 0, true, 0);
    assert_eq!(on.invert, 1);
    let off = FragmentUniform::from_parts(0, 0, 0, false, 0);
    assert_eq!(off.invert, 0);
}

#[test]
fn vertex_uniform_identity_layout() {
    let u = VertexUniform::identity();
    assert_eq!(u.matrix_bits.len(), MATRIX_WORDS);
    let bytes = u.to_bytes();
    assert_eq!(bytes.len(), VERTEX_UNIFORM_SIZE);
    // Ones down the diagonal, zero everywhere else.
    for i in 0..16 {
        let w = word_from_le(bytes[4 * i], bytes[4 * i + 1], bytes[4 * i + 2], bytes[4 * i + 3]);
        if i % 5 == 0 {
            assert_eq!(f32::from_bits(w), 1.0);
        } else {
            assert_eq!(f32::from_bits(w), 0.0);
        }
    }
}
