//! Shader parameter blocks and their byte layout.
//!
//! A uniform block is copied to the device verbatim, and the shader reads
//! it by offset: any disagreement between the host layout and the shader's
//! expectation corrupts every parameter silently. These types therefore fix
//! the layout down to the byte. Scalar parameters travel as the raw bit
//! patterns of the shader's 32-bit scalars; the unverified device shell
//! produces those bit patterns from its native floating-point values, while
//! the layout itself — field order, field width, endianness, total size —
//! is pinned here by proof.

use vstd::prelude::*;

use crate::bytes::words_bytes;
use crate::bytes::words_to_bytes;

verus! {

/// Size in bytes of the fragment-stage parameter block.
pub const FRAGMENT_UNIFORM_SIZE: usize = 20;

/// Size in bytes of the vertex-stage parameter block.
pub const VERTEX_UNIFORM_SIZE: usize = 64;

/// Number of 32-bit words in a four-by-four matrix.
pub const MATRIX_WORDS: usize = 16;

/// Raw bit pattern of the 32-bit floating-point value one.
pub const ONE_BITS: u32 = 0x3F800000;

/// The fragment-stage parameter block: one 32-bit slot per setting, in the
/// exact order the shader declares them.
#[derive(Clone, Copy, Debug, PartialEq, Eq, Structural)]
pub struct FragmentUniform {
    /// Bit pattern of the contrast scalar.
    pub contrast_bits: u32,
    /// Bit pattern of the saturation scalar.
    pub saturation_bits: u32,
    /// Bit pattern of the brightness scalar.
    pub brightness_bits: u32,
    /// The invert flag as an integer: the shader language has no boolean
    /// uniform, so 0 is off and 1 is on.
    pub invert: u32,
    /// Bit pattern of the color-temperature scalar.
    pub temperature_bits: u32,
}

impl FragmentUniform {
    /// The block's five words in declaration order.
    pub open spec fn words(self) -> Seq<u32> {
        seq![
            self.contrast_bits,
            self.saturation_bits,
            self.brightness_bits,
            self.invert,
            self.temperature_bits,
        ]
    }

    /// The exact bytes the device receives for this block.
    pub open spec fn layout_bytes(self) -> Seq<u8> {
        words_bytes(self.words())
    }

    /// Assembles the block from the scalar bit patterns the device shell
    /// produced and the invert flag, which is encoded as an integer: one
    /// when set, zero when clear.
    pub fn from_parts(
        contrast_bits: u32,
        saturation_bits: u32,
        brightness_bits: u32,
        invert: bool,
        temperature_bits: u32,
    ) -> (u: FragmentUniform)
        ensures
            u.contrast_bits == contrast_bits,
            u.saturation_bits == saturation_bits,
            u.brightness_bits == brightness_bits,
            u.invert == (if invert {
                1u32
            } else {
                0u32
            }),
            u.temperature_bits == temperature_bits,
    {
        FragmentUniform {
            contrast_bits,
            saturation_bits,
            brightness_bits,
            invert: if invert {
                1
            } else {
                0
            },
            temperature_bits,
        }
    }

    /// Serializes the block for the host-to-device copy: five words,
    /// little-endian, twenty bytes, in declaration order.
    pub fn to_bytes(&self) -> (out: Vec<u8>)
        ensures
            out@ == self.layout_bytes(),
            out@.len() == FRAGMENT_UNIFORM_SIZE,
    {
        let mut ws: Vec<u32> = Vec::new();
        ws.push(self.contrast_bits);
        ws.push(self.saturation_bits);
        ws.push(self.brightness_bits);
        ws.push(self.invert);
        ws.push(self.temperature_bits);
        proof {
            assert(ws@ =~= self.words());
        }
        words_to_bytes(&ws)
    }
}

/// The vertex-stage parameter block: a four-by-four matrix of 32-bit
/// scalars, sixteen raw bit-pattern words in column order.
#[derive(Clone, Debug)]
pub struct VertexUniform {
    /// Bit patterns of the matrix entries.
    pub matrix_bits: Vec<u32>,
}

impl VertexUniform {
    /// The block holds exactly one four-by-four matrix.
    pub open spec fn wf(self) -> bool {
        self.matrix_bits@.len() == MATRIX_WORDS
    }

    /// The bit pattern of the identity matrix.
    pub open spec fn identity_words() -> Seq<u32> {
        seq![
            ONE_BITS, 0u32, 0u32, 0u32,
            0u32, ONE_BITS, 0u32, 0u32,
            0u32, 0u32, ONE_BITS, 0u32,
            0u32, 0u32, 0u32, ONE_BITS,
        ]
    }

    /// The identity transform: ones down the diagonal.
    pub fn identity() -> (u: VertexUniform)
        ensures
            u.wf(),
            u.matrix_bits@ == VertexUniform::identity_words(),
    {
        let mut ws: Vec<u32> = Vec::new();
        let mut i: usize = 0;
        while i < 16
            invariant
                i <= 16,
                ws@.len() == i,
                forall|j: int|
                    0 <= j < i ==> ws@[j] == (if j % 5 == 0 {
                        ONE_BITS
                    } else {
                        0u32
                    }),
            decreases 16 - i,
        {
            if i % 5 == 0 {
                ws.push(ONE_BITS);
            } else {
                ws.push(0u32);
            }
            i += 1;
        }
        proof {
            assert(ws@ =~= VertexUniform::identity_words());
        }
        VertexUniform { matrix_bits: ws }
    }

    /// Serializes the matrix for the host-to-device copy: sixteen words,
    /// little-endian, sixty-four bytes, in column order.
    pub fn to_bytes(&self) -> (out: Vec<u8>)
        requires
            self.wf(),
        ensures
            out@ == words_bytes(self.matrix_bits@),
            out@.len() == VERTEX_UNIFORM_SIZE,
    {
        words_to_bytes(&self.matrix_bits)
    }
}

} // verus!
