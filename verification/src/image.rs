//! Host-side decoded bitmaps.
//!
//! An [`Image`] is the immutable product of an external decode step: a
//! width, a height, and a byte buffer of 8-bit RGBA texels, four bytes per
//! pixel in row-major order. The pipeline reads such buffers when it
//! uploads an input texture and writes one when it renders; this module
//! also fixes how a flat byte buffer is read as a sequence of pixels.

use vstd::arithmetic::div_mod::lemma_fundamental_div_mod;
use vstd::arithmetic::div_mod::lemma_fundamental_div_mod_converse;
use vstd::arithmetic::mul::lemma_mul_is_associative;
use vstd::arithmetic::mul::lemma_mul_upper_bound;
use vstd::prelude::*;

use crate::color::Rgba;

verus! {

/// Reads pixel `i` out of a flat RGBA byte buffer.
pub open spec fn pixel_at(pix: Seq<u8>, i: int) -> Rgba {
    Rgba {
        r: pix[4 * i],
        g: pix[4 * i + 1],
        b: pix[4 * i + 2],
        a: pix[4 * i + 3],
    }
}

/// A byte buffer that holds whole RGBA pixels.
pub open spec fn pixel_buffer(pix: Seq<u8>) -> bool {
    pix.len() % 4 == 0
}

/// An immutable decoded bitmap: `width * height` RGBA texels.
#[derive(Clone, Debug)]
pub struct Image {
    /// Width in pixels.
    pub width: u32,
    /// Height in pixels.
    pub height: u32,
    /// Flat texel buffer, four bytes per pixel, row-major.
    pub pixels: Vec<u8>,
}

impl Image {
    /// The buffer holds exactly the declared number of texels.
    pub open spec fn wf(self) -> bool {
        self.pixels@.len() == 4 * self.width * self.height
    }

    /// Number of pixels.
    pub open spec fn pixel_count(self) -> int {
        self.width * self.height
    }

    /// Wraps a decoded buffer as an image, checking that it holds exactly
    /// `width * height` RGBA texels; returns nothing otherwise.
    pub fn new(width: u32, height: u32, pixels: Vec<u8>) -> (r: Option<Image>)
        ensures
            match r {
                Some(img) => {
                    &&& img.wf()
                    &&& img.width == width
                    &&& img.height == height
                    &&& img.pixels@ == pixels@
                },
                None => pixels@.len() != 4 * width * height,
            },
    {
        proof {
            lemma_mul_upper_bound(width as int, u32::MAX as int, height as int, u32::MAX as int);
            lemma_mul_is_associative(4, width as int, height as int);
        }
        let count: u64 = width as u64 * height as u64;
        let len: u64 = pixels.len() as u64;
        if len % 4 == 0 && len / 4 == count {
            proof {
                lemma_fundamental_div_mod(len as int, 4);
            }
            Some(Image { width, height, pixels })
        } else {
            proof {
                if pixels@.len() == 4 * width * height {
                    lemma_fundamental_div_mod_converse(len as int, 4, count as int, 0);
                }
            }
            None
        }
    }

    /// Reads one pixel.
    pub fn pixel(&self, i: usize) -> (p: Rgba)
        requires
            self.wf(),
            i < self.pixel_count(),
        ensures
            p == pixel_at(self.pixels@, i as int),
    {
        let n: usize = self.pixels.len();
        proof {
            lemma_mul_is_associative(4, self.width as int, self.height as int);
            assert(4 * (i as int) + 3 < n);
        }
        Rgba {
            r: self.pixels[4 * i],
            g: self.pixels[4 * i + 1],
            b: self.pixels[4 * i + 2],
            a: self.pixels[4 * i + 3],
        }
    }
}

/// Two pixel buffers whose pixels all agree are equal byte for byte.
pub proof fn lemma_pixelwise_equal_buffers(a: Seq<u8>, b: Seq<u8>)
    requires
        a.len() == b.len(),
        pixel_buffer(a),
        forall|i: int|
            0 <= i < a.len() / 4 ==> #[trigger] pixel_at(a, i) == pixel_at(b, i),
    ensures
        a == b,
{
    assert forall|k: int| 0 <= k < a.len() implies a[k] == b[k] by {
        lemma_fundamental_div_mod(k, 4);
        lemma_fundamental_div_mod(a.len() as int, 4);
        let i = k / 4;
        assert(pixel_at(a, i) == pixel_at(b, i));
    }
    assert(a =~= b);
}

} // verus!
