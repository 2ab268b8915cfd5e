//! The color-grade render pipeline.
//!
//! A renderer is a two-state machine. It starts **unbound**: no image is
//! loaded and no draw may be issued. Binding an image allocates its input
//! texture and a matching render target and moves the renderer to
//! **bound**; unbinding drops back, after which the old handles must not be
//! used. The render operation re-executes the grading pass: it reads the
//! bound input texture, applies the color transform pixel by pixel under
//! the current settings, writes the render target, and returns the display
//! token of the result. Rendering while unbound is a contract violation:
//! the verified entry point excludes it, and the checked entry point
//! reports it instead of silently skipping the draw.

use vstd::arithmetic::div_mod::lemma_fundamental_div_mod;
use vstd::arithmetic::div_mod::lemma_fundamental_div_mod_converse;
use vstd::arithmetic::div_mod::lemma_mod_multiples_basic;
use vstd::arithmetic::mul::lemma_mul_is_associative;
use vstd::prelude::*;

use crate::color::Rgba;
use crate::color::shade_pixel;
use crate::color::shaded;
use crate::image::Image;
use crate::image::lemma_pixelwise_equal_buffers;
use crate::image::pixel_at;
use crate::image::pixel_buffer;
use crate::settings::Settings;
use crate::texture::DeviceError;
use crate::texture::DisplayHandle;
use crate::texture::TextureHandle;
use crate::texture::TextureManager;
use crate::texture::TextureType;
use crate::texture::dims_error;
use crate::texture::dims_ok;
use crate::texture::is_input_texture;
use crate::texture::is_output_texture;

verus! {

/// One channel of a pixel, selected by position.
pub open spec fn channel_of(p: Rgba, c: int) -> u8 {
    if c == 0 {
        p.r
    } else if c == 1 {
        p.g
    } else if c == 2 {
        p.b
    } else {
        p.a
    }
}

/// Byte `k` of the graded image: the channel `k % 4` of the graded pixel
/// `k / 4`.
pub open spec fn shaded_byte(s: Settings, pix: Seq<u8>, k: int) -> u8 {
    channel_of(shaded(s, pixel_at(pix, k / 4)), k % 4)
}

/// The full output of the grading pass on a flat RGBA buffer.
pub open spec fn rendered(s: Settings, pix: Seq<u8>) -> Seq<u8> {
    Seq::new(pix.len(), |k: int| shaded_byte(s, pix, k))
}

/// Pixel `i` of the graded buffer is the graded pixel `i` of the source.
pub proof fn lemma_rendered_pixel(s: Settings, pix: Seq<u8>, i: int)
    requires
        pixel_buffer(pix),
        0 <= i < pix.len() / 4,
    ensures
        pixel_at(rendered(s, pix), i) == shaded(s, pixel_at(pix, i)),
{
    lemma_fundamental_div_mod(pix.len() as int, 4);
    lemma_fundamental_div_mod_converse(4 * i, 4, i, 0);
    lemma_fundamental_div_mod_converse(4 * i + 1, 4, i, 1);
    lemma_fundamental_div_mod_converse(4 * i + 2, 4, i, 2);
    lemma_fundamental_div_mod_converse(4 * i + 3, 4, i, 3);
}

/// A buffer whose pixels are all the graded source pixels is the graded
/// buffer.
pub proof fn lemma_pixelwise_rendered(s: Settings, pix: Seq<u8>, out: Seq<u8>)
    requires
        pixel_buffer(pix),
        out.len() == pix.len(),
        forall|i: int|
            0 <= i < pix.len() / 4 ==> #[trigger] pixel_at(out, i) == shaded(s, pixel_at(pix, i)),
    ensures
        out == rendered(s, pix),
{
    assert forall|i: int| 0 <= i < rendered(s, pix).len() / 4 implies #[trigger] pixel_at(
        rendered(s, pix),
        i,
    ) == pixel_at(out, i) by {
        lemma_rendered_pixel(s, pix, i);
    }
    lemma_pixelwise_equal_buffers(rendered(s, pix), out);
}

/// Executes the grading pass on a flat RGBA buffer.
pub fn render_pixels(s: &Settings, pix: &Vec<u8>) -> (out: Vec<u8>)
    requires
        s.valid(),
        pixel_buffer(pix@),
    ensures
        out@ == rendered(*s, pix@),
{
    let len: usize = pix.len();
    let n: usize = len / 4;
    proof {
        lemma_fundamental_div_mod(len as int, 4);
    }
    let mut out: Vec<u8> = Vec::new();
    let mut i: usize = 0;
    while i < n
        invariant
            s.valid(),
            pixel_buffer(pix@),
            len == pix@.len(),
            len == 4 * n,
            i <= n,
            out@.len() == 4 * i,
            forall|j: int|
                0 <= j < i ==> #[trigger] pixel_at(out@, j) == shaded(*s, pixel_at(pix@, j)),
        decreases n - i,
    {
        let p = Rgba {
            r: pix[4 * i],
            g: pix[4 * i + 1],
            b: pix[4 * i + 2],
            a: pix[4 * i + 3],
        };
        let q = shade_pixel(s, p);
        let ghost before = out@;
        out.push(q.r);
        out.push(q.g);
        out.push(q.b);
        out.push(q.a);
        proof {
            assert(p == pixel_at(pix@, i as int));
            assert forall|j: int| 0 <= j < i + 1 implies #[trigger] pixel_at(out@, j) == shaded(
                *s,
                pixel_at(pix@, j),
            ) by {
                if j < i {
                    assert(pixel_at(out@, j) == pixel_at(before, j));
                } else {
                    assert(pixel_at(out@, j) == q);
                }
            }
        }
        i += 1;
    }
    proof {
        lemma_pixelwise_rendered(*s, pix@, out@);
    }
    out
}

/// Violation of a programming contract of the pipeline, reported by the
/// checked entry points; the verified entry points exclude these callers
/// outright.
#[derive(Clone, Copy, Debug, PartialEq, Eq, Structural)]
pub enum ContractViolation {
    /// A draw was requested while no image is bound.
    RendererUnbound,
}

/// The binding state of the renderer.
#[derive(Clone, Copy, Debug)]
pub enum RenderState {
    /// No image loaded; no resources bound; drawing is forbidden.
    Unbound,
    /// An image is loaded: its input texture and the render target are
    /// allocated, and the pipeline's bindings are keyed by the input
    /// texture.
    Bound {
        /// The uploaded image.
        input: TextureHandle,
        /// The render target the pass writes.
        output: TextureHandle,
    },
}

/// The color-grade render pipeline: the state machine plus the draw
/// operation.
pub struct Renderer {
    /// Current binding state.
    pub state: RenderState,
}

impl Renderer {
    /// Whether an image is bound.
    pub open spec fn is_bound(self) -> bool {
        self.state is Bound
    }

    /// The handle of the bound input texture.
    pub open spec fn input_handle(self) -> TextureHandle {
        self.state->Bound_input
    }

    /// The handle of the bound render target.
    pub open spec fn output_handle(self) -> TextureHandle {
        self.state->Bound_output
    }

    /// The renderer's handles name textures of the manager in the shape the
    /// pass needs: a sampled input and a render target of equal dimensions.
    pub open spec fn binds(self, m: TextureManager) -> bool {
        self.is_bound() ==> {
            &&& m.has(self.input_handle())
            &&& m.has(self.output_handle())
            &&& self.input_handle() != self.output_handle()
            &&& m.texture_at(self.input_handle()).ty == TextureType::Input
            &&& m.texture_at(self.input_handle()).has_view
            &&& m.texture_at(self.input_handle()).sampler is Some
            &&& m.texture_at(self.output_handle()).ty == TextureType::Output
            &&& m.texture_at(self.output_handle()).has_view
            &&& m.texture_at(self.output_handle()).width == m.texture_at(
                self.input_handle(),
            ).width
            &&& m.texture_at(self.output_handle()).height == m.texture_at(
                self.input_handle(),
            ).height
        }
    }

    /// A fresh, unbound renderer.
    pub fn new() -> (r: Renderer)
        ensures
            !r.is_bound(),
            forall|m: TextureManager| r.binds(m),
    {
        Renderer { state: RenderState::Unbound }
    }

    /// Uploads an image and allocates its render target, moving the
    /// renderer from unbound to bound; returns the display token of the
    /// render target. Rejects an image the device cannot hold and in that
    /// case changes nothing: the renderer stays unbound and the manager
    /// keeps exactly its previous textures.
    pub fn bind(&mut self, m: &mut TextureManager, img: &Image) -> (r: Result<
        DisplayHandle,
        DeviceError,
    >)
        requires
            !old(self).is_bound(),
            old(m).wf(),
            old(m).textures@.len() + 2 <= crate::texture::MAX_TEXTURES,
            img.wf(),
        ensures
            final(m).wf(),
            final(self).binds(*final(m)),
            match r {
                Ok(d) => {
                    &&& dims_ok(img.width, img.height)
                    &&& final(self).is_bound()
                    &&& final(m).textures@.len() == old(m).textures@.len() + 2
                    &&& (forall|i: int|
                        0 <= i < old(m).textures@.len() ==> final(m).textures@[i] == old(m).textures@[i])
                    &&& is_input_texture(
                        final(m).texture_at(final(self).input_handle()),
                        img.pixels@,
                        img.width,
                        img.height,
                    )
                    &&& is_output_texture(
                        final(m).texture_at(final(self).output_handle()),
                        img.width,
                        img.height,
                    )
                    &&& d.id == final(self).output_handle().id + crate::texture::DISPLAY_ID_BASE
                },
                Err(e) => {
                    &&& !dims_ok(img.width, img.height)
                    &&& e == dims_error(img.width, img.height)
                    &&& !final(self).is_bound()
                    &&& *final(m) == *old(m)
                },
            },
    {
        let width = img.width;
        let height = img.height;
        if width == 0 || height == 0 || width > crate::texture::MAX_TEXTURE_DIM || height
            > crate::texture::MAX_TEXTURE_DIM {
            return Err(
                if width == 0 || height == 0 {
                    DeviceError::ZeroDimension
                } else {
                    DeviceError::DimensionTooLarge
                },
            );
        }
        let input = match m.create_input(&img.pixels, width, height) {
            Ok(h) => h,
            Err(e) => {
                proof {
                    assert(false);
                }
                return Err(e);
            },
        };
        let output = match m.create_output(width, height) {
            Ok(h) => h,
            Err(e) => {
                proof {
                    assert(false);
                }
                return Err(e);
            },
        };
        self.state = RenderState::Bound { input, output };
        Ok(m.display_handle_of(output))
    }

    /// The manager slot of the bound input texture.
    pub fn input_index(&self) -> (i: usize)
        requires
            self.is_bound(),
        ensures
            i == self.input_handle().id,
    {
        match self.state {
            RenderState::Bound { input, output: _ } => input.id,
            RenderState::Unbound => {
                proof {
                    assert(false);
                }
                0
            },
        }
    }

    /// The manager slot of the bound render target.
    pub fn output_index(&self) -> (i: usize)
        requires
            self.is_bound(),
        ensures
            i == self.output_handle().id,
    {
        match self.state {
            RenderState::Bound { input: _, output } => output.id,
            RenderState::Unbound => {
                proof {
                    assert(false);
                }
                0
            },
        }
    }

    /// Drops the binding: the loaded image is gone and every handle handed
    /// out for it is dead. The next image starts with a fresh `bind`.
    pub fn unbind(&mut self)
        ensures
            !final(self).is_bound(),
    {
        self.state = RenderState::Unbound;
    }

    /// Re-executes the grading pass under the given settings: reads the
    /// bound input texture, writes the graded pixels to the render target,
    /// and returns the display token of the result. The input texture, and
    /// every other texture of the manager, is untouched.
    pub fn render(&self, m: &mut TextureManager, s: &Settings) -> (d: DisplayHandle)
        requires
            self.is_bound(),
            self.binds(*old(m)),
            old(m).wf(),
            s.valid(),
        ensures
            final(m).wf(),
            self.binds(*final(m)),
            final(m).textures@.len() == old(m).textures@.len(),
            forall|i: int|
                0 <= i < old(m).textures@.len() && i != self.output_handle().id ==> final(m).textures@[i] == old(m).textures@[i],
            final(m).texture_at(self.output_handle()).texels@ == rendered(
                *s,
                old(m).texture_at(self.input_handle()).texels@,
            ),
            final(m).texture_at(self.output_handle()).width == old(m).texture_at(
                self.output_handle(),
            ).width,
            final(m).texture_at(self.output_handle()).height == old(m).texture_at(
                self.output_handle(),
            ).height,
            final(m).texture_at(self.output_handle()).ty == TextureType::Output,
            d.id == self.output_handle().id + crate::texture::DISPLAY_ID_BASE,
    {
        let input = match self.state {
            RenderState::Bound { input, output: _ } => input,
            RenderState::Unbound => {
                proof {
                    assert(false);
                }
                TextureHandle { id: 0 }
            },
        };
        let output = match self.state {
            RenderState::Bound { input: _, output } => output,
            RenderState::Unbound => {
                proof {
                    assert(false);
                }
                TextureHandle { id: 0 }
            },
        };
        proof {
            let t = old(m).texture_at(input);
            lemma_mul_is_associative(4, t.width as int, t.height as int);
            lemma_mod_multiples_basic((t.width * t.height) as int, 4);
        }
        let graded = render_pixels(s, &m.textures[input.id].texels);
        proof {
            let ti = old(m).texture_at(input);
            let to = old(m).texture_at(output);
            lemma_mul_is_associative(4, to.width as int, to.height as int);
            lemma_mul_is_associative(4, ti.width as int, ti.height as int);
        }
        m.write_texels(output, graded);
        m.display_handle_of(output)
    }

    /// The checked draw entry point for unverified callers: reports a
    /// contract violation instead of drawing when no image is bound, and
    /// otherwise behaves exactly as `render`.
    pub fn try_render(&self, m: &mut TextureManager, s: &Settings) -> (r: Result<
        DisplayHandle,
        ContractViolation,
    >)
        requires
            self.binds(*old(m)),
            old(m).wf(),
            s.valid(),
        ensures
            final(m).wf(),
            self.binds(*final(m)),
            match r {
                Ok(d) => {
                    &&& self.is_bound()
                    &&& final(m).textures@.len() == old(m).textures@.len()
                    &&& (forall|i: int|
                        0 <= i < old(m).textures@.len() && i != self.output_handle().id ==> final(m).textures@[i] == old(m).textures@[i])
                    &&& final(m).texture_at(self.output_handle()).texels@ == rendered(
                        *s,
                        old(m).texture_at(self.input_handle()).texels@,
                    )
                    &&& d.id == self.output_handle().id + crate::texture::DISPLAY_ID_BASE
                },
                Err(v) => {
                    &&& !self.is_bound()
                    &&& v == ContractViolation::RendererUnbound
                    &&& *final(m) == *old(m)
                },
            },
    {
        match self.state {
            RenderState::Unbound => Err(ContractViolation::RendererUnbound),
            RenderState::Bound { .. } => Ok(self.render(m, s)),
        }
    }
}

/// The identity law of the pass: under neutral settings the graded buffer
/// is the source buffer, byte for byte.
pub proof fn lemma_render_neutral(s: Settings, pix: Seq<u8>)
    requires
        s.valid(),
        s.is_neutral(),
        pixel_buffer(pix),
    ensures
        rendered(s, pix) == pix,
{
    assert forall|i: int| 0 <= i < pix.len() / 4 implies #[trigger] pixel_at(
        rendered(s, pix),
        i,
    ) == pixel_at(pix, i) by {
        lemma_rendered_pixel(s, pix, i);
        crate::color::lemma_shaded_neutral(s, pixel_at(pix, i));
    }
    lemma_pixelwise_equal_buffers(rendered(s, pix), pix);
}

/// The involution law of the invert flag: grading twice with invert set and
/// everything else neutral restores the source buffer exactly.
pub proof fn lemma_render_invert_involutive(s: Settings, pix: Seq<u8>)
    requires
        s.valid(),
        s.is_invert_only(),
        pixel_buffer(pix),
    ensures
        rendered(s, rendered(s, pix)) == pix,
{
    let mid = rendered(s, pix);
    assert forall|i: int| 0 <= i < mid.len() / 4 implies #[trigger] pixel_at(
        rendered(s, mid),
        i,
    ) == pixel_at(pix, i) by {
        lemma_rendered_pixel(s, mid, i);
        lemma_rendered_pixel(s, pix, i);
        crate::color::lemma_shaded_invert_involutive(s, pixel_at(pix, i));
    }
    lemma_pixelwise_equal_buffers(rendered(s, mid), pix);
}

} // verus!
