//! A darkroom session: one loaded image under grading.
//!
//! The session owns what the grading view works with — the bound renderer,
//! the current settings, and the display transform — and exposes the two
//! operations the event loop drives: opening a session on a selected image
//! and re-rendering it with the current settings. Sliders and buttons of
//! the shell mutate the settings and the transform through their own
//! checked operations; the session never reaches around them.

use vstd::prelude::*;

use crate::image::Image;
use crate::renderer::RenderState;
use crate::renderer::Renderer;
use crate::renderer::rendered;
use crate::settings::Settings;
use crate::texture::DeviceError;
use crate::texture::DisplayHandle;
use crate::texture::TextureManager;
use crate::texture::dims_error;
use crate::texture::dims_ok;
use crate::transform::Transform;

verus! {

/// One image loaded for grading, with everything the view needs.
pub struct Darkroom {
    /// The bound render pipeline.
    pub renderer: Renderer,
    /// The grading parameters, written by the shell's controls.
    pub settings: Settings,
    /// The display transform, written by the shell's controls.
    pub transform: Transform,
    /// Width of the loaded image.
    pub width: u32,
    /// Height of the loaded image.
    pub height: u32,
}

impl Darkroom {
    /// The session is usable against the given manager: its renderer is
    /// bound to textures of the loaded image's dimensions and its settings
    /// are in range.
    pub open spec fn wf(self, m: TextureManager) -> bool {
        &&& self.renderer.is_bound()
        &&& self.renderer.binds(m)
        &&& self.settings.valid()
        &&& m.texture_at(self.renderer.input_handle()).width == self.width
        &&& m.texture_at(self.renderer.input_handle()).height == self.height
    }

    /// Opens a session on a loaded image: uploads it, allocates its render
    /// target, and starts from neutral settings and the identity transform.
    /// An image the device cannot hold is rejected and nothing changes.
    pub fn new(m: &mut TextureManager, img: &Image) -> (r: Result<Darkroom, DeviceError>)
        requires
            old(m).wf(),
            old(m).textures@.len() + 2 <= crate::texture::MAX_TEXTURES,
            img.wf(),
        ensures
            final(m).wf(),
            match r {
                Ok(d) => {
                    &&& dims_ok(img.width, img.height)
                    &&& d.wf(*final(m))
                    &&& d.settings.is_neutral()
                    &&& d.transform == (Transform {
                        quarter_turns: 0,
                        zoom_eighths: crate::transform::ZOOM_IDENTITY_EIGHTHS,
                    })
                    &&& d.width == img.width
                    &&& d.height == img.height
                    &&& final(m).texture_at(d.renderer.input_handle()).texels@ == img.pixels@
                    &&& (forall|i: int|
                        0 <= i < old(m).textures@.len() ==> final(m).textures@[i] == old(
                            m,
                        ).textures@[i])
                },
                Err(e) => {
                    &&& !dims_ok(img.width, img.height)
                    &&& e == dims_error(img.width, img.height)
                    &&& *final(m) == *old(m)
                },
            },
    {
        let mut renderer = Renderer::new();
        match renderer.bind(m, img) {
            Ok(_) => Ok(
                Darkroom {
                    renderer,
                    settings: Settings::new(),
                    transform: Transform::new(),
                    width: img.width,
                    height: img.height,
                },
            ),
            Err(e) => Err(e),
        }
    }

    /// Re-renders the loaded image under the current settings — the
    /// per-tick update of the grading view — and returns the display token
    /// of the result.
    pub fn update(&self, m: &mut TextureManager) -> (d: DisplayHandle)
        requires
            self.wf(*old(m)),
            old(m).wf(),
        ensures
            final(m).wf(),
            self.wf(*final(m)),
            final(m).texture_at(self.renderer.output_handle()).texels@ == rendered(
                self.settings,
                old(m).texture_at(self.renderer.input_handle()).texels@,
            ),
            final(m).textures@.len() == old(m).textures@.len(),
            forall|i: int|
                0 <= i < old(m).textures@.len() && i != self.renderer.output_handle().id
                    ==> final(m).textures@[i] == old(m).textures@[i],
            d.id == self.renderer.output_handle().id + crate::texture::DISPLAY_ID_BASE,
    {
        self.renderer.render(m, &self.settings)
    }

    /// The width and height at which the shell should lay out the rendered
    /// image, after the accumulated rotation.
    pub fn display_size(&self) -> (d: (u32, u32))
        ensures
            self.transform.swaps_axes() ==> d == (self.height, self.width),
            !self.transform.swaps_axes() ==> d == (self.width, self.height),
    {
        self.transform.display_size(self.width, self.height)
    }

    /// Whether the session's renderer is bound; a fresh session always is.
    pub fn is_bound(&self) -> (b: bool)
        ensures
            b == self.renderer.is_bound(),
    {
        match self.renderer.state {
            RenderState::Bound { .. } => true,
            RenderState::Unbound => false,
        }
    }
}

} // verus!
