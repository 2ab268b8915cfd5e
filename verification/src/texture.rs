//! The texture resource manager.
//!
//! The manager is the sole owner of device-side image objects. It allocates
//! input textures (sampled, written once at upload), allocates output
//! textures (render targets, rewritten by the grading pass), and hands out
//! handles: small opaque tokens that stand for a resource without granting
//! access to it. The modelled device state of a texture is its dimensions,
//! its texel contents, its role, and whether a view and a sampler exist for
//! it.
//!
//! Display handles are the bridge to the windowing toolkit's image widget:
//! a registered id derived from the texture id by a fixed offset, computed
//! in exactly one place so that no caller ever guesses an id.

use vstd::arithmetic::mul::lemma_mul_upper_bound;
use vstd::prelude::*;

verus! {

/// Largest texture width or height the modelled device accepts.
pub const MAX_TEXTURE_DIM: u32 = 8192;

/// Largest number of textures the manager will allocate.
pub const MAX_TEXTURES: usize = 65536;

/// Offset between a texture id and the id registered with the display
/// toolkit.
pub const DISPLAY_ID_BASE: u64 = 2;

/// The role of a texture.
#[derive(Clone, Copy, Debug, PartialEq, Eq, Structural)]
pub enum TextureType {
    /// Uploaded once from host pixels; sampled by the fragment stage.
    Input,
    /// A render target, rewritten by every grading pass.
    Output,
}

/// How a sampler interpolates texels.
#[derive(Clone, Copy, Debug, PartialEq, Eq, Structural)]
pub enum FilterMode {
    /// Take the nearest texel.
    Nearest,
    /// Interpolate linearly between texels.
    Linear,
}

/// The configuration of a texture's sampler.
#[derive(Clone, Copy, Debug, PartialEq, Eq, Structural)]
pub struct SamplerDesc {
    /// Filtering when the texture is shown larger than life.
    pub mag_filter: FilterMode,
    /// Filtering when the texture is shown smaller than life.
    pub min_filter: FilterMode,
}

/// The sampler every input texture is created with: nearest magnification
/// keeps a zoomed-in image crisp, linear minification keeps a zoomed-out
/// image smooth.
pub open spec fn input_sampler() -> SamplerDesc {
    SamplerDesc { mag_filter: FilterMode::Nearest, min_filter: FilterMode::Linear }
}

/// A device-side image object, as modelled state.
#[derive(Clone, Debug)]
pub struct Texture {
    /// Width in pixels.
    pub width: u32,
    /// Height in pixels.
    pub height: u32,
    /// The texel contents, four bytes per pixel, row-major RGBA.
    pub texels: Vec<u8>,
    /// The role this texture was created for.
    pub ty: TextureType,
    /// Whether a view object exists for this texture.
    pub has_view: bool,
    /// The sampler created for this texture, if any.
    pub sampler: Option<SamplerDesc>,
}

impl Texture {
    /// Dimensions are accepted by the device and the buffer holds exactly
    /// the declared texels.
    pub open spec fn wf(self) -> bool {
        &&& 1 <= self.width <= MAX_TEXTURE_DIM
        &&& 1 <= self.height <= MAX_TEXTURE_DIM
        &&& self.texels@.len() == 4 * self.width * self.height
    }
}

/// An opaque token for a texture owned by the manager.
#[derive(Clone, Copy, Debug, PartialEq, Eq, Structural)]
pub struct TextureHandle {
    /// Slot of the texture in the manager.
    pub id: usize,
}

/// An opaque token for a texture view.
#[derive(Clone, Copy, Debug, PartialEq, Eq, Structural)]
pub struct ViewHandle {
    /// Slot of the viewed texture in the manager.
    pub id: usize,
}

/// An opaque token for a sampler.
#[derive(Clone, Copy, Debug, PartialEq, Eq, Structural)]
pub struct SamplerHandle {
    /// Slot of the sampled texture in the manager.
    pub id: usize,
}

/// The capability token handed to the display layer: it names a displayable
/// texture but grants no access to the resource itself.
#[derive(Clone, Copy, Debug, PartialEq, Eq, Structural)]
pub struct DisplayHandle {
    /// The id registered with the display toolkit.
    pub id: u64,
}

/// Failure of a device allocation.
#[derive(Clone, Copy, Debug, PartialEq, Eq, Structural)]
pub enum DeviceError {
    /// A requested dimension was zero.
    ZeroDimension,
    /// A requested dimension exceeds the device limit.
    DimensionTooLarge,
}

/// Requested texture dimensions the modelled device accepts.
pub open spec fn dims_ok(width: u32, height: u32) -> bool {
    &&& 1 <= width <= MAX_TEXTURE_DIM
    &&& 1 <= height <= MAX_TEXTURE_DIM
}

/// The device error reported for rejected dimensions.
pub open spec fn dims_error(width: u32, height: u32) -> DeviceError {
    if width == 0 || height == 0 {
        DeviceError::ZeroDimension
    } else {
        DeviceError::DimensionTooLarge
    }
}

/// What `create_input` allocates: an uploaded, sampled texture.
pub open spec fn is_input_texture(t: Texture, pix: Seq<u8>, width: u32, height: u32) -> bool {
    &&& t.width == width
    &&& t.height == height
    &&& t.texels@ == pix
    &&& t.ty == TextureType::Input
    &&& t.has_view
    &&& t.sampler == Some(input_sampler())
}

/// What `create_output` allocates: a cleared render target with a view.
pub open spec fn is_output_texture(t: Texture, width: u32, height: u32) -> bool {
    &&& t.width == width
    &&& t.height == height
    &&& t.texels@.len() == 4 * width * height
    &&& (forall|i: int| 0 <= i < t.texels@.len() ==> t.texels@[i] == 0u8)
    &&& t.ty == TextureType::Output
    &&& t.has_view
    &&& t.sampler is None
}

/// Owner of every device texture. The rest of the pipeline and the display
/// layer only ever hold handles into it.
#[derive(Debug)]
pub struct TextureManager {
    /// The allocated textures, in allocation order.
    pub textures: Vec<Texture>,
}

impl TextureManager {
    /// Every allocated texture is well formed and the allocation count is
    /// within the modelled device limit.
    pub open spec fn wf(self) -> bool {
        &&& self.textures@.len() <= MAX_TEXTURES
        &&& forall|i: int|
            0 <= i < self.textures@.len() ==> (#[trigger] self.textures@[i]).wf()
    }

    /// The handle names an allocated texture.
    pub open spec fn has(self, h: TextureHandle) -> bool {
        h.id < self.textures@.len()
    }

    /// The texture a handle names.
    pub open spec fn texture_at(self, h: TextureHandle) -> Texture {
        self.textures@[h.id as int]
    }

    /// A manager with no allocations.
    pub fn new() -> (m: TextureManager)
        ensures
            m.wf(),
            m.textures@.len() == 0,
    {
        TextureManager { textures: Vec::new() }
    }

    /// Number of allocated textures.
    pub fn texture_count(&self) -> (n: usize)
        ensures
            n == self.textures@.len(),
    {
        self.textures.len()
    }

    /// Uploads decoded host pixels into a fresh input texture with a view
    /// and a sampler, and returns its handle. Rejects dimensions the device
    /// cannot allocate and changes nothing in that case.
    pub fn create_input(&mut self, pixels: &Vec<u8>, width: u32, height: u32) -> (r: Result<
        TextureHandle,
        DeviceError,
    >)
        requires
            old(self).wf(),
            old(self).textures@.len() < MAX_TEXTURES,
            pixels@.len() == 4 * width * height,
        ensures
            final(self).wf(),
            match r {
                Ok(h) => {
                    &&& dims_ok(width, height)
                    &&& h.id == old(self).textures@.len()
                    &&& final(self).textures@.len() == old(self).textures@.len() + 1
                    &&& (forall|i: int|
                        0 <= i < old(self).textures@.len() ==> final(self).textures@[i] == old(
                            self,
                        ).textures@[i])
                    &&& is_input_texture(final(self).texture_at(h), pixels@, width, height)
                },
                Err(e) => {
                    &&& !dims_ok(width, height)
                    &&& e == dims_error(width, height)
                    &&& *final(self) == *old(self)
                },
            },
    {
        if width == 0 || height == 0 || width > MAX_TEXTURE_DIM || height > MAX_TEXTURE_DIM {
            return Err(
                if width == 0 || height == 0 {
                    DeviceError::ZeroDimension
                } else {
                    DeviceError::DimensionTooLarge
                },
            );
        }
        let h = TextureHandle { id: self.textures.len() };
        let texels = copy_texels(pixels);
        let tex = Texture {
            width,
            height,
            texels,
            ty: TextureType::Input,
            has_view: true,
            sampler: Some(SamplerDesc { mag_filter: FilterMode::Nearest, min_filter: FilterMode::Linear }),
        };
        self.textures.push(tex);
        Ok(h)
    }

    /// Allocates a cleared render-target texture of the pipeline's fixed
    /// pixel format and returns its handle. Rejects dimensions the device
    /// cannot allocate and changes nothing in that case.
    pub fn create_output(&mut self, width: u32, height: u32) -> (r: Result<
        TextureHandle,
        DeviceError,
    >)
        requires
            old(self).wf(),
            old(self).textures@.len() < MAX_TEXTURES,
        ensures
            final(self).wf(),
            match r {
                Ok(h) => {
                    &&& dims_ok(width, height)
                    &&& h.id == old(self).textures@.len()
                    &&& final(self).textures@.len() == old(self).textures@.len() + 1
                    &&& (forall|i: int|
                        0 <= i < old(self).textures@.len() ==> final(self).textures@[i] == old(
                            self,
                        ).textures@[i])
                    &&& is_output_texture(final(self).texture_at(h), width, height)
                },
                Err(e) => {
                    &&& !dims_ok(width, height)
                    &&& e == dims_error(width, height)
                    &&& *final(self) == *old(self)
                },
            },
    {
        if width == 0 || height == 0 || width > MAX_TEXTURE_DIM || height > MAX_TEXTURE_DIM {
            return Err(
                if width == 0 || height == 0 {
                    DeviceError::ZeroDimension
                } else {
                    DeviceError::DimensionTooLarge
                },
            );
        }
        let h = TextureHandle { id: self.textures.len() };
        let texels = zero_texels(width, height);
        let tex = Texture {
            width,
            height,
            texels,
            ty: TextureType::Output,
            has_view: true,
            sampler: None,
        };
        self.textures.push(tex);
        Ok(h)
    }

    /// Replaces the texel contents of an output texture; the grading pass
    /// uses this to store what it rendered.
    pub fn write_texels(&mut self, h: TextureHandle, texels: Vec<u8>)
        requires
            old(self).wf(),
            old(self).has(h),
            old(self).texture_at(h).ty == TextureType::Output,
            texels@.len() == 4 * old(self).texture_at(h).width * old(self).texture_at(h).height,
        ensures
            final(self).wf(),
            final(self).textures@.len() == old(self).textures@.len(),
            forall|i: int|
                0 <= i < old(self).textures@.len() && i != h.id ==> final(self).textures@[i]
                    == old(self).textures@[i],
            final(self).texture_at(h).texels@ == texels@,
            final(self).texture_at(h).width == old(self).texture_at(h).width,
            final(self).texture_at(h).height == old(self).texture_at(h).height,
            final(self).texture_at(h).ty == old(self).texture_at(h).ty,
            final(self).texture_at(h).has_view == old(self).texture_at(h).has_view,
            final(self).texture_at(h).sampler == old(self).texture_at(h).sampler,
    {
        let slot: &mut Texture = &mut self.textures[h.id];
        slot.texels = texels;
    }

    /// Hands out the view of a texture that has one.
    pub fn view_of(&self, h: TextureHandle) -> (v: ViewHandle)
        requires
            self.has(h),
            self.texture_at(h).has_view,
        ensures
            v.id == h.id,
    {
        ViewHandle { id: h.id }
    }

    /// Hands out the sampler of a texture that has one; samplers magnify
    /// with nearest filtering and minify linearly.
    pub fn sampler_for(&self, h: TextureHandle) -> (s: SamplerHandle)
        requires
            self.has(h),
            self.texture_at(h).sampler is Some,
        ensures
            s.id == h.id,
    {
        SamplerHandle { id: h.id }
    }

    /// Registers a texture with the display toolkit and returns the
    /// capability token for it. This is the only place a display id is
    /// computed.
    pub fn display_handle_of(&self, h: TextureHandle) -> (d: DisplayHandle)
        requires
            self.wf(),
            self.has(h),
        ensures
            d.id == h.id + DISPLAY_ID_BASE,
    {
        DisplayHandle { id: h.id as u64 + DISPLAY_ID_BASE }
    }
}

/// Copies a host pixel buffer for upload.
fn copy_texels(pixels: &Vec<u8>) -> (out: Vec<u8>)
    ensures
        out@ == pixels@,
{
    let mut out: Vec<u8> = Vec::new();
    let n: usize = pixels.len();
    let mut i: usize = 0;
    while i < n
        invariant
            n == pixels@.len(),
            i <= n,
            out@ == pixels@.subrange(0, i as int),
        decreases n - i,
    {
        out.push(pixels[i]);
        proof {
            assert(out@ =~= pixels@.subrange(0, i + 1));
        }
        i += 1;
    }
    proof {
        assert(out@ =~= pixels@);
    }
    out
}

/// Allocates the cleared texel buffer of a fresh render target.
fn zero_texels(width: u32, height: u32) -> (out: Vec<u8>)
    requires
        dims_ok(width, height),
    ensures
        out@.len() == 4 * width * height,
        forall|i: int| 0 <= i < out@.len() ==> out@[i] == 0u8,
{
    proof {
        lemma_mul_upper_bound(
            4 * width as int,
            4 * MAX_TEXTURE_DIM as int,
            height as int,
            MAX_TEXTURE_DIM as int,
        );
    }
    let n: usize = 4 * (width as usize) * (height as usize);
    let mut out: Vec<u8> = Vec::new();
    let mut i: usize = 0;
    while i < n
        invariant
            i <= n,
            out@.len() == i,
            forall|j: int| 0 <= j < out@.len() ==> out@[j] == 0u8,
        decreases n - i,
    {
        out.push(0u8);
        i += 1;
    }
    out
}

} // verus!
