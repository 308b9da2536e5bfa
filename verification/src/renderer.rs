//! The renderer's long-lived state.
//!
//! One explicit value owns everything the frame loop and the
//! registration calls touch: the configured surface size, the cached
//! projection matrix, the texture array and the current binding
//! artifact's slot layout. Every mutation is atomic-or-nothing: a
//! failed registration or an ignored resize leaves the whole state
//! exactly as it was.

use vstd::prelude::*;

use crate::decode::{decode_image, decoded_rgba, DecodedImage};
use crate::projection::{compute, ProjectionMatrix};
use crate::rat::FRAC_LIMIT;
use crate::textures::{
    lemma_populated_slots_equal_registered, populated_count, slots_match, SlotRef, TextureArray,
    TextureInfo,
};
use crate::{RendererError, TextureHandle, TEXTURE_CAPACITY};

verus! {

/// In every reachable renderer state — so in particular after any
/// registration — the binding artifact's populated-slot count equals
/// the number of registered textures, and every slot beyond that count
/// resolves to the placeholder texture.
pub proof fn lemma_binding_artifact_matches_registration(r: Renderer)
    requires
        r.wf(),
    ensures
        populated_count(r.binding@) == r.textures.count(),
        forall|i: int|
            r.textures.count() <= i < TEXTURE_CAPACITY ==> r.binding@[i] == SlotRef::Placeholder,
{
    lemma_populated_slots_equal_registered(r.binding@, r.textures.count(), TEXTURE_CAPACITY as int);
}

/// The presentation surface's configured size, in physical pixels.
#[derive(Clone, Copy, Debug, PartialEq, Eq, Structural)]
pub struct SurfaceConfig {
    pub width: u32,
    pub height: u32,
}

/// Picks the presentation surface's pixel format from the formats the
/// surface offers, given which of them are sRGB: the first sRGB format
/// when one exists, the first offered format otherwise.
pub fn choose_format_index(is_srgb: &Vec<bool>) -> (r: usize)
    requires
        is_srgb@.len() >= 1,
    ensures
        r < is_srgb@.len(),
        (exists|i: int| 0 <= i < is_srgb@.len() && is_srgb@[i]) ==> {
            &&& is_srgb@[r as int]
            &&& forall|j: int| 0 <= j < r ==> !is_srgb@[j]
        },
        !(exists|i: int| 0 <= i < is_srgb@.len() && is_srgb@[i]) ==> r == 0,
{
    let mut i: usize = 0;
    while i < is_srgb.len()
        invariant
            i <= is_srgb@.len(),
            forall|j: int| 0 <= j < i ==> !is_srgb@[j],
        decreases is_srgb@.len() - i,
    {
        if is_srgb[i] {
            return i;
        }
        i = i + 1;
    }
    0
}

/// The renderer's state.
pub struct Renderer {
    /// The surface's configured size.
    pub config: SurfaceConfig,
    /// The projection cached for the current size.
    pub projection: ProjectionMatrix,
    /// The registered textures.
    pub textures: TextureArray,
    /// The slot layout of the current binding artifact.
    pub binding: Vec<SlotRef>,
}

impl Renderer {
    /// The state's invariant: a nonzero configured size within the
    /// exact-arithmetic bound, the projection derived from exactly that
    /// size, the texture count within capacity, and the binding
    /// artifact rebuilt for exactly the current texture count.
    pub open spec fn wf(self) -> bool {
        &&& 1 <= self.config.width < FRAC_LIMIT
        &&& 1 <= self.config.height < FRAC_LIMIT
        &&& self.projection.wf()
        &&& self.projection.is_projection_for(
            self.config.width as int,
            self.config.height as int,
        )
        &&& self.textures.wf()
        &&& slots_match(self.binding@, self.textures.count())
    }

    /// Builds the renderer for an initial viewport, with no textures
    /// registered and every binding slot on the placeholder.
    pub fn new(width: u32, height: u32) -> (r: Renderer)
        requires
            1 <= width < FRAC_LIMIT as u32,
            1 <= height < FRAC_LIMIT as u32,
        ensures
            r.wf(),
            r.config == (SurfaceConfig { width, height }),
            r.textures.count() == 0,
    {
        let textures = TextureArray::new();
        let binding = textures.binding_slots();
        Renderer {
            config: SurfaceConfig { width, height },
            projection: compute(width, height),
            textures,
            binding,
        }
    }

    /// Applies a resize request. A nonzero size reconfigures the
    /// surface and recomputes the projection, leaving textures and
    /// binding untouched; a request with zero width or height is
    /// ignored whole, since a zero-area surface is not configurable.
    pub fn resize(&mut self, width: u32, height: u32)
        requires
            old(self).wf(),
            width < FRAC_LIMIT as u32,
            height < FRAC_LIMIT as u32,
        ensures
            final(self).wf(),
            width >= 1 && height >= 1 ==> {
                &&& final(self).config == (SurfaceConfig { width, height })
                &&& final(self).projection.is_projection_for(width as int, height as int)
                &&& final(self).textures == old(self).textures
                &&& final(self).binding == old(self).binding
            },
            width == 0 || height == 0 ==> *final(self) == *old(self),
    {
        if width >= 1 && height >= 1 {
            self.config = SurfaceConfig { width, height };
            self.projection = compute(width, height);
        }
    }

    /// Registers a texture from tightly packed RGBA8 pixel data.
    ///
    /// On success the next sequential handle is issued and the binding
    /// artifact is rebuilt in full for the new count. Beyond capacity
    /// the call fails with `CapacityExceeded` and the whole state is
    /// unchanged. The surface configuration and projection are never
    /// touched.
    pub fn register_texture(&mut self, pixels: &Vec<u8>, width: u32, height: u32) -> (r: Result<
        TextureHandle,
        RendererError,
    >)
        requires
            old(self).wf(),
            width >= 1,
            height >= 1,
            pixels@.len() == 4 * (width as nat) * (height as nat),
        ensures
            final(self).wf(),
            final(self).config == old(self).config,
            final(self).projection == old(self).projection,
            r is Ok <==> old(self).textures.count() < TEXTURE_CAPACITY,
            r matches Ok(handle) ==> {
                &&& handle == old(self).textures.count()
                &&& final(self).textures.count() == old(self).textures.count() + 1
                &&& final(self).textures.registered@ == old(self).textures.registered@.push(
                    TextureInfo { width, height },
                )
            },
            r is Err ==> {
                &&& *final(self) == *old(self)
                &&& r == Err::<TextureHandle, RendererError>(RendererError::CapacityExceeded)
            },
    {
        let handle = match self.textures.register(width, height) {
            Ok(handle) => handle,
            Err(e) => {
                return Err(e);
            },
        };
        self.binding = self.textures.binding_slots();
        Ok(handle)
    }

    /// Registers a texture from an undecoded image file's bytes,
    /// delegating the decode to the image-decoding collaborator before
    /// any state is touched. Returns the handle together with the
    /// decoded pixels for the host to upload.
    ///
    /// Fails with `DecodeError`, state unchanged, exactly when the
    /// bytes do not decode to an image of nonzero area; fails with
    /// `CapacityExceeded`, state unchanged, when they do but the array
    /// is full.
    pub fn register_texture_from_bytes(&mut self, bytes: &Vec<u8>) -> (r: Result<
        (TextureHandle, DecodedImage),
        RendererError,
    >)
        requires
            old(self).wf(),
        ensures
            final(self).wf(),
            final(self).config == old(self).config,
            final(self).projection == old(self).projection,
            r matches Ok(d) ==> {
                &&& d.1.wf()
                &&& decoded_rgba(bytes@) == Some((d.1.pixels@, d.1.width, d.1.height))
                &&& d.0 == old(self).textures.count()
                &&& final(self).textures.count() == old(self).textures.count() + 1
                &&& final(self).textures.registered@ == old(self).textures.registered@.push(
                    TextureInfo { width: d.1.width, height: d.1.height },
                )
            },
            r == Err::<(TextureHandle, DecodedImage), RendererError>(RendererError::DecodeError) ==> {
                &&& *final(self) == *old(self)
                &&& match decoded_rgba(bytes@) {
                    Some(d) => d.1 == 0 || d.2 == 0,
                    None => true,
                }
            },
            r == Err::<(TextureHandle, DecodedImage), RendererError>(RendererError::CapacityExceeded)
                ==> {
                &&& *final(self) == *old(self)
                &&& old(self).textures.count() == TEXTURE_CAPACITY
            },
            (match decoded_rgba(bytes@) {
                Some(d) => d.1 >= 1 && d.2 >= 1,
                None => false,
            }) && old(self).textures.count() < TEXTURE_CAPACITY ==> r is Ok,
    {
        let img = match decode_image(bytes) {
            Some(img) => img,
            None => {
                return Err(RendererError::DecodeError);
            },
        };
        let handle = match self.register_texture(&img.pixels, img.width, img.height) {
            Ok(handle) => handle,
            Err(e) => {
                return Err(e);
            },
        };
        Ok((handle, img))
    }
}

} // verus!
