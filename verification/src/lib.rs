//! A verified core for a real-time 2D rectangle renderer.
//!
//! The library models the renderer's state machine and GPU resource
//! lifecycle: the rectangle batch and its byte layout, the bindless
//! texture array with its rebuild-on-registration protocol, the exact
//! orthographic projection, and the per-frame submission protocol.
//! The host application performs the actual GPU and window-system
//! calls, feeding their outcomes back into the verified transitions.

use vstd::prelude::*;

pub mod decode;
pub mod events;
pub mod frame;
pub mod projection;
pub mod rat;
pub mod record;
pub mod renderer;
pub mod shading;
pub mod textures;

verus! {

/// A stable, non-negative texture handle, assigned sequentially from
/// zero and never reused or invalidated.
pub type TextureHandle = usize;

/// Number of texture slots in the bindless binding array.
pub const TEXTURE_CAPACITY: usize = 1000;

/// Number of draw records the GPU-side batch buffer can hold.
pub const BATCH_CAPACITY: usize = 10000;

/// Errors reported by the renderer core. Every failure leaves the
/// renderer state unchanged.
#[derive(Clone, Copy, Debug, PartialEq, Eq, Structural)]
pub enum RendererError {
    /// A texture registration or batch upload would exceed a fixed limit.
    CapacityExceeded,
    /// The supplied bytes are not a decodable image.
    DecodeError,
}

} // verus!
