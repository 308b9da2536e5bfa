//! The image-decoding collaborator.
//!
//! Decoding a compressed image into tightly packed RGBA8 pixels is
//! delegated to the `image` crate. The decoded pixels, and whether a
//! given byte string decodes at all, are a function of the bytes alone,
//! so the result is given a name that the renderer's contracts can
//! speak of; the decode itself is the library's one trusted call.

use vstd::prelude::*;

verus! {

/// The RGBA8 pixels and dimensions that the image-decoding collaborator
/// produces from a byte string, or `None` when the bytes are not a
/// decodable image. The result depends on the bytes alone.
pub uninterp spec fn decoded_rgba(bytes: Seq<u8>) -> Option<(Seq<u8>, u32, u32)>;

/// Relies on image::load_from_memory to decode the bytes, and on
/// DynamicImage::to_rgba8 to convert the result into a tightly packed
/// RGBA8 buffer of exactly `4 * width * height` bytes (an ImageBuffer's
/// container holds exactly one `Rgba<u8>` pixel, four bytes, per
/// coordinate).
#[verifier::external_body]
fn decode_rgba_call(bytes: &Vec<u8>) -> (r: Option<(Vec<u8>, u32, u32)>)
    ensures
        r is Some <==> decoded_rgba(bytes@) is Some,
        r matches Some(d) ==> {
            &&& decoded_rgba(bytes@) == Some((d.0@, d.1, d.2))
            &&& d.0@.len() == 4 * (d.1 as nat) * (d.2 as nat)
        },
{
    match image::load_from_memory(bytes.as_slice()) {
        Ok(img) => {
            let width = img.width();
            let height = img.height();
            Some((img.to_rgba8().into_raw(), width, height))
        },
        Err(_) => None,
    }
}

/// A decoded image: tightly packed RGBA8 pixels and their dimensions.
pub struct DecodedImage {
    pub pixels: Vec<u8>,
    pub width: u32,
    pub height: u32,
}

impl DecodedImage {
    /// The pixel buffer is tightly packed, four bytes per pixel, and
    /// the image has a nonzero area.
    pub open spec fn wf(self) -> bool {
        &&& self.pixels@.len() == 4 * (self.width as nat) * (self.height as nat)
        &&& self.width >= 1
        &&& self.height >= 1
    }
}

/// Decodes a byte string into RGBA8 pixels. Fails exactly when the
/// collaborator cannot decode the bytes or the decoded image has zero
/// area, which no texture can be made from.
pub fn decode_image(bytes: &Vec<u8>) -> (r: Option<DecodedImage>)
    ensures
        r matches Some(img) ==> {
            &&& img.wf()
            &&& decoded_rgba(bytes@) == Some((img.pixels@, img.width, img.height))
        },
        r is None ==> match decoded_rgba(bytes@) {
            Some(d) => d.1 == 0 || d.2 == 0,
            None => true,
        },
        (match decoded_rgba(bytes@) {
            Some(d) => d.1 >= 1 && d.2 >= 1,
            None => false,
        }) ==> r is Some,
{
    match decode_rgba_call(bytes) {
        Some((pixels, width, height)) => {
            if width >= 1 && height >= 1 {
                Some(DecodedImage { pixels, width, height })
            } else {
                None
            }
        },
        None => None,
    }
}

} // verus!
