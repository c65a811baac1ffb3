//! The window icon, decoded from the PNG image bundled with the program.

use vstd::prelude::*;

verus! {

/// The RGBA pixels and the size that the `image` crate's PNG decoder
/// decodes from `bytes`, or `None` when they are not a PNG image it can read.
pub uninterp spec fn spec_decode_rgba(bytes: Seq<u8>) -> Option<(Seq<u8>, u32, u32)>;

/// An image as 8-bit RGBA pixels, row by row.
pub struct IconImage {
    pub rgba: Vec<u8>,
    pub width: u32,
    pub height: u32,
}

/// Calls `image::load_from_memory_with_format` with the PNG format, then
/// `to_rgba8`, `dimensions` and `into_raw` on the result.
///
/// Trusted: the result is what the `image` crate's built-in PNG decoder makes
/// of `bytes`. With the format given, no registered format-detection or
/// decoding hook is consulted, so it depends on the bytes alone. Nothing is
/// stated about its layout.
#[verifier::external_body]
fn decode_rgba(bytes: &[u8]) -> (image: Option<IconImage>)
    ensures
        match image {
            Some(i) => spec_decode_rgba(bytes@) == Some((i.rgba@, i.width, i.height)),
            None => spec_decode_rgba(bytes@) is None,
        },
{
    match image::load_from_memory_with_format(bytes, image::ImageFormat::Png) {
        Ok(decoded) => {
            let rgba = decoded.to_rgba8();
            let (width, height) = rgba.dimensions();
            Some(IconImage { rgba: rgba.into_raw(), width, height })
        },
        Err(_) => None,
    }
}

/// The window icon decoded from the bundled PNG `png`, or `None` when the
/// bytes are not a PNG image that can be decoded.
pub fn window_icon(png: &[u8]) -> (icon: Option<IconImage>)
    ensures
        match icon {
            Some(i) => spec_decode_rgba(png@) == Some((i.rgba@, i.width, i.height)),
            None => spec_decode_rgba(png@) is None,
        },
{
    decode_rgba(png)
}

} // verus!
