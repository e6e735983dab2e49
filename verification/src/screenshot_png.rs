//! Screenshots as PNG files: the captured RGBA8 pixels encoded with the
//! `png` crate.
use vstd::prelude::*;

use crate::types::EngineError;

verus! {

#[verifier::external_type_specification]
#[verifier::external_body]
pub struct ExPngEncodingError(png::EncodingError);

/// The bytes of the PNG file the `png` crate writes for an 8-bit RGBA image
/// of `width` by `height` pixels holding `pixels`, with its default options.
pub uninterp spec fn png_rgba8_file(width: u32, height: u32, pixels: Seq<u8>) -> Seq<u8>;

/// Encodes `pixels` with `png::Encoder` (RGBA, 8 bits per channel, default
/// options) into an in-memory buffer and returns the buffer. Claimed of the
/// crate's code: a zero width or height is refused when the header is
/// written, pixel data whose length is not four bytes per pixel is refused
/// by `write_image_data`, and nothing else is refused (writing into a
/// `Vec` cannot fail, and long data is split over several chunks); what a
/// success holds is the crate's PNG file for these arguments.
#[verifier::external_body]
fn png_encode_rgba8(width: u32, height: u32, pixels: &[u8]) -> (r: Result<Vec<u8>, png::EncodingError>)
    requires
        4 * (width as int) * (height as int) + (height as int) <= usize::MAX,
    ensures
        width == 0 || height == 0 ==> r is Err,
        pixels@.len() != 4 * (width as int) * (height as int) ==> r is Err,
        width > 0 && height > 0 && pixels@.len() == 4 * (width as int) * (height as int) ==> r is Ok,
        r matches Ok(b) ==> b@ == png_rgba8_file(width, height, pixels@),
{
    let mut buf: Vec<u8> = Vec::new();
    let mut encoder = png::Encoder::new(&mut buf, width, height);
    encoder.set_color(png::ColorType::Rgba);
    encoder.set_depth(png::BitDepth::Eight);
    let mut writer = encoder.write_header()?;
    writer.write_image_data(pixels)?;
    writer.finish()?;
    Ok(buf)
}

/// The `Display` text of a `png::EncodingError`; nothing is claimed of it.
#[verifier::external_body]
fn png_error_text(e: &png::EncodingError) -> (r: String) {
    format!("{e}")
}

/// Encode the RGBA8 `pixels` of a `width` by `height` screenshot as the
/// bytes of a PNG file. A zero-sized image, or pixel data that is not four
/// bytes per pixel, is refused with `Unknown` (the encoder's text after
/// `screenshot: PNG encode error: `); any other input is encoded.
pub fn encode_png(width: u32, height: u32, pixels: &[u8]) -> (r: Result<Vec<u8>, EngineError>)
    requires
        4 * (width as int) * (height as int) + (height as int) <= usize::MAX,
    ensures
        width == 0 || height == 0 || pixels@.len() != 4 * (width as int) * (height as int)
            ==> r matches Err(EngineError::Unknown(_)),
        width > 0 && height > 0 && pixels@.len() == 4 * (width as int) * (height as int)
            ==> (r matches Ok(b) && b@ == png_rgba8_file(width, height, pixels@)),
        r matches Ok(b) ==> b@ == png_rgba8_file(width, height, pixels@),
        r matches Err(e) ==> (e matches EngineError::Unknown(m)
            && m@.take(30) == "screenshot: PNG encode error: "@),
{
    match png_encode_rgba8(width, height, pixels) {
        Ok(b) => Ok(b),
        Err(e) => {
            let prefix = "screenshot: PNG encode error: ";
            proof {
                reveal_strlit("screenshot: PNG encode error: ");
            }
            let m = String::from_str(prefix).concat(png_error_text(&e).as_str());
            assert(m@.take(30) =~= prefix@);
            Err(EngineError::Unknown(m))
        },
    }
}

} // verus!
