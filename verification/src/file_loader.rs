use vstd::prelude::*;

use image::ImageError;

verus! {

/// `image::ImageError`, why an image could not be decoded, carried as an
/// opaque value.
#[verifier::external_type_specification]
#[verifier::external_body]
pub struct ExImageError(image::ImageError);

/// What `image::load_from_memory` followed by `to_rgba8` makes of the bytes
/// `data`: the width, the height and the 8-bit RGBA pixels of the decoded
/// image, or `None` where the bytes do not decode. The format is guessed
/// from the bytes, so the outcome depends on the bytes alone.
pub uninterp spec fn decoded_rgba(data: Seq<u8>) -> Option<(u32, u32, Seq<u8>)>;

/// An image with 8-bit RGBA pixels, row by row, four bytes per pixel.
pub struct RgbaImageData {
    pub width: u32,
    pub height: u32,
    pub pixels: Vec<u8>,
}

impl RgbaImageData {
    /// The buffer holds every pixel.
    pub open spec fn wf(&self) -> bool {
        self.pixels@.len() >= 4 * self.width * self.height
    }
}

/// Why an image could not be loaded.
pub enum ImageLoadError {
    /// The bytes are not an image in a format the loader reads.
    Decoding(ImageError),
}

/// `image::load_from_memory`, then `DynamicImage::to_rgba8` on the decoded
/// image, taken apart into its dimensions and raw bytes. The result is
/// `decoded_rgba` of the bytes. `image` checks on every construction of an
/// image buffer that it holds at least four bytes for each of the
/// `width * height` pixels.
#[verifier::external_body]
fn decode_rgba(data: &[u8]) -> (decoded: Result<RgbaImageData, ImageError>)
    ensures
        decoded is Ok == decoded_rgba(data@) is Some,
        decoded matches Ok(image) ==> image.wf() && Some((image.width, image.height, image.pixels@))
            == decoded_rgba(data@),
{
    let rgba = image::load_from_memory(data)?.to_rgba8();
    let (width, height) = rgba.dimensions();
    Ok(RgbaImageData { width, height, pixels: rgba.into_raw() })
}

/// Loads images for textures.
pub struct ImageLoader {}

impl ImageLoader {
    /// Decodes the contents of an image file into RGBA pixels. Fails exactly
    /// when the bytes are not an image that the loader can decode.
    pub fn try_decode_image(data: &[u8]) -> (loaded: Result<RgbaImageData, ImageLoadError>)
        ensures
            loaded is Ok == decoded_rgba(data@) is Some,
            loaded matches Ok(image) ==> image.wf() && Some((image.width, image.height, image.pixels@))
                == decoded_rgba(data@),
    {
        match decode_rgba(data) {
            Ok(image) => Ok(image),
            Err(error) => Err(ImageLoadError::Decoding(error)),
        }
    }
}

} // verus!
