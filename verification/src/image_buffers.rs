use vstd::prelude::*;
use wgpu::TextureFormat;

verus! {

/// `wgpu::TextureFormat`, carried as an opaque value.
#[verifier::external_type_specification]
#[verifier::external_body]
pub struct ExTextureFormat(wgpu::TextureFormat);

/// `wgpu::COPY_BYTES_PER_ROW_ALIGNMENT`: the number of bytes that each row of
/// a buffer taking part in a texture copy must be a multiple of. wgpu
/// defines it as 256.
#[verifier::external_body]
fn copy_bytes_per_row_alignment() -> (alignment: u32)
    ensures
        alignment == 256,
{
    wgpu::COPY_BYTES_PER_ROW_ALIGNMENT
}

/// Whether `format` is `TextureFormat::Rgba16Float`.
pub uninterp spec fn format_is_rgba16_float(format: TextureFormat) -> bool;

/// A variant test on `wgpu::TextureFormat`: whether `format` is
/// `Rgba16Float`, which depends on the format alone.
#[verifier::external_body]
fn is_rgba16_float(format: &TextureFormat) -> (is_rgba16: bool)
    ensures
        is_rgba16 == format_is_rgba16_float(*format),
{
    match format {
        TextureFormat::Rgba16Float => true,
        _ => false,
    }
}

/// Number of bytes per pixel of an `Rgba16Float` texture: four channels of
/// two bytes.
pub const RGBA16_FLOAT_BYTES_PER_PIXEL: u32 = 8u32;

/// `unpadded` rounded up to the next multiple of `alignment`.
pub open spec fn round_up_to_multiple(unpadded: int, alignment: int) -> int {
    unpadded + (alignment - unpadded % alignment) % alignment
}

/// The size of a row of `width` pixels of `bytes_per_pixel` bytes, padded to
/// the row alignment of texture copies. The padded size is narrowed to
/// `u32`.
pub fn padded_size_for_image_row(width: u32, bytes_per_pixel: u32) -> (padded: u32)
    requires
        width * bytes_per_pixel <= u32::MAX,
        round_up_to_multiple(width * bytes_per_pixel, 256) <= usize::MAX,
    ensures
        padded == round_up_to_multiple(width * bytes_per_pixel, 256) as u32,
{
    let unpadded_bytes_per_row = (width * bytes_per_pixel) as usize;
    let align = copy_bytes_per_row_alignment() as usize;
    let padded_bytes_per_row_padding = (align - unpadded_bytes_per_row % align) % align;
    (unpadded_bytes_per_row + padded_bytes_per_row_padding) as u32
}

/// The padded row size of a capture of an `Rgba16Float` image `width`
/// pixels wide. Only `Rgba16Float` images can be captured; capturing any
/// other format is not supported yet.
pub fn calculate_padded_size_for_image_copy_buffer(width: u32, format: &TextureFormat) -> (padded: u32)
    requires
        format_is_rgba16_float(*format),
        width * RGBA16_FLOAT_BYTES_PER_PIXEL <= u32::MAX,
        round_up_to_multiple(width * RGBA16_FLOAT_BYTES_PER_PIXEL, 256) <= usize::MAX,
    ensures
        padded == round_up_to_multiple(width * RGBA16_FLOAT_BYTES_PER_PIXEL, 256) as u32,
{
    padded_size_for_image_row(width, RGBA16_FLOAT_BYTES_PER_PIXEL)
}

/// The padded row size of a capture of an image `width` pixels wide in
/// `format`, where the format can be captured (`Rgba16Float`); `None` for
/// any other format.
pub fn try_calculate_padded_size_for_image_copy_buffer(width: u32, format: &TextureFormat) -> (padded:
    Option<u32>)
    requires
        width * RGBA16_FLOAT_BYTES_PER_PIXEL <= u32::MAX,
        round_up_to_multiple(width * RGBA16_FLOAT_BYTES_PER_PIXEL, 256) <= usize::MAX,
    ensures
        padded == (if format_is_rgba16_float(*format) {
            Some(round_up_to_multiple(width * RGBA16_FLOAT_BYTES_PER_PIXEL, 256) as u32)
        } else {
            None
        }),
{
    if is_rgba16_float(format) {
        Some(calculate_padded_size_for_image_copy_buffer(width, format))
    } else {
        None
    }
}

/// Rounding up to the row alignment gives the least multiple of 256 that is
/// not below the unpadded size, and where it fits in `u32` the narrowing
/// changes nothing.
pub proof fn lemma_padded_row_is_least_aligned(unpadded: int)
    requires
        0 <= unpadded,
    ensures
        round_up_to_multiple(unpadded, 256) % 256 == 0,
        unpadded <= round_up_to_multiple(unpadded, 256) < unpadded + 256,
        unpadded + 255 <= u32::MAX ==> round_up_to_multiple(unpadded, 256) as u32
            == round_up_to_multiple(unpadded, 256),
{
}

/// The contents of a 2D texture in a buffer, that might have been padded.
/// Because of this, some information needs to be stored, so we can get the
/// value at (x, y).
pub struct SingleDimensionPaddedImageBuffer {
    pub data: Vec<u32>,
    pub padded_row_size: u32,
}

/// The value at (`x`, `y`) of a padded image: the item at `y` full rows
/// plus `x`, if the buffer is that long.
pub open spec fn padded_image_value(data: Seq<u32>, padded_row_size: int, x: int, y: int) -> Option<u32> {
    let index = y * padded_row_size + x;
    if 0 <= index < data.len() {
        Some(data[index])
    } else {
        None
    }
}

impl SingleDimensionPaddedImageBuffer {
    /// The value at (`x`, `y`), or `None` outside the buffer.
    pub fn get(&self, x: u32, y: u32) -> (value: Option<u32>)
        requires
            y * self.padded_row_size + x <= u32::MAX,
        ensures
            value == padded_image_value(self.data@, self.padded_row_size as int, x as int, y as int),
    {
        proof {
            assert(0 <= y * self.padded_row_size) by (nonlinear_arith);
        }
        let index = (y * self.padded_row_size + x) as usize;
        if index < self.data.len() {
            Some(self.data[index])
        } else {
            None
        }
    }
}

} // verus!
