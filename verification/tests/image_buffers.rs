use rendering_engine::image_buffers::{
    calculate_padded_size_for_image_copy_buffer, padded_size_for_image_row,
    try_calculate_padded_size_for_image_copy_buffer,
    SingleDimensionPaddedImageBuffer, RGBA16_FLOAT_BYTES_PER_PIXEL,
};
use wgpu::TextureFormat;

#[test]
fn padded_row_is_rounded_up_to_copy_alignment() {
    assert_eq!(padded_size_for_image_row(100, 8), 1024);
    assert_eq!(padded_size_for_image_row(32, 8), 256);
    assert_eq!(padded_size_for_image_row(33, 8), 512);
    assert_eq!(padded_size_for_image_row(0, 8), 0);
    assert_eq!(padded_size_for_image_row(1, 4), 256);
}

#[test]
fn capture_row_size_for_rgba16_float() {
    assert_eq!(RGBA16_FLOAT_BYTES_PER_PIXEL, 8);
    assert_eq!(
        calculate_padded_size_for_image_copy_buffer(100, &TextureFormat::Rgba16Float),
        1024
    );
    assert_eq!(calculate_padded_size_for_image_copy_buffer(64, &TextureFormat::Rgba16Float), 512);
    assert_eq!(
        try_calculate_padded_size_for_image_copy_buffer(100, &TextureFormat::Rgba16Float),
        Some(1024)
    );
}

#[test]
fn capture_of_other_formats_is_not_supported() {
    assert_eq!(try_calculate_padded_size_for_image_copy_buffer(100, &TextureFormat::R8Unorm), None);
    assert_eq!(
        try_calculate_padded_size_for_image_copy_buffer(100, &TextureFormat::Rgba8Unorm),
        None
    );
}

#[test]
fn padded_image_lookup_uses_padded_rows() {
    let buffer = SingleDimensionPaddedImageBuffer { data: (0u32..12).map(|v| v * 10).collect(), padded_row_size: 4 };
    assert_eq!(buffer.get(1, 2), Some(90));
    assert_eq!(buffer.get(0, 0), Some(0));
    assert_eq!(buffer.get(3, 2), Some(110));
    assert_eq!(buffer.get(0, 3), None);
    assert_eq!(buffer.get(3, 3), None);
}

#[test]
fn padded_image_lookup_on_empty_buffer() {
    let buffer = SingleDimensionPaddedImageBuffer { data: Vec::new(), padded_row_size: 0 };
    assert_eq!(buffer.get(0, 0), None);
    assert_eq!(buffer.get(5, 7), None);
}
