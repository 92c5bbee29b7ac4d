use rendering_engine::light_layout::{
    directional_light_viewproj_offset, fixed_size_buffer_size, point_light_viewproj_offset,
    uniform_buffer_alignment, viewproj_write_offsets, LightCount, CUBE_FACE_COUNT,
};

#[test]
fn light_count_to_raw_keeps_small_counts() {
    let raw = LightCount { point: 2, directional: 1 }.to_raw();
    assert_eq!(raw.point, 2);
    assert_eq!(raw.directional, 1);
}

#[test]
fn light_count_to_raw_narrows_to_u32() {
    if usize::BITS == 64 {
        let big: usize = ((1u64 << 32) + 3) as usize;
        let raw = LightCount { point: big, directional: 7 }.to_raw();
        assert_eq!(raw.point, 3);
        assert_eq!(raw.directional, 7);
    }
}

#[test]
fn item_counts_follow_cube_faces() {
    let count = LightCount { point: 2, directional: 1 };
    assert_eq!(CUBE_FACE_COUNT, 6);
    assert_eq!(count.light_item_count(), 3);
    assert_eq!(count.viewproj_item_count(), 13);
}

#[test]
fn viewproj_offsets_are_consecutive_slots() {
    let alignment = 256u64;
    // point light 1, face 5 is slot 11
    assert_eq!(point_light_viewproj_offset(1, 5, alignment), 11 * 256);
    assert_eq!(point_light_viewproj_offset(0, 0, alignment), 0);
    // the directional lights follow the 12 faces of two point lights
    assert_eq!(directional_light_viewproj_offset(2, 0, alignment), 12 * 256);
    assert_eq!(directional_light_viewproj_offset(2, 1, alignment), 13 * 256);
    // and all of them fit in the buffer of 13 slots
    let size = fixed_size_buffer_size(alignment, LightCount { point: 2, directional: 1 }.viewproj_item_count() as u64);
    assert_eq!(size, 13 * 256);
    assert!(directional_light_viewproj_offset(2, 0, alignment) + alignment <= size);
}

#[test]
fn directional_offsets_without_point_lights_start_at_zero() {
    assert_eq!(directional_light_viewproj_offset(0, 0, 80), 0);
    assert_eq!(directional_light_viewproj_offset(0, 3, 80), 240);
}

#[test]
fn uniform_alignment_rounds_up_to_device_alignment() {
    assert_eq!(uniform_buffer_alignment(80, 256), 256);
    assert_eq!(uniform_buffer_alignment(80, 16), 80);
    assert_eq!(uniform_buffer_alignment(300, 256), 512);
    assert_eq!(uniform_buffer_alignment(0, 64), 0);
}

#[test]
fn viewproj_offsets_follow_the_write_order() {
    let offsets = viewproj_write_offsets(2, 3, 256);
    assert_eq!(offsets.len(), 15);
    assert_eq!(offsets[0], 0);
    assert_eq!(offsets[7], point_light_viewproj_offset(1, 1, 256));
    assert_eq!(offsets[12], directional_light_viewproj_offset(2, 0, 256));
    assert_eq!(offsets[14], 14 * 256);
    assert!(viewproj_write_offsets(0, 0, 256).is_empty());
}
