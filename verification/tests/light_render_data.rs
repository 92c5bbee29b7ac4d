use rendering_engine::light_render_data::GeneralLightRenderData;

#[test]
fn new_data_has_room_for_one_light() {
    let data = GeneralLightRenderData::new(|count| vec![0u8; count]);
    assert_eq!(data.light_count, 1);
    assert!(data.free_indices.is_empty());
    assert_eq!(data.render_resources.len(), 1);
}

#[test]
fn free_slots_are_handed_out_first_last_freed_first() {
    let mut data = GeneralLightRenderData::new(|count| count);
    data.free_indices = vec![4, 2];
    assert_eq!(data.make_resources_for_new_light(|_| panic!("no new resources expected")), 2);
    assert_eq!(data.make_resources_for_new_light(|_| panic!("no new resources expected")), 4);
    assert!(data.free_indices.is_empty());
    assert_eq!(data.render_resources, 1);
}

#[test]
fn without_free_slot_resources_grow_and_the_count_is_handed_out() {
    let mut data = GeneralLightRenderData::new(|count| count);
    assert_eq!(data.make_resources_for_new_light(|count| count), 1);
    assert_eq!(data.render_resources, 2);
    assert_eq!(data.light_count, 2);
    // the next light gets the next slot, with room made for three lights
    assert_eq!(data.make_resources_for_new_light(|count| count * 10), 2);
    assert_eq!(data.render_resources, 30);
    assert_eq!(data.light_count, 3);
}
