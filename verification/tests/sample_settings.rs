use std::path::PathBuf;

use rendering_engine::float_values::FloatBits;
use rendering_engine::gui::{child_changes, leaf_change, SetItemFromUiParams};
use rendering_engine::sample_settings::{Alma, Embedded, Test, TWELVE_BITS, TWENTY_FIVE_BITS};
use rendering_engine::ui_display::{UiDisplayDescription, UiDisplayable};
use rendering_engine::ui_setting::{
    SetNumberFromUiDescription, SetPathFromUiDescription, SetPropertyFromUiDescription,
    SetStructFromUiDesc, UiSettableNew,
};

fn field(name: &str) -> SetPropertyFromUiDescription {
    SetPropertyFromUiDescription::Struct(SetStructFromUiDesc { field_name: name.to_string() })
}

fn sample() -> Test {
    Test {
        member1: FloatBits(15.5f32.to_bits()),
        member2: 20,
        embedded: Embedded { member1: 3, path: PathBuf::from("a.png") },
    }
}

#[test]
fn float_bound_constants() {
    assert_eq!(f32::from_bits(TWELVE_BITS), 12.0);
    assert_eq!(f32::from_bits(TWENTY_FIVE_BITS), 25.0);
}

#[test]
fn struct_description_lists_fields_with_attributes() {
    let description = sample().get_ui_description();
    let UiDisplayDescription::Struct(params) = description else { panic!("expected a struct") };
    assert_eq!(params.len(), 3);
    assert_eq!(params[0].name, "member1");
    match &params[0].display {
        UiDisplayDescription::SliderFloat(d) => {
            assert_eq!(f32::from_bits(d.value.0), 15.5);
            assert_eq!(f32::from_bits(d.min.0), 12.0);
            assert_eq!(f32::from_bits(d.max.0), 25.0);
        }
        _ => panic!("expected a float slider"),
    }
    assert_eq!(params[1].name, "member2");
    match &params[1].display {
        UiDisplayDescription::SliderInt(d) => assert_eq!((d.value, d.min, d.max), (20, 12, 25)),
        _ => panic!("expected an integer slider"),
    }
    assert_eq!(params[2].name, "embedded");
    let UiDisplayDescription::Struct(inner) = &params[2].display else { panic!("expected a struct") };
    assert_eq!(inner.len(), 2);
    assert_eq!(inner[0].name, "member1");
    match &inner[0].display {
        // the float bound does not apply to an integer slider
        UiDisplayDescription::SliderInt(d) => assert_eq!((d.value, d.min, d.max), (3, 0, 5)),
        _ => panic!("expected an integer slider"),
    }
    assert_eq!(inner[1].name, "path");
    match &inner[1].display {
        UiDisplayDescription::Path(p) => {
            assert_eq!(p.path, PathBuf::from("a.png"));
            assert_eq!(p.file_type_description, "Dummy file");
            assert_eq!(p.valid_file_extensions, "jpg,png");
        }
        _ => panic!("expected a path"),
    }
}

#[test]
fn enum_description_names_variants() {
    let UiDisplayDescription::Enum(with_data) = Alma::Variant1(sample()).get_ui_description() else {
        panic!("expected an enum")
    };
    assert_eq!(with_data.variants, vec!["Variant1".to_string(), "Variant2".to_string()]);
    assert_eq!(with_data.active_variant, "");
    assert!(matches!(with_data.active_variant_item_desc, Some(UiDisplayDescription::Struct(ref p)) if p.len() == 3));
    let UiDisplayDescription::Enum(without_data) = Alma::Variant2.get_ui_description() else {
        panic!("expected an enum")
    };
    assert!(without_data.active_variant_item_desc.is_none());
}

#[test]
fn setting_a_field_changes_only_that_field() {
    let mut value = sample();
    value.set_value_from_ui(&[
        field("member2"),
        SetPropertyFromUiDescription::Int(SetNumberFromUiDescription { value: 13 }),
    ]);
    assert_eq!(value.member2, 13);
    assert_eq!(f32::from_bits(value.member1.0), 15.5);
    assert_eq!(value.embedded.member1, 3);
}

#[test]
fn setting_a_nested_field() {
    let mut value = sample();
    value.set_value_from_ui(&[
        field("embedded"),
        field("path"),
        SetPropertyFromUiDescription::Path(SetPathFromUiDescription { value: PathBuf::from("b.jpg") }),
    ]);
    assert_eq!(value.embedded.path, PathBuf::from("b.jpg"));
    assert_eq!(value.embedded.member1, 3);
    assert_eq!(value.member2, 20);
}

#[test]
fn defaults_are_zero() {
    let value = Test::default();
    assert_eq!(value.member1, FloatBits(0));
    assert_eq!(value.member2, 0);
    assert_eq!(value.embedded.member1, 0);
    assert_eq!(value.embedded.path, PathBuf::new());
}

#[test]
fn path_built_through_nested_struct_sets_exactly_that_leaf() {
    let mut value = sample();
    let base = SetItemFromUiParams { category: "test".to_string(), item_setting_breadcrumbs: vec![] };
    let shown = value.get_ui_description();
    let embedded_change = &child_changes(&shown, &base)[2];
    let UiDisplayDescription::Struct(params) = &shown else { panic!("expected a struct") };
    let counter_change = &child_changes(&params[2].display, embedded_change)[0];
    let new_value: u32 = 4;
    let change = leaf_change(&new_value.get_ui_description(), counter_change).unwrap();
    value.set_value_from_ui(&change.item_setting_breadcrumbs);
    assert_eq!(value.embedded.member1, 4);
    assert_eq!(value.embedded.path, PathBuf::from("a.png"));
    assert_eq!(value.member2, 20);
    assert_eq!(f32::from_bits(value.member1.0), 15.5);
}
