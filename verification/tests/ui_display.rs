use std::path::PathBuf;

use rendering_engine::float_values::{FloatBits, Vec3Bits, FLOAT_ONE_BITS, FLOAT_ZERO_BITS};
use rendering_engine::ui_display::{
    get_or_warn, DisplayNumberOnUiDescription, DisplayPathOnUiDescription, FieldAttributes,
    UiDisplayDescription, UiDisplayParam, UiDisplayable,
};

fn no_attributes() -> FieldAttributes {
    FieldAttributes { min: None, max: None, fmin: None, fmax: None, valid_file_extensions: None, file_description: None }
}

#[test]
fn get_or_warn_prefers_set_value() {
    assert_eq!(get_or_warn(&Some(7), &"item".to_string(), "min", 3), 7);
    assert_eq!(get_or_warn(&None, &"item".to_string(), "min", 3), 3);
    assert_eq!(get_or_warn(&Some("a".to_string()), &"item".to_string(), "x", "b".to_string()), "a");
}

#[test]
fn float_description_is_unit_slider() {
    match FloatBits(0x4000_0000).get_ui_description() {
        UiDisplayDescription::SliderFloat(d) => {
            assert_eq!(d.value, FloatBits(0x4000_0000));
            assert_eq!(d.min, FloatBits(FLOAT_ZERO_BITS));
            assert_eq!(d.max, FloatBits(FLOAT_ONE_BITS));
        }
        _ => panic!("expected a float slider"),
    }
}

#[test]
fn integer_descriptions_are_sliders_to_ten() {
    match (-4i32).get_ui_description() {
        UiDisplayDescription::SliderInt(d) => assert_eq!((d.value, d.min, d.max), (-4, 0, 10)),
        _ => panic!("expected an int slider"),
    }
    match (u32::MAX).get_ui_description() {
        UiDisplayDescription::SliderInt(d) => assert_eq!((d.value, d.min, d.max), (-1, 0, 10)),
        _ => panic!("expected an int slider"),
    }
}

#[test]
fn bool_path_and_vector_descriptions() {
    assert!(matches!(true.get_ui_description(), UiDisplayDescription::Bool(true)));
    match PathBuf::from("assets/a.png").get_ui_description() {
        UiDisplayDescription::Path(p) => {
            assert_eq!(p.path, PathBuf::from("assets/a.png"));
            assert_eq!(p.file_type_description, "");
            assert_eq!(p.valid_file_extensions, "");
        }
        _ => panic!("expected a path"),
    }
    let zero = FloatBits(FLOAT_ZERO_BITS);
    let v = Vec3Bits { x: FloatBits(1), y: FloatBits(2), z: FloatBits(3) };
    match v.get_ui_description() {
        UiDisplayDescription::Vec3(d) => {
            assert_eq!(d.value, v);
            assert_eq!(d.min, Vec3Bits::splat(zero));
            assert_eq!(d.max, Vec3Bits::splat(zero));
        }
        _ => panic!("expected a vector"),
    }
}

#[test]
fn vec_description_lists_items_in_order() {
    match vec![3i32, 5, 8].get_ui_description() {
        UiDisplayDescription::Vector(items) => {
            assert_eq!(items.len(), 3);
            let values: Vec<i32> = items
                .iter()
                .map(|item| match item {
                    UiDisplayDescription::SliderInt(d) => d.value,
                    _ => panic!("expected int sliders"),
                })
                .collect();
            assert_eq!(values, vec![3, 5, 8]);
        }
        _ => panic!("expected a vector of items"),
    }
    let reference = &7i32;
    assert!(matches!(reference.get_ui_description(), UiDisplayDescription::SliderInt(d) if d.value == 7));
}

#[test]
fn display_param_applies_int_defaults_and_attributes() {
    let plain = UiDisplayParam::new("count".to_string(), 2i32.get_ui_description(), &no_attributes());
    assert_eq!(plain.name, "count");
    match plain.display {
        UiDisplayDescription::SliderInt(d) => assert_eq!((d.value, d.min, d.max), (2, 0, 5)),
        _ => panic!("expected an int slider"),
    }
    let attributes = FieldAttributes { min: Some(12), max: Some(25), ..no_attributes() };
    match UiDisplayParam::new("m".to_string(), 2i32.get_ui_description(), &attributes).display {
        UiDisplayDescription::SliderInt(d) => assert_eq!((d.min, d.max), (12, 25)),
        _ => panic!("expected an int slider"),
    }
}

#[test]
fn display_param_applies_float_and_vector_bounds() {
    let attributes = FieldAttributes { fmin: Some(FloatBits(7)), ..no_attributes() };
    match UiDisplayParam::new("f".to_string(), FloatBits(9).get_ui_description(), &attributes).display {
        UiDisplayDescription::SliderFloat(d) => {
            assert_eq!(d.value, FloatBits(9));
            assert_eq!(d.min, FloatBits(7));
            assert_eq!(d.max, FloatBits(FLOAT_ONE_BITS));
        }
        _ => panic!("expected a float slider"),
    }
    let v = Vec3Bits::splat(FloatBits(5));
    match UiDisplayParam::new("v".to_string(), v.get_ui_description(), &no_attributes()).display {
        UiDisplayDescription::Vec3(d) => {
            assert_eq!(d.min, Vec3Bits::splat(FloatBits(FLOAT_ZERO_BITS)));
            assert_eq!(d.max, Vec3Bits::splat(FloatBits(FLOAT_ONE_BITS)));
        }
        _ => panic!("expected a vector"),
    }
}

#[test]
fn display_param_applies_path_defaults_and_attributes() {
    let path = DisplayPathOnUiDescription {
        path: PathBuf::from("x.hdr"),
        file_type_description: String::new(),
        valid_file_extensions: String::new(),
    };
    match UiDisplayParam::new("p".to_string(), UiDisplayDescription::Path(path), &no_attributes()).display {
        UiDisplayDescription::Path(p) => {
            assert_eq!(p.path, PathBuf::from("x.hdr"));
            assert_eq!(p.file_type_description, "Dummy file");
            assert_eq!(p.valid_file_extensions, "png");
        }
        _ => panic!("expected a path"),
    }
    let attributes = FieldAttributes {
        valid_file_extensions: Some("jpg,png".to_string()),
        file_description: Some("Image".to_string()),
        ..no_attributes()
    };
    match UiDisplayParam::new("p".to_string(), PathBuf::from("y").get_ui_description(), &attributes).display {
        UiDisplayDescription::Path(p) => {
            assert_eq!(p.file_type_description, "Image");
            assert_eq!(p.valid_file_extensions, "jpg,png");
        }
        _ => panic!("expected a path"),
    }
}

#[test]
fn display_param_leaves_other_descriptions() {
    match UiDisplayParam::new("b".to_string(), UiDisplayDescription::Bool(false), &no_attributes()).display {
        UiDisplayDescription::Bool(false) => {}
        _ => panic!("expected the checkbox unchanged"),
    }
    let number = DisplayNumberOnUiDescription { value: 1, min: -3, max: 3 };
    let list = UiDisplayDescription::Vector(vec![UiDisplayDescription::SliderInt(number)]);
    match UiDisplayParam::new("l".to_string(), list, &no_attributes()).display {
        UiDisplayDescription::Vector(items) => match &items[0] {
            UiDisplayDescription::SliderInt(d) => assert_eq!((d.min, d.max), (-3, 3)),
            _ => panic!("expected the item unchanged"),
        },
        _ => panic!("expected the list unchanged"),
    }
}
