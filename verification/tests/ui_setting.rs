use std::path::PathBuf;

use rendering_engine::float_values::{FloatBits, QuatBits, Vec3Bits};
use rendering_engine::ui_display::{UiDisplayDescription, UiDisplayable};
use rendering_engine::ui_setting::{
    CustomUiSettablePrimitive, SetNumberFromUiDescription, SetPathFromUiDescription,
    SetPropertyFromUiDescription, SetStructFromUiDesc, SetVecFromUiDescription, UiSettableNew,
};

fn int_step(value: i32) -> SetPropertyFromUiDescription {
    SetPropertyFromUiDescription::Int(SetNumberFromUiDescription { value })
}

#[test]
fn primitives_take_the_value_of_the_step() {
    let mut a = 1i32;
    a.set_value_from_ui(&[int_step(-9)]);
    assert_eq!(a, -9);

    let mut b = 1u32;
    b.set_value_from_ui(&[int_step(42)]);
    assert_eq!(b, 42);

    let mut c = false;
    c.set_value_from_ui(&[SetPropertyFromUiDescription::Bool(true)]);
    assert!(c);

    let mut f = FloatBits(0);
    f.set_value_from_ui(&[SetPropertyFromUiDescription::Float(SetNumberFromUiDescription { value: FloatBits(0x3f80_0000) })]);
    assert_eq!(f, FloatBits(0x3f80_0000));

    let mut v = Vec3Bits::splat(FloatBits(0));
    let target = Vec3Bits { x: FloatBits(1), y: FloatBits(2), z: FloatBits(3) };
    v.set_value_from_ui(&[SetPropertyFromUiDescription::Vec3(target)]);
    assert_eq!(v, target);

    let mut q = QuatBits { x: FloatBits(0), y: FloatBits(0), z: FloatBits(0), w: FloatBits(0) };
    let rotation = QuatBits { x: FloatBits(4), y: FloatBits(3), z: FloatBits(2), w: FloatBits(1) };
    q.set_value_from_ui(&[SetPropertyFromUiDescription::Rotation(rotation)]);
    assert_eq!(q, rotation);

    let mut p = PathBuf::from("old.png");
    p.set_value_from_ui(&[SetPropertyFromUiDescription::Path(SetPathFromUiDescription { value: PathBuf::from("new.png") })]);
    assert_eq!(p, PathBuf::from("new.png"));
}

#[test]
fn unsigned_integer_from_negative_step_wraps() {
    let mut b = 0u32;
    b.set_value_from_ui(&[int_step(-1)]);
    assert_eq!(b, u32::MAX);
    assert_eq!(u32::get_raw_value(&[int_step(-2)]), u32::MAX - 1);
}

#[test]
fn raw_values_read_the_first_step_only() {
    let steps = [int_step(5), int_step(6)];
    assert_eq!(i32::get_raw_value(&steps), 5);
    assert!(bool::get_raw_value(&[SetPropertyFromUiDescription::Bool(true), SetPropertyFromUiDescription::Bool(false)]));
    assert_eq!(FloatBits::get_raw_value(&[SetPropertyFromUiDescription::Float(SetNumberFromUiDescription { value: FloatBits(9) })]), FloatBits(9));
}

#[test]
fn vector_item_is_set_through_index_step() {
    let mut items = vec![1i32, 2, 3];
    items.set_value_from_ui(&[
        SetPropertyFromUiDescription::Vec(SetVecFromUiDescription { index: 1 }),
        int_step(20),
    ]);
    assert_eq!(items, vec![1, 20, 3]);
}

#[test]
fn nested_vectors_follow_the_whole_path() {
    let mut grid = vec![vec![false, false], vec![false, false]];
    grid.set_value_from_ui(&[
        SetPropertyFromUiDescription::Vec(SetVecFromUiDescription { index: 1 }),
        SetPropertyFromUiDescription::Vec(SetVecFromUiDescription { index: 0 }),
        SetPropertyFromUiDescription::Bool(true),
    ]);
    assert_eq!(grid, vec![vec![false, false], vec![true, false]]);
}

#[test]
fn shown_values_set_back_give_the_values() {
    for value in [0u32, 7, i32::MAX as u32, i32::MAX as u32 + 1, u32::MAX] {
        let shown = match value.get_ui_description() {
            UiDisplayDescription::SliderInt(d) => d.value,
            _ => panic!("expected an int slider"),
        };
        let mut copy = 0u32;
        copy.set_value_from_ui(&[int_step(shown)]);
        assert_eq!(copy, value);
    }
    let mut flag = true;
    if let UiDisplayDescription::Bool(shown) = false.get_ui_description() {
        flag.set_value_from_ui(&[SetPropertyFromUiDescription::Bool(shown)]);
    }
    assert!(!flag);
}

#[test]
fn steps_clone_to_equal_steps() {
    let step = SetPropertyFromUiDescription::Struct(SetStructFromUiDesc { field_name: "albedo".to_string() });
    match step.clone() {
        SetPropertyFromUiDescription::Struct(s) => assert_eq!(s.field_name, "albedo"),
        _ => panic!("expected the same kind of step"),
    }
}
