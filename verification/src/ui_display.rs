use vstd::prelude::*;
use std::path::PathBuf;

use crate::float_values::{FloatBits, Vec3Bits, FLOAT_ONE_BITS, FLOAT_ZERO_BITS};

verus! {

/// A number shown on the UI as a slider between `min` and `max`.
#[derive(Debug, Clone)]
pub struct DisplayNumberOnUiDescription<NumberType> {
    pub value: NumberType,
    pub min: NumberType,
    pub max: NumberType,
}

/// A path shown on the UI with a file picker.
#[derive(Debug, Clone)]
pub struct DisplayPathOnUiDescription {
    pub path: PathBuf,
    /// This will be displayed in the type of the file picker dialog
    pub file_type_description: String,
    /// Files with these extensions are accepted when trying to update the item from the UI.
    /// Added as a comma separated string sequence
    pub valid_file_extensions: String,
}

/// An enum shown on the UI: the names of its variants, the active one, and
/// the description of the data of the active variant, if it has any.
#[derive(Debug)]
pub struct DisplayEnumOnUiDescription {
    pub variants: Vec<String>,
    pub active_variant: String,
    pub active_variant_item_desc: Option<UiDisplayDescription>,
}

/// A rotation shown on the UI as an angle and an axis.
#[derive(Debug, Clone)]
pub struct DisplayRotationOnUiParams {
    pub angle: DisplayNumberOnUiDescription<FloatBits>,
    pub axis: DisplayNumberOnUiDescription<Vec3Bits>,
}

/// The attributes written on a field of a displayed struct.
pub struct FieldAttributes {
    pub min: Option<i32>,
    pub max: Option<i32>,
    pub fmin: Option<FloatBits>,
    pub fmax: Option<FloatBits>,
    pub valid_file_extensions: Option<String>,
    pub file_description: Option<String>,
}

/// A named item of a displayed struct.
#[derive(Debug)]
pub struct UiDisplayParam {
    pub name: String,
    pub display: UiDisplayDescription,
}

/// The bounds of a slider.
#[derive(Debug, Clone)]
pub struct SliderParams<NumberType> {
    pub min: NumberType,
    pub max: NumberType,
}

/// How an item is shown on the UI.
#[derive(Debug)]
pub enum UiDisplayDescription {
    SliderFloat(DisplayNumberOnUiDescription<FloatBits>),
    SliderInt(DisplayNumberOnUiDescription<i32>),
    Path(DisplayPathOnUiDescription),
    Bool(bool),
    Vec3(DisplayNumberOnUiDescription<Vec3Bits>),
    Rotation(DisplayRotationOnUiParams),
    Vector(Vec<UiDisplayDescription>),
    Struct(Vec<UiDisplayParam>),
    Enum(Box<DisplayEnumOnUiDescription>),
}

/// The value of an optional attribute, or `default` where it is not set.
pub open spec fn attribute_or<T>(value: Option<T>, default: T) -> T {
    match value {
        Some(v) => v,
        None => default,
    }
}

/// The text of an optional string attribute, or `default` where it is not set.
pub open spec fn text_attribute_or(value: Option<String>, default: Seq<char>) -> Seq<char> {
    match value {
        Some(v) => v@,
        None => default,
    }
}

/// `after` is `before` with the bounds and file settings of `attributes`
/// applied: float sliders and vectors take `fmin`/`fmax` (default 0 and 1),
/// integer sliders take `min`/`max` (default 0 and 5), paths take the file
/// description (default "Dummy file") and the extensions (default "png").
/// The other kinds of description are left as they are.
pub open spec fn applies_field_attributes(
    before: UiDisplayDescription,
    attributes: FieldAttributes,
    after: UiDisplayDescription,
) -> bool {
    match before {
        UiDisplayDescription::SliderFloat(d) => after == UiDisplayDescription::SliderFloat(
            DisplayNumberOnUiDescription {
                value: d.value,
                min: attribute_or(attributes.fmin, FloatBits(FLOAT_ZERO_BITS)),
                max: attribute_or(attributes.fmax, FloatBits(FLOAT_ONE_BITS)),
            },
        ),
        UiDisplayDescription::SliderInt(d) => after == UiDisplayDescription::SliderInt(
            DisplayNumberOnUiDescription {
                value: d.value,
                min: attribute_or(attributes.min, 0i32),
                max: attribute_or(attributes.max, 5i32),
            },
        ),
        UiDisplayDescription::Path(p) => match after {
            UiDisplayDescription::Path(q) => {
                &&& q.path == p.path
                &&& q.file_type_description@ == text_attribute_or(
                    attributes.file_description,
                    "Dummy file"@,
                )
                &&& q.valid_file_extensions@ == text_attribute_or(
                    attributes.valid_file_extensions,
                    "png"@,
                )
            },
            _ => false,
        },
        UiDisplayDescription::Vec3(d) => {
            let fmin = attribute_or(attributes.fmin, FloatBits(FLOAT_ZERO_BITS));
            let fmax = attribute_or(attributes.fmax, FloatBits(FLOAT_ONE_BITS));
            after == UiDisplayDescription::Vec3(
                DisplayNumberOnUiDescription {
                    value: d.value,
                    min: Vec3Bits { x: fmin, y: fmin, z: fmin },
                    max: Vec3Bits { x: fmax, y: fmax, z: fmax },
                },
            )
        },
        _ => after == before,
    }
}

/// An attribute that is set is what the field shows, whatever the
/// defaults: `fmin`/`fmax` bound a float slider and every component of a
/// vector, `min`/`max` bound an integer slider, and the file description
/// and extensions go to a path. The value shown stays the field's own.
pub proof fn lemma_set_attributes_are_used(
    before: UiDisplayDescription,
    attributes: FieldAttributes,
    after: UiDisplayDescription,
)
    requires
        applies_field_attributes(before, attributes, after),
    ensures
        before matches UiDisplayDescription::Vec3(b) ==> (after matches UiDisplayDescription::Vec3(d)
            && d.value == b.value && (attributes.fmin matches Some(m) ==> d.min == (Vec3Bits {
            x: m,
            y: m,
            z: m,
        })) && (attributes.fmax matches Some(m) ==> d.max == (Vec3Bits { x: m, y: m, z: m }))),
        before matches UiDisplayDescription::SliderFloat(b) ==> (after matches UiDisplayDescription::SliderFloat(d)
            && d.value == b.value && (attributes.fmin matches Some(m) ==> d.min == m)
            && (attributes.fmax matches Some(m) ==> d.max == m)),
        before matches UiDisplayDescription::SliderInt(b) ==> (after matches UiDisplayDescription::SliderInt(d)
            && d.value == b.value && (attributes.min matches Some(m) ==> d.min == m)
            && (attributes.max matches Some(m) ==> d.max == m)),
        before matches UiDisplayDescription::Path(b) ==> (after matches UiDisplayDescription::Path(p)
            && p.path == b.path && (attributes.file_description matches Some(t)
            ==> p.file_type_description@ == t@) && (attributes.valid_file_extensions matches Some(t)
            ==> p.valid_file_extensions@ == t@)),
{
}

/// The value of an optional attribute, or `default` where it is not set.
pub fn get_or_warn<T: Clone>(value: &Option<T>, name: &String, attribute: &str, default: T) -> (result: T)
    ensures
        match *value {
            Some(v) => cloned(v, result),
            None => result == default,
        },
{
    if let Some(unwrapped_value) = value {
        unwrapped_value.clone()
    } else {
        default
    }
}

impl UiDisplayParam {
    /// The named item `name`, shown as `ui_display` with the bounds and file
    /// settings of `ui_params` applied.
    pub fn new(name: String, ui_display: UiDisplayDescription, ui_params: &FieldAttributes) -> (param: Self)
        ensures
            param.name == name,
            applies_field_attributes(ui_display, *ui_params, param.display),
    {
        let display = match ui_display {
            UiDisplayDescription::SliderFloat(mut display_number_on_ui_description) => {
                display_number_on_ui_description.min = get_or_warn(&ui_params.fmin, &name, "fmin", FloatBits(FLOAT_ZERO_BITS));
                display_number_on_ui_description.max = get_or_warn(&ui_params.fmax, &name, "fmax", FloatBits(FLOAT_ONE_BITS));
                UiDisplayDescription::SliderFloat(display_number_on_ui_description)
            },
            UiDisplayDescription::SliderInt(mut display_number_on_ui_description) => {
                display_number_on_ui_description.min = get_or_warn(&ui_params.min, &name, "min", 0);
                display_number_on_ui_description.max = get_or_warn(&ui_params.max, &name, "max", 5);
                UiDisplayDescription::SliderInt(display_number_on_ui_description)
            },
            UiDisplayDescription::Path(mut display_path_on_ui_description) => {
                display_path_on_ui_description.file_type_description = get_or_warn(
                    &ui_params.file_description,
                    &name,
                    "file_description",
                    "Dummy file".to_owned(),
                );
                display_path_on_ui_description.valid_file_extensions = get_or_warn(
                    &ui_params.valid_file_extensions,
                    &name,
                    "valid_file_extensions",
                    "png".to_owned(),
                );
                UiDisplayDescription::Path(display_path_on_ui_description)
            },
            UiDisplayDescription::Vec3(mut display_vec3_on_ui_description) => {
                let fmin = get_or_warn(&ui_params.fmin, &name, "fmin", FloatBits(FLOAT_ZERO_BITS));
                let fmax = get_or_warn(&ui_params.fmax, &name, "fmax", FloatBits(FLOAT_ONE_BITS));
                display_vec3_on_ui_description.min = Vec3Bits::splat(fmin);
                display_vec3_on_ui_description.max = Vec3Bits::splat(fmax);
                UiDisplayDescription::Vec3(display_vec3_on_ui_description)
            },
            // These types don't need to set anything from the UI, only the primitive types will have things set
            other => other,
        };
        Self { name, display }
    }
}

/// A value that can be shown on the UI.
pub trait UiDisplayable {
    /// `description` is how this value is shown on the UI.
    spec fn describes(&self, description: UiDisplayDescription) -> bool;

    /// How this value is shown on the UI.
    fn get_ui_description(&self) -> (description: UiDisplayDescription)
        ensures
            self.describes(description),
    ;
}

impl UiDisplayable for FloatBits {
    /// A float is a slider from 0 to 1.
    open spec fn describes(&self, description: UiDisplayDescription) -> bool {
        description == UiDisplayDescription::SliderFloat(
            DisplayNumberOnUiDescription {
                value: *self,
                min: FloatBits(FLOAT_ZERO_BITS),
                max: FloatBits(FLOAT_ONE_BITS),
            },
        )
    }

    fn get_ui_description(&self) -> (description: UiDisplayDescription) {
        UiDisplayDescription::SliderFloat(
            DisplayNumberOnUiDescription {
                value: *self,
                min: FloatBits(FLOAT_ZERO_BITS),
                max: FloatBits(FLOAT_ONE_BITS),
            },
        )
    }
}

impl UiDisplayable for i32 {
    /// A signed integer is a slider from 0 to 10.
    open spec fn describes(&self, description: UiDisplayDescription) -> bool {
        description == UiDisplayDescription::SliderInt(
            DisplayNumberOnUiDescription { value: *self, min: 0i32, max: 10i32 },
        )
    }

    fn get_ui_description(&self) -> (description: UiDisplayDescription) {
        UiDisplayDescription::SliderInt(DisplayNumberOnUiDescription { value: *self, min: 0, max: 10 })
    }
}

impl UiDisplayable for u32 {
    /// An unsigned integer is a slider from 0 to 10, its value converted to
    /// `i32` (values above `i32::MAX` wrap around).
    open spec fn describes(&self, description: UiDisplayDescription) -> bool {
        description == UiDisplayDescription::SliderInt(
            DisplayNumberOnUiDescription { value: *self as i32, min: 0i32, max: 10i32 },
        )
    }

    fn get_ui_description(&self) -> (description: UiDisplayDescription) {
        UiDisplayDescription::SliderInt(
            DisplayNumberOnUiDescription { value: *self as i32, min: 0, max: 10 },
        )
    }
}

impl UiDisplayable for bool {
    /// A boolean is a checkbox.
    open spec fn describes(&self, description: UiDisplayDescription) -> bool {
        description == UiDisplayDescription::Bool(*self)
    }

    fn get_ui_description(&self) -> (description: UiDisplayDescription) {
        UiDisplayDescription::Bool(*self)
    }
}

impl UiDisplayable for PathBuf {
    /// A path is a file picker with empty file description and extensions.
    open spec fn describes(&self, description: UiDisplayDescription) -> bool {
        match description {
            UiDisplayDescription::Path(p) => {
                &&& p.path == *self
                &&& p.file_type_description@ == Seq::<char>::empty()
                &&& p.valid_file_extensions@ == Seq::<char>::empty()
            },
            _ => false,
        }
    }

    fn get_ui_description(&self) -> (description: UiDisplayDescription) {
        UiDisplayDescription::Path(
            DisplayPathOnUiDescription {
                path: self.clone(),
                file_type_description: String::new(),
                valid_file_extensions: String::new(),
            },
        )
    }
}

impl UiDisplayable for Vec3Bits {
    /// A vector is three sliders whose bounds are both the zero vector.
    open spec fn describes(&self, description: UiDisplayDescription) -> bool {
        let zero = FloatBits(FLOAT_ZERO_BITS);
        description == UiDisplayDescription::Vec3(
            DisplayNumberOnUiDescription {
                value: *self,
                min: Vec3Bits { x: zero, y: zero, z: zero },
                max: Vec3Bits { x: zero, y: zero, z: zero },
            },
        )
    }

    fn get_ui_description(&self) -> (description: UiDisplayDescription) {
        UiDisplayDescription::Vec3(
            DisplayNumberOnUiDescription {
                value: *self,
                min: Vec3Bits::splat(FloatBits(FLOAT_ZERO_BITS)),
                max: Vec3Bits::splat(FloatBits(FLOAT_ZERO_BITS)),
            },
        )
    }
}

impl<T: UiDisplayable> UiDisplayable for Vec<T> {
    /// A vector of items is the list of the descriptions of its items, in order.
    open spec fn describes(&self, description: UiDisplayDescription) -> bool {
        match description {
            UiDisplayDescription::Vector(items) => {
                &&& items@.len() == self@.len()
                &&& forall|i: int| 0 <= i < self@.len() ==> #[trigger] self@[i].describes(items@[i])
            },
            _ => false,
        }
    }

    fn get_ui_description(&self) -> (description: UiDisplayDescription) {
        let mut items: Vec<UiDisplayDescription> = Vec::new();
        let mut index: usize = 0;
        while index < self.len()
            invariant
                index <= self@.len(),
                items@.len() == index,
                forall|i: int| 0 <= i < index ==> #[trigger] self@[i].describes(items@[i]),
            decreases self@.len() - index,
        {
            items.push(self[index].get_ui_description());
            index = index + 1;
        }
        UiDisplayDescription::Vector(items)
    }
}

impl<'a, T: UiDisplayable> UiDisplayable for &'a T {
    /// A reference is shown as the value it refers to.
    open spec fn describes(&self, description: UiDisplayDescription) -> bool {
        (**self).describes(description)
    }

    fn get_ui_description(&self) -> (description: UiDisplayDescription) {
        (**self).get_ui_description()
    }
}

} // verus!
