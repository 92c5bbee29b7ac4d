use vstd::prelude::*;
use std::path::PathBuf;

use crate::float_values::FloatBits;

verus! {

/// A number shown on the UI between `min` and `max` (first form of the UI
/// item descriptions).
pub struct DisplayNumberOnUiDescription<NumberType> {
    pub value: NumberType,
    pub min: NumberType,
    pub max: NumberType,
}

/// A path shown on the UI (first form of the UI item descriptions).
pub struct DisplayPathOnUiDescription {
    pub path: PathBuf,
    /// This will be displayed in the type of the file picker dialog
    pub file_type_description: String,
    /// Files with these extensions are accepted when trying to update the item from the UI
    pub valid_extensions: Vec<String>,
}

/// How an item is shown on the UI (first form).
pub enum UiDisplayDescription {
    Float(DisplayNumberOnUiDescription<FloatBits>),
    UInt(DisplayNumberOnUiDescription<u32>),
    Path(DisplayPathOnUiDescription),
}

/// A new number set from the UI (first form).
pub struct SetNumberFromUiDescription<NumberType> {
    pub value: NumberType,
}

/// A new value set from the UI (first form).
pub enum SetPropertyFromUiDescription {
    Float(SetNumberFromUiDescription<FloatBits>),
    UInt(SetNumberFromUiDescription<u32>),
}

/// A named new value set from the UI (first form).
pub struct SetPropertyFromUiParams {
    pub name: String,
    pub value: SetPropertyFromUiDescription,
}

/// A named item shown on the UI (first form).
pub struct UiDisplayParam {
    pub name: String,
    pub value: UiDisplayDescription,
}

/// A value that can be set from the UI by name (first form).
pub trait UiSettable {
    fn try_set_value_from_ui(&mut self, params: SetPropertyFromUiParams) -> bool;
}

/// A value that can be shown on the UI as a list of named items (first form).
pub trait UiDisplayable {
    fn get_ui_description(&self) -> Vec<UiDisplayParam>;
}

} // verus!
