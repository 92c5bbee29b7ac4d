use vstd::prelude::*;
use std::path::PathBuf;

use crate::float_values::{FloatBits, QuatBits, Vec3Bits};
use crate::ui_display::{UiDisplayDescription, UiDisplayable};

verus! {

/// The attributes of a field of a struct that is set from the UI: the name
/// of a setter to call in place of the default one, and whether to skip the
/// field.
pub struct UiSetFieldAttributes {
    pub setter: Option<String>,
    pub skip: Option<bool>,
}

/// A new number set from the UI.
#[derive(Debug, Clone)]
pub struct SetNumberFromUiDescription<NumberType> {
    pub value: NumberType,
}

/// A new path set from the UI.
#[derive(Debug, Clone)]
pub struct SetPathFromUiDescription {
    pub value: PathBuf,
}

/// Step into the item at `index` of a vector.
#[derive(Debug, Clone)]
pub struct SetVecFromUiDescription {
    pub index: usize,
}

/// Step into (or switch to) the enum variant `variant_name`.
#[derive(Debug, Clone)]
pub struct SetEnumFromTheUiDescription {
    pub variant_name: String,
}

/// Step into the struct field `field_name`.
#[derive(Debug, Clone)]
pub struct SetStructFromUiDesc {
    pub field_name: String,
}

/// One step of the path from a registered item down to the value the UI
/// changed: either a step into a vector, struct or enum, or the new value
/// of a primitive.
#[derive(Debug)]
pub enum SetPropertyFromUiDescription {
    Float(SetNumberFromUiDescription<FloatBits>),
    Int(SetNumberFromUiDescription<i32>),
    Bool(bool),
    Path(SetPathFromUiDescription),
    Vec3(Vec3Bits),
    Rotation(QuatBits),
    Vec(SetVecFromUiDescription),
    Struct(SetStructFromUiDesc),
    Enum(SetEnumFromTheUiDescription),
}

impl Clone for SetPropertyFromUiDescription {
    fn clone(&self) -> (copy: Self)
        ensures
            copy == *self,
    {
        match self {
            SetPropertyFromUiDescription::Float(p) => SetPropertyFromUiDescription::Float(
                SetNumberFromUiDescription { value: p.value },
            ),
            SetPropertyFromUiDescription::Int(p) => SetPropertyFromUiDescription::Int(
                SetNumberFromUiDescription { value: p.value },
            ),
            SetPropertyFromUiDescription::Bool(b) => SetPropertyFromUiDescription::Bool(*b),
            SetPropertyFromUiDescription::Path(p) => SetPropertyFromUiDescription::Path(
                SetPathFromUiDescription { value: p.value.clone() },
            ),
            SetPropertyFromUiDescription::Vec3(v) => SetPropertyFromUiDescription::Vec3(*v),
            SetPropertyFromUiDescription::Rotation(q) => SetPropertyFromUiDescription::Rotation(*q),
            SetPropertyFromUiDescription::Vec(p) => SetPropertyFromUiDescription::Vec(
                SetVecFromUiDescription { index: p.index },
            ),
            SetPropertyFromUiDescription::Struct(p) => SetPropertyFromUiDescription::Struct(
                SetStructFromUiDesc { field_name: p.field_name.clone() },
            ),
            SetPropertyFromUiDescription::Enum(p) => SetPropertyFromUiDescription::Enum(
                SetEnumFromTheUiDescription { variant_name: p.variant_name.clone() },
            ),
        }
    }
}

/// A primitive whose value can be read off the first step of a path.
pub trait CustomUiSettablePrimitive: Sized {
    /// The value the first step of `params` carries for this type, if it
    /// carries one of this type at all.
    spec fn raw_value(params: Seq<SetPropertyFromUiDescription>) -> Option<Self>;

    /// The value the first step of `params` carries.
    fn get_raw_value(params: &[SetPropertyFromUiDescription]) -> (value: Self)
        requires
            Self::raw_value(params@) is Some,
        ensures
            Self::raw_value(params@) == Some(value),
    ;
}

/// A value that can be updated from the UI along a path of steps.
pub trait UiSettableNew: Sized {
    /// The path `params` leads to a value of the right kind inside this value.
    spec fn accepts(&self, params: Seq<SetPropertyFromUiDescription>) -> bool;

    /// `updated` is this value after the change that `params` describes.
    spec fn updated_by(&self, params: Seq<SetPropertyFromUiDescription>, updated: Self) -> bool;

    /// Applies the change that `params` describes.
    fn set_value_from_ui(&mut self, params: &[SetPropertyFromUiDescription])
        requires
            old(self).accepts(params@),
        ensures
            old(self).updated_by(params@, *final(self)),
    ;
}

impl CustomUiSettablePrimitive for FloatBits {
    open spec fn raw_value(params: Seq<SetPropertyFromUiDescription>) -> Option<Self> {
        if params.len() > 0 {
            match params[0] {
                SetPropertyFromUiDescription::Float(p) => Some(p.value),
                _ => None,
            }
        } else {
            None
        }
    }

    fn get_raw_value(value: &[SetPropertyFromUiDescription]) -> (v: Self) {
        match &value[0] {
            SetPropertyFromUiDescription::Float(params) => params.value,
            _ => vstd::pervasive::unreached(),
        }
    }
}

impl UiSettableNew for FloatBits {
    open spec fn accepts(&self, params: Seq<SetPropertyFromUiDescription>) -> bool {
        Self::raw_value(params) is Some
    }

    open spec fn updated_by(&self, params: Seq<SetPropertyFromUiDescription>, updated: Self) -> bool {
        Self::raw_value(params) == Some(updated)
    }

    fn set_value_from_ui(&mut self, value: &[SetPropertyFromUiDescription]) {
        *self = Self::get_raw_value(value);
    }
}


impl CustomUiSettablePrimitive for u32 {
    open spec fn raw_value(params: Seq<SetPropertyFromUiDescription>) -> Option<Self> {
        if params.len() > 0 {
            match params[0] {
                SetPropertyFromUiDescription::Int(p) => Some(p.value as u32),
                _ => None,
            }
        } else {
            None
        }
    }

    fn get_raw_value(value: &[SetPropertyFromUiDescription]) -> (v: Self) {
        match &value[0] {
            SetPropertyFromUiDescription::Int(p) => p.value as u32,
            _ => vstd::pervasive::unreached(),
        }
    }
}

impl UiSettableNew for u32 {
    /// An unsigned integer is set from an integer step, converted with `as u32`.
    open spec fn accepts(&self, params: Seq<SetPropertyFromUiDescription>) -> bool {
        Self::raw_value(params) is Some
    }

    open spec fn updated_by(&self, params: Seq<SetPropertyFromUiDescription>, updated: Self) -> bool {
        Self::raw_value(params) == Some(updated)
    }

    fn set_value_from_ui(&mut self, value: &[SetPropertyFromUiDescription]) {
        *self = Self::get_raw_value(value);
    }
}

impl CustomUiSettablePrimitive for i32 {
    open spec fn raw_value(params: Seq<SetPropertyFromUiDescription>) -> Option<Self> {
        if params.len() > 0 {
            match params[0] {
                SetPropertyFromUiDescription::Int(p) => Some(p.value),
                _ => None,
            }
        } else {
            None
        }
    }

    fn get_raw_value(value: &[SetPropertyFromUiDescription]) -> (v: Self) {
        match &value[0] {
            SetPropertyFromUiDescription::Int(p) => p.value,
            _ => vstd::pervasive::unreached(),
        }
    }
}

impl UiSettableNew for i32 {
    /// A signed integer is set from an integer step.
    open spec fn accepts(&self, params: Seq<SetPropertyFromUiDescription>) -> bool {
        Self::raw_value(params) is Some
    }

    open spec fn updated_by(&self, params: Seq<SetPropertyFromUiDescription>, updated: Self) -> bool {
        Self::raw_value(params) == Some(updated)
    }

    fn set_value_from_ui(&mut self, value: &[SetPropertyFromUiDescription]) {
        *self = Self::get_raw_value(value);
    }
}

impl CustomUiSettablePrimitive for bool {
    open spec fn raw_value(params: Seq<SetPropertyFromUiDescription>) -> Option<Self> {
        if params.len() > 0 {
            match params[0] {
                SetPropertyFromUiDescription::Bool(b) => Some(b),
                _ => None,
            }
        } else {
            None
        }
    }

    fn get_raw_value(value: &[SetPropertyFromUiDescription]) -> (v: Self) {
        match &value[0] {
            SetPropertyFromUiDescription::Bool(b) => *b,
            _ => vstd::pervasive::unreached(),
        }
    }
}

impl UiSettableNew for bool {
    /// A boolean is set from a boolean step.
    open spec fn accepts(&self, params: Seq<SetPropertyFromUiDescription>) -> bool {
        Self::raw_value(params) is Some
    }

    open spec fn updated_by(&self, params: Seq<SetPropertyFromUiDescription>, updated: Self) -> bool {
        Self::raw_value(params) == Some(updated)
    }

    fn set_value_from_ui(&mut self, value: &[SetPropertyFromUiDescription]) {
        *self = Self::get_raw_value(value);
    }
}

impl CustomUiSettablePrimitive for Vec3Bits {
    open spec fn raw_value(params: Seq<SetPropertyFromUiDescription>) -> Option<Self> {
        if params.len() > 0 {
            match params[0] {
                SetPropertyFromUiDescription::Vec3(v) => Some(v),
                _ => None,
            }
        } else {
            None
        }
    }

    fn get_raw_value(value: &[SetPropertyFromUiDescription]) -> (v: Self) {
        match &value[0] {
            SetPropertyFromUiDescription::Vec3(v) => *v,
            _ => vstd::pervasive::unreached(),
        }
    }
}

impl UiSettableNew for Vec3Bits {
    /// A vector is set from a vector step.
    open spec fn accepts(&self, params: Seq<SetPropertyFromUiDescription>) -> bool {
        Self::raw_value(params) is Some
    }

    open spec fn updated_by(&self, params: Seq<SetPropertyFromUiDescription>, updated: Self) -> bool {
        Self::raw_value(params) == Some(updated)
    }

    fn set_value_from_ui(&mut self, value: &[SetPropertyFromUiDescription]) {
        *self = Self::get_raw_value(value);
    }
}

impl CustomUiSettablePrimitive for QuatBits {
    open spec fn raw_value(params: Seq<SetPropertyFromUiDescription>) -> Option<Self> {
        if params.len() > 0 {
            match params[0] {
                SetPropertyFromUiDescription::Rotation(q) => Some(q),
                _ => None,
            }
        } else {
            None
        }
    }

    fn get_raw_value(value: &[SetPropertyFromUiDescription]) -> (v: Self) {
        match &value[0] {
            SetPropertyFromUiDescription::Rotation(q) => *q,
            _ => vstd::pervasive::unreached(),
        }
    }
}

impl UiSettableNew for QuatBits {
    /// A rotation is set from a rotation step.
    open spec fn accepts(&self, params: Seq<SetPropertyFromUiDescription>) -> bool {
        Self::raw_value(params) is Some
    }

    open spec fn updated_by(&self, params: Seq<SetPropertyFromUiDescription>, updated: Self) -> bool {
        Self::raw_value(params) == Some(updated)
    }

    fn set_value_from_ui(&mut self, value: &[SetPropertyFromUiDescription]) {
        *self = Self::get_raw_value(value);
    }
}

impl CustomUiSettablePrimitive for PathBuf {
    open spec fn raw_value(params: Seq<SetPropertyFromUiDescription>) -> Option<Self> {
        if params.len() > 0 {
            match params[0] {
                SetPropertyFromUiDescription::Path(p) => Some(p.value),
                _ => None,
            }
        } else {
            None
        }
    }

    fn get_raw_value(value: &[SetPropertyFromUiDescription]) -> (v: Self) {
        match &value[0] {
            SetPropertyFromUiDescription::Path(p) => p.value.clone(),
            _ => vstd::pervasive::unreached(),
        }
    }
}

impl UiSettableNew for PathBuf {
    /// A path is set from a path step.
    open spec fn accepts(&self, params: Seq<SetPropertyFromUiDescription>) -> bool {
        Self::raw_value(params) is Some
    }

    open spec fn updated_by(&self, params: Seq<SetPropertyFromUiDescription>, updated: Self) -> bool {
        Self::raw_value(params) == Some(updated)
    }

    fn set_value_from_ui(&mut self, value: &[SetPropertyFromUiDescription]) {
        *self = Self::get_raw_value(value);
    }
}

impl<T: UiSettableNew> UiSettableNew for Vec<T> {
    /// A vector is changed through a step into one of its items, followed by
    /// the path into that item.
    open spec fn accepts(&self, params: Seq<SetPropertyFromUiDescription>) -> bool {
        &&& params.len() > 0
        &&& match params[0] {
            SetPropertyFromUiDescription::Vec(p) => {
                &&& p.index < self@.len()
                &&& self@[p.index as int].accepts(params.subrange(1, params.len() as int))
            },
            _ => false,
        }
    }

    /// Only the item the first step names changes; the others and the length stay.
    open spec fn updated_by(&self, params: Seq<SetPropertyFromUiDescription>, updated: Self) -> bool {
        match params[0] {
            SetPropertyFromUiDescription::Vec(p) => {
                &&& updated@.len() == self@.len()
                &&& forall|j: int|
                    0 <= j < self@.len() && j != p.index ==> #[trigger] updated@[j] == self@[j]
                &&& self@[p.index as int].updated_by(
                    params.subrange(1, params.len() as int),
                    updated@[p.index as int],
                )
            },
            _ => false,
        }
    }

    fn set_value_from_ui(&mut self, value: &[SetPropertyFromUiDescription]) {
        if let SetPropertyFromUiDescription::Vec(params) = &value[0] {
            if self.len() > params.index {
                self[params.index].set_value_from_ui(&value[1..value.len()]);
            } else {
                vstd::pervasive::unreached::<()>();
            }
        } else {
            vstd::pervasive::unreached::<()>();
        }
    }
}

/// The change a slider or checkbox reports when it shows `description` and
/// the user leaves it at its value; `None` for other kinds of description.
pub open spec fn step_for_shown_value(description: UiDisplayDescription) -> Option<SetPropertyFromUiDescription> {
    match description {
        UiDisplayDescription::SliderFloat(d) => Some(
            SetPropertyFromUiDescription::Float(SetNumberFromUiDescription { value: d.value }),
        ),
        UiDisplayDescription::SliderInt(d) => Some(
            SetPropertyFromUiDescription::Int(SetNumberFromUiDescription { value: d.value }),
        ),
        UiDisplayDescription::Bool(b) => Some(SetPropertyFromUiDescription::Bool(b)),
        UiDisplayDescription::Vec3(d) => Some(SetPropertyFromUiDescription::Vec3(d.value)),
        _ => None,
    }
}

/// The change a slider or checkbox reports sets a value of its kind to
/// exactly the value it shows, whatever the slider's bounds: an integer
/// slider sets any `i32` to its value, a float slider any float, a vector
/// slider any vector, a checkbox any `bool`. The change is accepted by every
/// value of that kind. Other kinds of description report no such change.
pub proof fn lemma_shown_value_step_sets_that_value(description: UiDisplayDescription)
    ensures
        description matches UiDisplayDescription::SliderInt(d) ==> (step_for_shown_value(description) matches Some(step)
            && forall|y: i32, z: i32|
            #![trigger y.updated_by(seq![step], z)]
            y.accepts(seq![step]) && (y.updated_by(seq![step], z) <==> z == d.value)),
        description matches UiDisplayDescription::SliderFloat(d) ==> (step_for_shown_value(description) matches Some(step)
            && forall|y: FloatBits, z: FloatBits|
            #![trigger y.updated_by(seq![step], z)]
            y.accepts(seq![step]) && (y.updated_by(seq![step], z) <==> z == d.value)),
        description matches UiDisplayDescription::Vec3(d) ==> (step_for_shown_value(description) matches Some(step)
            && forall|y: Vec3Bits, z: Vec3Bits|
            #![trigger y.updated_by(seq![step], z)]
            y.accepts(seq![step]) && (y.updated_by(seq![step], z) <==> z == d.value)),
        description matches UiDisplayDescription::Bool(b) ==> (step_for_shown_value(description) matches Some(step)
            && forall|y: bool, z: bool|
            #![trigger y.updated_by(seq![step], z)]
            y.accepts(seq![step]) && (y.updated_by(seq![step], z) <==> z == b)),
        !(description is SliderInt || description is SliderFloat || description is Vec3
            || description is Bool) ==> step_for_shown_value(description) is None,
{
    if let Some(step) = step_for_shown_value(description) {
        assert(seq![step][0] == step);
    }
}

/// Setting an unsigned integer from the value its slider shows gives the
/// integer back, also where the shown `i32` wrapped around.
pub proof fn lemma_u32_shown_value_round_trip(x: u32, description: UiDisplayDescription)
    requires
        x.describes(description),
    ensures
        step_for_shown_value(description) matches Some(step) && x.accepts(seq![step])
            && x.updated_by(seq![step], x),
{
    let step = step_for_shown_value(description)->0;
    assert(((x as i32) as u32) == x) by (bit_vector);
    assert(seq![step][0] == step);
}

/// Setting a signed integer from the value its slider shows gives it back.
pub proof fn lemma_i32_shown_value_round_trip(x: i32, description: UiDisplayDescription)
    requires
        x.describes(description),
    ensures
        step_for_shown_value(description) matches Some(step) && x.accepts(seq![step])
            && x.updated_by(seq![step], x),
{
    let step = step_for_shown_value(description)->0;
    assert(seq![step][0] == step);
}

/// Setting a boolean from the state its checkbox shows gives it back.
pub proof fn lemma_bool_shown_value_round_trip(x: bool, description: UiDisplayDescription)
    requires
        x.describes(description),
    ensures
        step_for_shown_value(description) matches Some(step) && x.accepts(seq![step])
            && x.updated_by(seq![step], x),
{
    let step = step_for_shown_value(description)->0;
    assert(seq![step][0] == step);
}

/// Setting a float from the value its slider shows gives it back.
pub proof fn lemma_float_shown_value_round_trip(x: FloatBits, description: UiDisplayDescription)
    requires
        x.describes(description),
    ensures
        step_for_shown_value(description) matches Some(step) && x.accepts(seq![step])
            && x.updated_by(seq![step], x),
{
    let step = step_for_shown_value(description)->0;
    assert(seq![step][0] == step);
}

/// Setting a vector from the value its sliders show gives it back.
pub proof fn lemma_vec3_shown_value_round_trip(x: Vec3Bits, description: UiDisplayDescription)
    requires
        x.describes(description),
    ensures
        step_for_shown_value(description) matches Some(step) && x.accepts(seq![step])
            && x.updated_by(seq![step], x),
{
    let step = step_for_shown_value(description)->0;
    assert(seq![step][0] == step);
}

} // verus!
