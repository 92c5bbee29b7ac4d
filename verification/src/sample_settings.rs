use vstd::prelude::*;
use std::path::PathBuf;

use crate::float_values::{FloatBits, FLOAT_ZERO_BITS};
use crate::ui_display::{
    DisplayEnumOnUiDescription, DisplayNumberOnUiDescription, FieldAttributes, UiDisplayDescription,
    UiDisplayParam, UiDisplayable,
};
use crate::gui::child_step;
use crate::ui_setting::{
    step_for_shown_value, CustomUiSettablePrimitive, SetPropertyFromUiDescription, SetStructFromUiDesc,
    UiSettableNew,
};

verus! {

/// `PathBuf::new`: an empty path. Nothing is stated of it: `PathBuf` is
/// opaque here.
pub assume_specification[ PathBuf::new ]() -> PathBuf;

/// The bit pattern of `12.0`.
pub const TWELVE_BITS: u32 = 0x4140_0000u32;

/// The bit pattern of `25.0`.
pub const TWENTY_FIVE_BITS: u32 = 0x41c8_0000u32;

/// Settings nested in `Test`: a counter, shown with the float bound
/// `fmax = 25.0` (which an integer slider ignores), and an image path that
/// accepts `jpg` and `png` files.
pub struct Embedded {
    pub member1: u32,
    pub path: PathBuf,
}

/// Settings with a float between 12 and 25, an integer between 12 and 25,
/// and a nested struct.
pub struct Test {
    pub member1: FloatBits,
    pub member2: i32,
    pub embedded: Embedded,
}

/// A choice between settings and nothing.
pub enum Alma {
    Variant1(Test),
    Variant2,
}

/// Whether `name` is the text `field`.
fn names_field(name: &String, field: &str) -> (same: bool)
    ensures
        same == (name@ == field@),
{
    *name == field.to_owned()
}

impl Default for Embedded {
    fn default() -> (value: Self)
        ensures
            value.member1 == 0,
    {
        Embedded { member1: 0, path: PathBuf::new() }
    }
}

impl Default for Test {
    fn default() -> (value: Self)
        ensures
            value.member1 == FloatBits(FLOAT_ZERO_BITS),
            value.member2 == 0,
            value.embedded.member1 == 0,
    {
        Test { member1: FloatBits(FLOAT_ZERO_BITS), member2: 0, embedded: Embedded::default() }
    }
}

impl UiDisplayable for Embedded {
    /// Two items: `member1` as an integer slider from 0 to 5 (the default
    /// integer bounds; `fmax` does not apply to it), and `path` as a file
    /// picker for "jpg,png" files with the default file description.
    open spec fn describes(&self, description: UiDisplayDescription) -> bool {
        match description {
            UiDisplayDescription::Struct(params) => {
                &&& params@.len() == 2
                &&& params@[0].name@ == "member1"@
                &&& params@[0].display == UiDisplayDescription::SliderInt(
                    DisplayNumberOnUiDescription { value: self.member1 as i32, min: 0i32, max: 5i32 },
                )
                &&& params@[1].name@ == "path"@
                &&& params@[1].display matches UiDisplayDescription::Path(p) && p.path == self.path
                    && p.file_type_description@ == "Dummy file"@ && p.valid_file_extensions@
                    == "jpg,png"@
            },
            _ => false,
        }
    }

    fn get_ui_description(&self) -> (description: UiDisplayDescription) {
        let mut ui_params: Vec<UiDisplayParam> = Vec::new();
        let ui_desc = self.member1.get_ui_description();
        let field_params = FieldAttributes {
            min: None,
            max: None,
            fmin: None,
            fmax: Some(FloatBits(TWENTY_FIVE_BITS)),
            valid_file_extensions: None,
            file_description: None,
        };
        ui_params.push(UiDisplayParam::new("member1".to_owned(), ui_desc, &field_params));
        let ui_desc = self.path.get_ui_description();
        let field_params = FieldAttributes {
            min: None,
            max: None,
            fmin: None,
            fmax: None,
            valid_file_extensions: Some("jpg,png".to_owned()),
            file_description: None,
        };
        ui_params.push(UiDisplayParam::new("path".to_owned(), ui_desc, &field_params));
        UiDisplayDescription::Struct(ui_params)
    }
}

impl UiDisplayable for Test {
    /// Three items: `member1` as a float slider from 12 to 25, `member2` as
    /// an integer slider from 12 to 25, and `embedded` as it describes
    /// itself.
    open spec fn describes(&self, description: UiDisplayDescription) -> bool {
        match description {
            UiDisplayDescription::Struct(params) => {
                &&& params@.len() == 3
                &&& params@[0].name@ == "member1"@
                &&& params@[0].display == UiDisplayDescription::SliderFloat(
                    DisplayNumberOnUiDescription {
                        value: self.member1,
                        min: FloatBits(TWELVE_BITS),
                        max: FloatBits(TWENTY_FIVE_BITS),
                    },
                )
                &&& params@[1].name@ == "member2"@
                &&& params@[1].display == UiDisplayDescription::SliderInt(
                    DisplayNumberOnUiDescription { value: self.member2, min: 12i32, max: 25i32 },
                )
                &&& params@[2].name@ == "embedded"@
                &&& self.embedded.describes(params@[2].display)
            },
            _ => false,
        }
    }

    fn get_ui_description(&self) -> (description: UiDisplayDescription) {
        let mut ui_params: Vec<UiDisplayParam> = Vec::new();
        let ui_desc = self.member1.get_ui_description();
        let field_params = FieldAttributes {
            min: None,
            max: None,
            fmin: Some(FloatBits(TWELVE_BITS)),
            fmax: Some(FloatBits(TWENTY_FIVE_BITS)),
            valid_file_extensions: None,
            file_description: None,
        };
        ui_params.push(UiDisplayParam::new("member1".to_owned(), ui_desc, &field_params));
        let ui_desc = self.member2.get_ui_description();
        let field_params = FieldAttributes {
            min: Some(12),
            max: Some(25),
            fmin: None,
            fmax: None,
            valid_file_extensions: None,
            file_description: None,
        };
        ui_params.push(UiDisplayParam::new("member2".to_owned(), ui_desc, &field_params));
        let ui_desc = self.embedded.get_ui_description();
        let field_params = FieldAttributes {
            min: None,
            max: None,
            fmin: None,
            fmax: None,
            valid_file_extensions: None,
            file_description: None,
        };
        ui_params.push(UiDisplayParam::new("embedded".to_owned(), ui_desc, &field_params));
        UiDisplayDescription::Struct(ui_params)
    }
}

impl UiDisplayable for Alma {
    /// Both variant names in order, an empty active variant name, and the
    /// description of the settings of `Variant1` when that is the value.
    open spec fn describes(&self, description: UiDisplayDescription) -> bool {
        match description {
            UiDisplayDescription::Enum(e) => {
                &&& e.variants@.len() == 2
                &&& e.variants@[0]@ == "Variant1"@
                &&& e.variants@[1]@ == "Variant2"@
                &&& e.active_variant@ == Seq::<char>::empty()
                &&& match self {
                    Alma::Variant1(variant_data) => e.active_variant_item_desc matches Some(d)
                        && variant_data.describes(d),
                    Alma::Variant2 => e.active_variant_item_desc is None,
                }
            },
            _ => false,
        }
    }

    fn get_ui_description(&self) -> (description: UiDisplayDescription) {
        let mut variant_names: Vec<String> = Vec::new();
        variant_names.push("Variant1".to_owned());
        variant_names.push("Variant2".to_owned());
        let active_variant_item_desc = match self {
            Alma::Variant1(variant_data) => Some(variant_data.get_ui_description()),
            Alma::Variant2 => None,
        };
        let enum_desc = DisplayEnumOnUiDescription {
            variants: variant_names,
            active_variant: String::new(),
            active_variant_item_desc,
        };
        UiDisplayDescription::Enum(Box::new(enum_desc))
    }
}

/// The struct field the first step of `params` names, if it names one.
pub open spec fn first_field_name(params: Seq<SetPropertyFromUiDescription>) -> Option<Seq<char>> {
    if params.len() > 0 {
        match params[0] {
            SetPropertyFromUiDescription::Struct(s) => Some(s.field_name@),
            _ => None,
        }
    } else {
        None
    }
}

/// The steps after the first.
pub open spec fn rest_of_path(params: Seq<SetPropertyFromUiDescription>) -> Seq<SetPropertyFromUiDescription> {
    params.subrange(1, params.len() as int)
}

impl UiSettableNew for Embedded {
    /// The path steps into `member1` or `path` and goes on into it.
    open spec fn accepts(&self, params: Seq<SetPropertyFromUiDescription>) -> bool {
        match first_field_name(params) {
            Some(name) => if name == "member1"@ {
                self.member1.accepts(rest_of_path(params))
            } else if name == "path"@ {
                self.path.accepts(rest_of_path(params))
            } else {
                false
            },
            None => false,
        }
    }

    /// Only the named field changes, as the rest of the path says.
    open spec fn updated_by(&self, params: Seq<SetPropertyFromUiDescription>, updated: Self) -> bool {
        if first_field_name(params) == Some("member1"@) {
            updated.path == self.path && self.member1.updated_by(rest_of_path(params), updated.member1)
        } else {
            updated.member1 == self.member1 && self.path.updated_by(rest_of_path(params), updated.path)
        }
    }

    fn set_value_from_ui(&mut self, desc: &[SetPropertyFromUiDescription]) {
        if let SetPropertyFromUiDescription::Struct(struct_params) = &desc[0] {
            if names_field(&struct_params.field_name, "member1") {
                self.member1.set_value_from_ui(&desc[1..desc.len()]);
            } else if names_field(&struct_params.field_name, "path") {
                self.path.set_value_from_ui(&desc[1..desc.len()]);
            } else {
                vstd::pervasive::unreached::<()>();
            }
        } else {
            vstd::pervasive::unreached::<()>();
        }
    }
}

impl UiSettableNew for Test {
    /// The path steps into `member1`, `member2` or `embedded` and goes on
    /// into it.
    open spec fn accepts(&self, params: Seq<SetPropertyFromUiDescription>) -> bool {
        match first_field_name(params) {
            Some(name) => if name == "member1"@ {
                self.member1.accepts(rest_of_path(params))
            } else if name == "member2"@ {
                self.member2.accepts(rest_of_path(params))
            } else if name == "embedded"@ {
                self.embedded.accepts(rest_of_path(params))
            } else {
                false
            },
            None => false,
        }
    }

    /// Only the named field changes, as the rest of the path says.
    open spec fn updated_by(&self, params: Seq<SetPropertyFromUiDescription>, updated: Self) -> bool {
        if first_field_name(params) == Some("member1"@) {
            &&& updated.member2 == self.member2
            &&& updated.embedded == self.embedded
            &&& self.member1.updated_by(rest_of_path(params), updated.member1)
        } else if first_field_name(params) == Some("member2"@) {
            &&& updated.member1 == self.member1
            &&& updated.embedded == self.embedded
            &&& self.member2.updated_by(rest_of_path(params), updated.member2)
        } else {
            &&& updated.member1 == self.member1
            &&& updated.member2 == self.member2
            &&& self.embedded.updated_by(rest_of_path(params), updated.embedded)
        }
    }

    fn set_value_from_ui(&mut self, desc: &[SetPropertyFromUiDescription]) {
        if let SetPropertyFromUiDescription::Struct(struct_params) = &desc[0] {
            if names_field(&struct_params.field_name, "member1") {
                self.member1.set_value_from_ui(&desc[1..desc.len()]);
            } else if names_field(&struct_params.field_name, "member2") {
                self.member2.set_value_from_ui(&desc[1..desc.len()]);
            } else if names_field(&struct_params.field_name, "embedded") {
                self.embedded.set_value_from_ui(&desc[1..desc.len()]);
            } else {
                vstd::pervasive::unreached::<()>();
            }
        } else {
            vstd::pervasive::unreached::<()>();
        }
    }
}

/// The path the settings window builds, from the description `shown` of a
/// `Test`, for a new value of its nested counter `embedded.member1` whose
/// slider shows `new_shown`: the step into the field `embedded`, then into
/// its field `member1`, then the change the slider reports.
pub open spec fn nested_counter_path(shown: UiDisplayDescription, new_shown: UiDisplayDescription) -> Seq<SetPropertyFromUiDescription> {
    seq![
        child_step(shown, 2),
        child_step(shown->Struct_0@[2].display, 0),
        step_for_shown_value(new_shown)->0,
    ]
}

/// That path is accepted by the `Test` it was built from, and setting it
/// changes the nested counter to the new value and nothing else.
pub proof fn lemma_nested_field_path_sets_leaf(
    t: Test,
    shown: UiDisplayDescription,
    new_value: u32,
    new_shown: UiDisplayDescription,
)
    requires
        t.describes(shown),
        new_value.describes(new_shown),
    ensures
        t.accepts(nested_counter_path(shown, new_shown)),
        forall|updated: Test|
            #[trigger] t.updated_by(nested_counter_path(shown, new_shown), updated) <==> {
                &&& updated.member1 == t.member1
                &&& updated.member2 == t.member2
                &&& updated.embedded.path == t.embedded.path
                &&& updated.embedded.member1 == new_value
            },
{
    reveal_strlit("member1");
    reveal_strlit("member2");
    reveal_strlit("embedded");
    let params = shown->Struct_0;
    let inner = params@[2].display;
    let step = step_for_shown_value(new_shown)->0;
    let path = nested_counter_path(shown, new_shown);
    let rest = rest_of_path(path);
    let leaf = rest_of_path(rest);
    assert(rest =~= seq![child_step(inner, 0), step]);
    assert(leaf =~= seq![step]);
    assert(first_field_name(path) == Some("embedded"@));
    assert(first_field_name(rest) == Some("member1"@));
    assert("embedded"@.len() == 8);
    assert("member1"@.len() == 7);
    assert("member2"@.len() == 7);
    assert("embedded"@ != "member1"@);
    assert("embedded"@ != "member2"@);
    assert(((new_value as i32) as u32) == new_value) by (bit_vector);
    assert(<u32 as CustomUiSettablePrimitive>::raw_value(leaf) == Some(new_value));
}

/// The step into the struct field `name`.
pub open spec fn field_step(name: String) -> SetPropertyFromUiDescription {
    SetPropertyFromUiDescription::Struct(SetStructFromUiDesc { field_name: name })
}

/// A path that steps into a field of a `Test` is accepted exactly when the
/// rest of it is accepted by that field, and setting it gives that field
/// what the rest of the path gives it and leaves the other fields as they
/// were.
pub proof fn lemma_test_field_path_sets_that_field(
    t: Test,
    name: String,
    rest: Seq<SetPropertyFromUiDescription>,
    updated: Test,
)
    ensures
        name@ == "member1"@ ==> {
            &&& t.accepts(seq![field_step(name)] + rest) == t.member1.accepts(rest)
            &&& t.updated_by(seq![field_step(name)] + rest, updated) <==> {
                &&& t.member1.updated_by(rest, updated.member1)
                &&& updated.member2 == t.member2
                &&& updated.embedded == t.embedded
            }
        },
        name@ == "member2"@ ==> {
            &&& t.accepts(seq![field_step(name)] + rest) == t.member2.accepts(rest)
            &&& t.updated_by(seq![field_step(name)] + rest, updated) <==> {
                &&& t.member2.updated_by(rest, updated.member2)
                &&& updated.member1 == t.member1
                &&& updated.embedded == t.embedded
            }
        },
        name@ == "embedded"@ ==> {
            &&& t.accepts(seq![field_step(name)] + rest) == t.embedded.accepts(rest)
            &&& t.updated_by(seq![field_step(name)] + rest, updated) <==> {
                &&& t.embedded.updated_by(rest, updated.embedded)
                &&& updated.member1 == t.member1
                &&& updated.member2 == t.member2
            }
        },
{
    reveal_strlit("member1");
    reveal_strlit("member2");
    reveal_strlit("embedded");
    let path = seq![field_step(name)] + rest;
    assert(path[0] == field_step(name));
    assert(rest_of_path(path) =~= rest);
    assert(first_field_name(path) == Some(name@));
    assert("embedded"@.len() == 8);
    assert("member1"@.len() == 7);
    assert("member2"@.len() == 7);
    assert("member1"@[6] == '1');
    assert("member2"@[6] == '2');
    assert("member1"@ != "member2"@);
    assert("embedded"@ != "member1"@);
    assert("embedded"@ != "member2"@);
}

/// A path that steps into a field of an `Embedded` is accepted exactly when
/// the rest of it is accepted by that field, and setting it gives that
/// field what the rest of the path gives it and leaves the other field as
/// it was.
pub proof fn lemma_embedded_field_path_sets_that_field(
    e: Embedded,
    name: String,
    rest: Seq<SetPropertyFromUiDescription>,
    updated: Embedded,
)
    ensures
        name@ == "member1"@ ==> {
            &&& e.accepts(seq![field_step(name)] + rest) == e.member1.accepts(rest)
            &&& e.updated_by(seq![field_step(name)] + rest, updated) <==> {
                &&& e.member1.updated_by(rest, updated.member1)
                &&& updated.path == e.path
            }
        },
        name@ == "path"@ ==> {
            &&& e.accepts(seq![field_step(name)] + rest) == e.path.accepts(rest)
            &&& e.updated_by(seq![field_step(name)] + rest, updated) <==> {
                &&& e.path.updated_by(rest, updated.path)
                &&& updated.member1 == e.member1
            }
        },
{
    reveal_strlit("member1");
    reveal_strlit("path");
    let path = seq![field_step(name)] + rest;
    assert(path[0] == field_step(name));
    assert(rest_of_path(path) =~= rest);
    assert(first_field_name(path) == Some(name@));
    assert("member1"@.len() == 7);
    assert("path"@.len() == 4);
    assert("member1"@ != "path"@);
}

} // verus!
