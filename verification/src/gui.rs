use vstd::prelude::*;
use std::path::PathBuf;

use std::time::{Duration, Instant};
use crate::time::{
    checked_add, duration_from_millis, duration_of_millis, instant_after, instant_not_earlier,
    instant_now, instant_reached,
};
use crate::ui_display::{UiDisplayDescription, UiDisplayable};
use crate::ui_setting::{
    step_for_shown_value, SetEnumFromTheUiDescription, SetNumberFromUiDescription,
    SetPropertyFromUiDescription, SetStructFromUiDesc, SetVecFromUiDescription, UiSettableNew,
};
use crate::float_values::{FloatBits, FLOAT_ZERO_BITS};
use vstd::string::StringExecFns;

verus! {

/// `anyhow::Error`, carried through the library as an opaque value.
#[verifier::external_type_specification]
#[verifier::external_body]
pub struct ExAnyhowError(anyhow::Error);

/// Buttons of the settings window.
pub enum GuiButton {
    SaveLevel,
}

/// Results of operations that the settings window reports to the user.
pub enum GuiUpdateEvent {
    ShaderCompilationResult(Result<(), anyhow::Error>),
    LevelSaveResult(Result<(), anyhow::Error>),
}

/// Requests from the settings window to the application.
pub enum GuiEvent {
    RecompileShaders,
    ButtonClicked(GuiButton),
}

/// The bit pattern of `3.0`: seconds a notification stays on the screen
/// before it may be removed.
pub const NOTIFICATION_SCREEN_TIME_BITS: u32 = 0x4040_0000u32;

/// A message about the outcome of an operation, shown on the settings
/// window. Screen times are seconds, carried by their bits.
pub struct GuiNotification {
    pub notification_text: String,
    pub auto_remove_after_time: bool,
    pub screen_time: FloatBits,
    pub max_screen_time: FloatBits,
}

/// The `Display` text of an `anyhow::Error`: its outermost message.
pub uninterp spec fn error_display(error: anyhow::Error) -> Seq<char>;

/// `anyhow::Error::to_string`: the error's `Display` text, which depends on
/// the error alone.
#[verifier::external_body]
fn error_text(error: &anyhow::Error) -> (text: String)
    ensures
        text@ == error_display(*error),
{
    error.to_string()
}

/// The text that reports `result`: "Success!", or the error's text.
pub open spec fn result_text(result: Result<(), anyhow::Error>) -> Seq<char> {
    match result {
        Ok(_) => "Success!"@,
        Err(error) => error_display(error),
    }
}

impl GuiNotification {
    /// The notification for `result`: `category_string` followed by
    /// "Success!" or by the error's text (see `from_message`). A success is removed from the
    /// screen after some time; an error stays, as the user is expected to
    /// act on it and retry.
    pub fn from_result(result: Result<(), anyhow::Error>, category_string: String) -> (notification:
        Self)
        ensures
            notification.auto_remove_after_time == (result is Ok),
            notification.notification_text@ == category_string@ + result_text(result),
            notification.screen_time == FloatBits(FLOAT_ZERO_BITS),
            notification.max_screen_time == FloatBits(NOTIFICATION_SCREEN_TIME_BITS),
    {
        let result_as_string = match &result {
            Ok(_) => "Success!".to_owned(),
            Err(error) => error_text(error),
        };
        Self::from_message(category_string, result_as_string, result.is_ok())
    }

    /// The notification `category_string` followed by `result_as_string`,
    /// removed from the screen after some time exactly when the operation
    /// `succeeded`.
    pub fn from_message(category_string: String, result_as_string: String, succeeded: bool) -> (notification: Self)
        ensures
            notification.notification_text@ == category_string@ + result_as_string@,
            notification.auto_remove_after_time == succeeded,
            notification.screen_time == FloatBits(FLOAT_ZERO_BITS),
            notification.max_screen_time == FloatBits(NOTIFICATION_SCREEN_TIME_BITS),
    {
        let final_message = category_string.concat(result_as_string.as_str());
        GuiNotification {
            notification_text: final_message,
            screen_time: FloatBits(FLOAT_ZERO_BITS),
            max_screen_time: FloatBits(NOTIFICATION_SCREEN_TIME_BITS),
            auto_remove_after_time: succeeded,
        }
    }
}

/// The notification that reports `update`: its result, under the label of
/// the operation it came from.
pub fn notification_for_update(update: GuiUpdateEvent) -> (notification: GuiNotification)
    ensures
        notification.screen_time == FloatBits(FLOAT_ZERO_BITS),
        notification.max_screen_time == FloatBits(NOTIFICATION_SCREEN_TIME_BITS),
        match update {
            GuiUpdateEvent::ShaderCompilationResult(result) => {
                &&& notification.auto_remove_after_time == (result is Ok)
                &&& notification.notification_text@ == "Shader compilation result: "@ + result_text(
                    result,
                )
            },
            GuiUpdateEvent::LevelSaveResult(result) => {
                &&& notification.auto_remove_after_time == (result is Ok)
                &&& notification.notification_text@ == "Saving level result: "@ + result_text(result)
            },
        },
{
    match update {
        GuiUpdateEvent::ShaderCompilationResult(result) => {
            let category = "Shader compilation result: ".to_owned();
            GuiNotification::from_result(result, category)
        },
        GuiUpdateEvent::LevelSaveResult(result) => {
            let category = "Saving level result: ".to_owned();
            GuiNotification::from_result(result, category)
        },
    }
}

/// Decimal representation of a natural number, most significant digit first.
pub open spec fn decimal_text(n: nat) -> Seq<char>
    decreases n,
{
    let digit = ((n % 10) + 48) as char;
    if n < 10 {
        seq![digit]
    } else {
        decimal_text(n / 10).push(digit)
    }
}

/// `usize::to_string` (the `Display` formatting of std) writes the decimal
/// representation of the number.
#[verifier::external_body]
fn decimal_string(n: usize) -> (text: String)
    ensures
        text@ == decimal_text(n as nat),
{
    n.to_string()
}

/// A change made on the UI: the category under which the item was
/// registered, and the path of steps from that item down to the new value.
pub struct SetItemFromUiParams {
    pub category: String,
    pub item_setting_breadcrumbs: Vec<SetPropertyFromUiDescription>,
}

/// The label under which the UI shows the item that the last step of
/// `breadcrumbs` leads to: the struct field name, the enum variant name or
/// the vector index of that step, or `category` when the last step sets a
/// primitive value or there is no step at all.
pub open spec fn last_category_text(
    category: Seq<char>,
    breadcrumbs: Seq<SetPropertyFromUiDescription>,
) -> Seq<char> {
    if breadcrumbs.len() == 0 {
        category
    } else {
        match breadcrumbs.last() {
            SetPropertyFromUiDescription::Struct(s) => s.field_name@,
            SetPropertyFromUiDescription::Enum(e) => e.variant_name@,
            SetPropertyFromUiDescription::Vec(v) => decimal_text(v.index as nat),
            _ => category,
        }
    }
}

impl SetItemFromUiParams {
    /// The same change with one more step at the end of its path.
    pub fn add_breadcrumb(&self, new_breadcrumb: SetPropertyFromUiDescription) -> (extended: Self)
        ensures
            extended.category@ == self.category@,
            extended.item_setting_breadcrumbs@ == self.item_setting_breadcrumbs@.push(new_breadcrumb),
    {
        let mut new_breadcrumbs = self.item_setting_breadcrumbs.clone();
        new_breadcrumbs.push(new_breadcrumb);
        assert(new_breadcrumbs@ =~= self.item_setting_breadcrumbs@.push(new_breadcrumb));
        Self { category: self.category.clone(), item_setting_breadcrumbs: new_breadcrumbs }
    }

    /// The label of the item the path leads to.
    pub fn get_last_category(&self) -> (label: String)
        ensures
            label@ == last_category_text(self.category@, self.item_setting_breadcrumbs@),
    {
        let len = self.item_setting_breadcrumbs.len();
        if len > 0 {
            match &self.item_setting_breadcrumbs[len - 1] {
                SetPropertyFromUiDescription::Float(_)
                | SetPropertyFromUiDescription::Int(_)
                | SetPropertyFromUiDescription::Bool(_)
                | SetPropertyFromUiDescription::Vec3(_)
                | SetPropertyFromUiDescription::Rotation(_)
                | SetPropertyFromUiDescription::Path(_) => self.category.clone(),
                SetPropertyFromUiDescription::Struct(set_struct_from_ui_desc) => {
                    set_struct_from_ui_desc.field_name.clone()
                },
                SetPropertyFromUiDescription::Enum(set_enum_from_the_ui_description) => {
                    set_enum_from_the_ui_description.variant_name.clone()
                },
                SetPropertyFromUiDescription::Vec(set_vec_from_ui_description) => {
                    decimal_string(set_vec_from_ui_description.index)
                },
            }
        } else {
            self.category.clone()
        }
    }
}

/// The number of items shown inside `item` on the settings window: the
/// items of a vector, the fields of a struct, and the data of the active
/// variant of an enum if it has any.
pub open spec fn child_count(item: UiDisplayDescription) -> nat {
    match item {
        UiDisplayDescription::Vector(items) => items@.len(),
        UiDisplayDescription::Struct(params) => params@.len(),
        UiDisplayDescription::Enum(e) => if e.active_variant_item_desc is Some { 1 } else { 0 },
        _ => 0,
    }
}

/// The step into the `i`-th item shown inside `item`: the index of a vector
/// item, the name of a struct field, or the name of the active variant of an
/// enum.
pub open spec fn child_step(item: UiDisplayDescription, i: int) -> SetPropertyFromUiDescription {
    match item {
        UiDisplayDescription::Vector(_) => SetPropertyFromUiDescription::Vec(
            SetVecFromUiDescription { index: i as usize },
        ),
        UiDisplayDescription::Struct(params) => SetPropertyFromUiDescription::Struct(
            SetStructFromUiDesc { field_name: params@[i].name },
        ),
        UiDisplayDescription::Enum(e) => SetPropertyFromUiDescription::Enum(
            SetEnumFromTheUiDescription { variant_name: e.active_variant },
        ),
        _ => SetPropertyFromUiDescription::Bool(false),
    }
}

/// The changes under which the items shown inside `item` report, in
/// order: `base` with the step into each item added. The settings window
/// shows each item inside with its change, and goes on into it.
pub fn child_changes(item: &UiDisplayDescription, base: &SetItemFromUiParams) -> (children: Vec<SetItemFromUiParams>)
    ensures
        children@.len() == child_count(*item),
        forall|i: int|
            0 <= i < children@.len() ==> {
                &&& (#[trigger] children@[i]).category@ == base.category@
                &&& children@[i].item_setting_breadcrumbs@ == base.item_setting_breadcrumbs@.push(
                    child_step(*item, i),
                )
            },
{
    let mut children: Vec<SetItemFromUiParams> = Vec::new();
    match item {
        UiDisplayDescription::Vector(items) => {
            let mut index: usize = 0;
            while index < items.len()
                invariant
                    index <= items@.len(),
                    *item == UiDisplayDescription::Vector(*items),
                    children@.len() == index,
                    forall|i: int|
                        0 <= i < children@.len() ==> {
                            &&& (#[trigger] children@[i]).category@ == base.category@
                            &&& children@[i].item_setting_breadcrumbs@
                                == base.item_setting_breadcrumbs@.push(child_step(*item, i))
                        },
                decreases items@.len() - index,
            {
                children.push(
                    base.add_breadcrumb(
                        SetPropertyFromUiDescription::Vec(SetVecFromUiDescription { index }),
                    ),
                );
                index = index + 1;
            }
        },
        UiDisplayDescription::Struct(params) => {
            let mut index: usize = 0;
            while index < params.len()
                invariant
                    index <= params@.len(),
                    *item == UiDisplayDescription::Struct(*params),
                    children@.len() == index,
                    forall|i: int|
                        0 <= i < children@.len() ==> {
                            &&& (#[trigger] children@[i]).category@ == base.category@
                            &&& children@[i].item_setting_breadcrumbs@
                                == base.item_setting_breadcrumbs@.push(child_step(*item, i))
                        },
                decreases params@.len() - index,
            {
                let field_name = params[index].name.clone();
                children.push(
                    base.add_breadcrumb(
                        SetPropertyFromUiDescription::Struct(SetStructFromUiDesc { field_name }),
                    ),
                );
                index = index + 1;
            }
        },
        UiDisplayDescription::Enum(e) => {
            if e.active_variant_item_desc.is_some() {
                let variant_name = e.active_variant.clone();
                children.push(
                    base.add_breadcrumb(
                        SetPropertyFromUiDescription::Enum(SetEnumFromTheUiDescription { variant_name }),
                    ),
                );
            }
        },
        _ => {},
    }
    children
}

/// The change a slider or checkbox showing `item` reports once the user
/// set it to the value it now shows: `base` with the new value added as the
/// last step. Other kinds of item report no such change.
pub fn leaf_change(item: &UiDisplayDescription, base: &SetItemFromUiParams) -> (change: Option<SetItemFromUiParams>)
    ensures
        match step_for_shown_value(*item) {
            Some(step) => change matches Some(c) && c.category@ == base.category@
                && c.item_setting_breadcrumbs@ == base.item_setting_breadcrumbs@.push(step),
            None => change is None,
        },
{
    match item {
        UiDisplayDescription::SliderFloat(d) => Some(
            base.add_breadcrumb(
                SetPropertyFromUiDescription::Float(SetNumberFromUiDescription { value: d.value }),
            ),
        ),
        UiDisplayDescription::SliderInt(d) => Some(
            base.add_breadcrumb(
                SetPropertyFromUiDescription::Int(SetNumberFromUiDescription { value: d.value }),
            ),
        ),
        UiDisplayDescription::Bool(b) => Some(
            base.add_breadcrumb(SetPropertyFromUiDescription::Bool(*b)),
        ),
        UiDisplayDescription::Vec3(d) => Some(
            base.add_breadcrumb(SetPropertyFromUiDescription::Vec3(d.value)),
        ),
        _ => None,
    }
}

/// The path the settings window builds for a new value of item `i` of a
/// vector of integers (the step into the item, then the change its slider
/// reports) is accepted by the vector, and setting it changes item `i` to
/// the new value and nothing else.
pub proof fn lemma_vector_item_path_sets_item(
    v: Vec<i32>,
    shown: UiDisplayDescription,
    i: int,
    new_value: i32,
    new_shown: UiDisplayDescription,
)
    requires
        v.describes(shown),
        0 <= i < v@.len(),
        new_value.describes(new_shown),
    ensures
        step_for_shown_value(new_shown) matches Some(step) && {
            let path = seq![child_step(shown, i), step];
            &&& v.accepts(path)
            &&& forall|updated: Vec<i32>|
                v.updated_by(path, updated) <==> #[trigger] updated@ == v@.update(i, new_value)
        },
{
    let step = step_for_shown_value(new_shown)->0;
    let path = seq![child_step(shown, i), step];
    let rest = path.subrange(1, path.len() as int);
    assert(v.len() == v@.len());
    assert((i as usize) as int == i);
    assert(shown is Vector);
    assert(path[0] == SetPropertyFromUiDescription::Vec(SetVecFromUiDescription { index: i as usize }));
    assert(rest =~= seq![step]);
    assert(<i32 as crate::ui_setting::CustomUiSettablePrimitive>::raw_value(rest) == Some(new_value));
    assert forall|updated: Vec<i32>|
        v.updated_by(path, updated) <==> #[trigger] updated@ == v@.update(i, new_value) by {
        if v.updated_by(path, updated) {
            assert forall|j: int| 0 <= j < updated@.len() implies updated@[j] == v@.update(i, new_value)[j] by {
                if j != i {
                    assert(updated@[j] == v@[j]);
                }
            }
            assert(updated@ =~= v@.update(i, new_value));
        }
        if updated@ == v@.update(i, new_value) {
            assert(forall|j: int| 0 <= j < v@.len() && j != i ==> #[trigger] updated@[j] == v@[j]);
        }
    }
}

/// The paths of the changes in `received` that belong to `category`, in the
/// order they were received.
pub open spec fn changes_for_category(
    received: Seq<SetItemFromUiParams>,
    category: Seq<char>,
) -> Seq<Seq<SetPropertyFromUiDescription>>
    decreases received.len(),
{
    if received.len() == 0 {
        Seq::empty()
    } else {
        let earlier = changes_for_category(received.drop_last(), category);
        if received.last().category@ == category {
            earlier.push(received.last().item_setting_breadcrumbs@)
        } else {
            earlier
        }
    }
}

/// Of the changes received from the UI, the paths of those made to the item
/// registered under `category`, in the order they were received.
pub fn gui_changes_for_category(received: &Vec<SetItemFromUiParams>, category: &String) -> (changes:
    Vec<Vec<SetPropertyFromUiDescription>>)
    ensures
        changes@.len() == changes_for_category(received@, category@).len(),
        forall|i: int|
            0 <= i < changes@.len() ==> #[trigger] changes@[i]@ == changes_for_category(
                received@,
                category@,
            )[i],
{
    let mut changes: Vec<Vec<SetPropertyFromUiDescription>> = Vec::new();
    let mut index: usize = 0;
    while index < received.len()
        invariant
            index <= received@.len(),
            changes@.len() == changes_for_category(received@.take(index as int), category@).len(),
            forall|i: int|
                0 <= i < changes@.len() ==> #[trigger] changes@[i]@ == changes_for_category(
                    received@.take(index as int),
                    category@,
                )[i],
        decreases received@.len() - index,
    {
        let value_changed_params = &received[index];
        assert(received@.take(index + 1).drop_last() =~= received@.take(index as int));
        if value_changed_params.category == *category {
            changes.push(value_changed_params.item_setting_breadcrumbs.clone());
        }
        index = index + 1;
    }
    assert(received@.take(received@.len() as int) =~= received@);
    changes
}

/// What a path field of the settings window does in a frame.
pub enum PathWidgetAction {
    /// The field was clicked: let the user pick a file.
    OpenFileDialog,
    /// A file was dropped on the field: set the path to it.
    SetPath(PathBuf),
    Nothing,
}

/// The decision of a path field: a click opens the file dialog; otherwise,
/// while the field is hovered, a dropped file (if any) becomes its value
/// and is used up, so no other field receives it.
pub fn path_widget_action(clicked: bool, hovered: bool, dropped_file: &mut Option<PathBuf>) -> (action:
    PathWidgetAction)
    ensures
        clicked ==> action is OpenFileDialog && *final(dropped_file) == *old(dropped_file),
        !clicked && hovered && *old(dropped_file) is Some ==> action == PathWidgetAction::SetPath(
            (*old(dropped_file))->0,
        ) && *final(dropped_file) is None,
        !clicked && !(hovered && *old(dropped_file) is Some) ==> action is Nothing
            && *final(dropped_file) == *old(dropped_file),
{
    if clicked {
        PathWidgetAction::OpenFileDialog
    } else if hovered && dropped_file.is_some() {
        match dropped_file.take() {
            Some(file_path) => PathWidgetAction::SetPath(file_path),
            None => PathWidgetAction::Nothing,
        }
    } else {
        PathWidgetAction::Nothing
    }
}

/// How long a dropped file stays available after the drop, in milliseconds.
/// It's highly unlikely that we will get another drop event in that time.
pub const DROPPED_FILE_KEEPALIVE_TIME_MS: u64 = 500u64;

/// A file dropped on the window, kept for a short time after the drop so that
/// the UI element hovered a few frames later can still take it.
pub struct DroppedFileHandler {
    pub dropped_file: Option<PathBuf>,
    pub drop_time: Instant,
    pub keepalive_time: Duration,
}

/// Whether, at the clock reading `now`, the keepalive time after the drop
/// has passed: the deadline `keepalive_time` after `drop_time` exists and
/// `now` is not earlier than it.
pub open spec fn keepalive_elapsed(now: Instant, drop_time: Instant, keepalive_time: Duration) -> bool {
    match instant_after(drop_time, keepalive_time) {
        Some(deadline) => instant_not_earlier(now, deadline),
        None => false,
    }
}

/// What is left of `dropped_file` at the clock reading `now`.
pub open spec fn file_left_at(
    dropped_file: Option<PathBuf>,
    now: Instant,
    drop_time: Instant,
    keepalive_time: Duration,
) -> Option<PathBuf> {
    if dropped_file is Some && keepalive_elapsed(now, drop_time, keepalive_time) {
        None
    } else {
        dropped_file
    }
}

impl DroppedFileHandler {
    /// No dropped file, with the default keepalive time (dropped now, at a
    /// clock reading that is not stated).
    pub fn new() -> (handler: Self)
        ensures
            handler.dropped_file is None,
            handler.keepalive_time == duration_of_millis(DROPPED_FILE_KEEPALIVE_TIME_MS),
    {
        DroppedFileHandler {
            dropped_file: None,
            drop_time: instant_now(),
            keepalive_time: duration_from_millis(DROPPED_FILE_KEEPALIVE_TIME_MS),
        }
    }

    /// Forgets the dropped file once the keepalive time has passed at the
    /// clock reading `now`. The drop time and keepalive time stay.
    pub fn update_at(&mut self, now: Instant)
        ensures
            final(self).drop_time == old(self).drop_time,
            final(self).keepalive_time == old(self).keepalive_time,
            final(self).dropped_file == file_left_at(
                old(self).dropped_file,
                now,
                old(self).drop_time,
                old(self).keepalive_time,
            ),
    {
        if self.dropped_file.is_some() {
            let keepalive_elapsed = match checked_add(&self.drop_time, &self.keepalive_time) {
                Some(deadline) => instant_reached(&now, &deadline),
                None => false,
            };
            self.forget_if_expired(keepalive_elapsed);
        }
    }

    /// Forgets the dropped file exactly when its keepalive time has elapsed.
    pub fn forget_if_expired(&mut self, keepalive_elapsed: bool)
        ensures
            final(self).drop_time == old(self).drop_time,
            final(self).keepalive_time == old(self).keepalive_time,
            final(self).dropped_file == (if keepalive_elapsed {
                None
            } else {
                old(self).dropped_file
            }),
    {
        if keepalive_elapsed {
            self.dropped_file = None;
        }
    }

    /// Forgets the dropped file once the keepalive time has passed, at the
    /// current clock reading (which is not stated).
    pub fn update(&mut self)
        ensures
            final(self).drop_time == old(self).drop_time,
            final(self).keepalive_time == old(self).keepalive_time,
            exists|now: Instant|
                final(self).dropped_file == #[trigger] file_left_at(
                    old(self).dropped_file,
                    now,
                    old(self).drop_time,
                    old(self).keepalive_time,
                ),
    {
        let now = instant_now();
        self.update_at(now);
    }

    /// Keeps `file` as the dropped file, dropped at the clock reading `now`.
    pub fn add_dropped_file_at(&mut self, file: &PathBuf, now: Instant)
        ensures
            final(self).dropped_file == Some(*file),
            final(self).drop_time == now,
            final(self).keepalive_time == old(self).keepalive_time,
    {
        self.dropped_file = Some(file.clone());
        self.drop_time = now;
    }

    /// Routes a window event that the settings window has seen: an event it
    /// consumed stays consumed; otherwise a dropped file (`dropped_file`) is
    /// kept, dropped at the clock reading `now`, and the event counts as
    /// handled. Returns whether the event was handled.
    pub fn handle_event_at(&mut self, consumed: bool, dropped_file: Option<&PathBuf>, now: Instant) -> (handled: bool)
        ensures
            final(self).keepalive_time == old(self).keepalive_time,
            handled == (consumed || dropped_file is Some),
            !consumed && dropped_file is Some ==> final(self).dropped_file == Some(*dropped_file->0)
                && final(self).drop_time == now,
            consumed || dropped_file is None ==> final(self).dropped_file == old(self).dropped_file
                && final(self).drop_time == old(self).drop_time,
    {
        if !consumed {
            if let Some(file_path) = dropped_file {
                self.add_dropped_file_at(file_path, now);
                return true;
            }
        }
        consumed
    }

    /// The end of a frame of the settings window: a dropped file is only
    /// kept for the frame in which a field could take it.
    pub fn end_frame(&mut self)
        ensures
            final(self).dropped_file is None,
            final(self).drop_time == old(self).drop_time,
            final(self).keepalive_time == old(self).keepalive_time,
    {
        self.dropped_file = None;
    }

    /// Keeps `file` as the dropped file, dropped now.
    pub fn add_dropped_file(&mut self, file: &PathBuf)
        ensures
            final(self).dropped_file == Some(*file),
            final(self).keepalive_time == old(self).keepalive_time,
    {
        let now = instant_now();
        self.add_dropped_file_at(file, now);
    }
}

} // verus!
