use vstd::prelude::*;

use crate::input::{ElementState, KeyCode, KeyEvent};

verus! {

/// Actions the window event handling asks the main loop to take.
#[derive(Debug, Clone, Copy, PartialEq, Eq, Structural)]
pub enum WindowEventHandlingAction {
    Exit,
    RecompileShaders,
}

/// The outcome of handling a window event.
#[derive(Debug, Clone, Copy, PartialEq, Eq, Structural)]
pub enum WindowEventHandlingResult {
    Handled,
    Unhandled,
    RequestAction(WindowEventHandlingAction),
}

/// Actions that can be taken in response to user input (eg. click on the UI, pressing a shortcut)
/// This enum only captures the actions that can happen in the domaing of rendering
/// For example simple camera movement actions are handled directly
#[derive(Debug, Clone, Copy, PartialEq, Eq, Structural)]
pub enum RenderingAction {
    GenerateCubeMapFromEquirectangular,
    BakeDiffuseIrradianceMap,
    SaveDiffuseIrradianceMapToFile,
}

/// What a shortcut key asks of the application.
#[derive(Debug, Clone, Copy, PartialEq, Eq, Structural)]
pub enum AppKeyCommand {
    /// Show or hide the settings window.
    ToggleGui,
    /// Queue a rendering action.
    AddRenderingAction(RenderingAction),
}

/// The command of a shortcut key event: pressing F toggles the settings
/// window, pressing I saves the diffuse irradiance map to a file.
pub open spec fn keyboard_command_spec(key_event: KeyEvent) -> Option<AppKeyCommand> {
    match (key_event.state, key_event.physical_key) {
        (ElementState::Pressed, KeyCode::KeyF) => Some(AppKeyCommand::ToggleGui),
        (ElementState::Pressed, KeyCode::KeyI) => Some(
            AppKeyCommand::AddRenderingAction(RenderingAction::SaveDiffuseIrradianceMapToFile),
        ),
        _ => None,
    }
}

/// The application's shortcuts: pressing F toggles the settings window,
/// pressing I saves the diffuse irradiance map to a file. Returns whether
/// the key event was handled, and the command if it was; releases and other
/// keys are left unhandled.
pub fn keyboard_command(key_event: &KeyEvent) -> (outcome: (
    WindowEventHandlingResult,
    Option<AppKeyCommand>,
))
    ensures
        key_event.state == ElementState::Released ==> outcome == (
            WindowEventHandlingResult::Unhandled,
            Option::<AppKeyCommand>::None,
        ),
        key_event.physical_key != KeyCode::KeyF && key_event.physical_key != KeyCode::KeyI
            ==> outcome == (WindowEventHandlingResult::Unhandled, Option::<AppKeyCommand>::None),
        outcome.1 == keyboard_command_spec(*key_event),
        outcome.0 == (if outcome.1 is Some {
            WindowEventHandlingResult::Handled
        } else {
            WindowEventHandlingResult::Unhandled
        }),
{
    match key_event.state {
        ElementState::Pressed => match key_event.physical_key {
            KeyCode::KeyF => (WindowEventHandlingResult::Handled, Some(AppKeyCommand::ToggleGui)),
            KeyCode::KeyI => (
                WindowEventHandlingResult::Handled,
                Some(AppKeyCommand::AddRenderingAction(RenderingAction::SaveDiffuseIrradianceMapToFile)),
            ),
            _ => (WindowEventHandlingResult::Unhandled, None),
        },
        ElementState::Released => (WindowEventHandlingResult::Unhandled, None),
    }
}

/// Shortcuts fire only when their key goes down, and only F and I are
/// shortcuts: a release of any key, and any other key, issues nothing, and
/// pressing F or I issues a command, and only one.
pub proof fn lemma_shortcuts_fire_only_on_press(key_event: KeyEvent)
    ensures
        keyboard_command_spec(key_event) is Some ==> key_event.state == ElementState::Pressed,
        keyboard_command_spec(key_event) is Some ==> key_event.physical_key == KeyCode::KeyF
            || key_event.physical_key == KeyCode::KeyI,
        key_event.state == ElementState::Pressed && (key_event.physical_key == KeyCode::KeyF
            || key_event.physical_key == KeyCode::KeyI) ==> keyboard_command_spec(key_event) is Some,
        key_event.physical_key == KeyCode::KeyF ==> keyboard_command_spec(key_event) is None
            || keyboard_command_spec(key_event) == Some(AppKeyCommand::ToggleGui),
        key_event.physical_key == KeyCode::KeyI ==> keyboard_command_spec(key_event) is None
            || keyboard_command_spec(key_event) == Some(
            AppKeyCommand::AddRenderingAction(RenderingAction::SaveDiffuseIrradianceMapToFile),
        ),
{
}

/// The window events the application reacts to.
#[derive(Debug, Clone, Copy, PartialEq, Eq, Structural)]
pub enum AppWindowEvent {
    KeyboardInput(KeyEvent),
    Resized,
    CloseRequested,
    RedrawRequested,
    Other,
}

/// The work the application does for a window event.
#[derive(Debug, Clone, Copy, PartialEq, Eq, Structural)]
pub enum AppWindowWork {
    Nothing,
    RecompileShaders,
    KeyCommand(AppKeyCommand),
    Resize,
    /// Draw a frame; its outcome decides the response (`frame_result_response`).
    RunFrame,
}

/// The order in which a window event is handled: the settings window first
/// (an event it consumes is handled), then the player controller (its
/// request to recompile shaders is served here and the event is handled;
/// its other requests and a handled event are passed on), then the
/// application's own reaction to the event. Returns the work to do and the
/// response, or no response where the frame's outcome decides it.
pub fn dispatch_window_event(
    gui_consumed: bool,
    player_result: WindowEventHandlingResult,
    event: AppWindowEvent,
) -> (dispatched: (AppWindowWork, Option<WindowEventHandlingResult>))
    ensures
        !gui_consumed && player_result == WindowEventHandlingResult::Unhandled && (event matches AppWindowEvent::KeyboardInput(key_event)
            && key_event.state == ElementState::Released) ==> dispatched == (
            AppWindowWork::Nothing,
            Some(WindowEventHandlingResult::Unhandled),
        ),
        dispatched == (if gui_consumed {
            (AppWindowWork::Nothing, Some(WindowEventHandlingResult::Handled))
        } else {
            match player_result {
                WindowEventHandlingResult::RequestAction(WindowEventHandlingAction::RecompileShaders) => (
                    AppWindowWork::RecompileShaders,
                    Some(WindowEventHandlingResult::Handled),
                ),
                WindowEventHandlingResult::RequestAction(action) => (
                    AppWindowWork::Nothing,
                    Some(WindowEventHandlingResult::RequestAction(action)),
                ),
                WindowEventHandlingResult::Handled => (
                    AppWindowWork::Nothing,
                    Some(WindowEventHandlingResult::Handled),
                ),
                WindowEventHandlingResult::Unhandled => match event {
                    AppWindowEvent::KeyboardInput(key_event) => match keyboard_command_spec(key_event) {
                        Some(command) => (
                            AppWindowWork::KeyCommand(command),
                            Some(WindowEventHandlingResult::Handled),
                        ),
                        None => (AppWindowWork::Nothing, Some(WindowEventHandlingResult::Unhandled)),
                    },
                    AppWindowEvent::Resized => (
                        AppWindowWork::Resize,
                        Some(WindowEventHandlingResult::Handled),
                    ),
                    AppWindowEvent::CloseRequested => (
                        AppWindowWork::Nothing,
                        Some(WindowEventHandlingResult::RequestAction(WindowEventHandlingAction::Exit)),
                    ),
                    AppWindowEvent::RedrawRequested => (AppWindowWork::RunFrame, None),
                    AppWindowEvent::Other => (
                        AppWindowWork::Nothing,
                        Some(WindowEventHandlingResult::Unhandled),
                    ),
                },
            }
        }),
{
    if gui_consumed {
        return (AppWindowWork::Nothing, Some(WindowEventHandlingResult::Handled));
    }
    match player_result {
        WindowEventHandlingResult::RequestAction(WindowEventHandlingAction::RecompileShaders) => {
            (AppWindowWork::RecompileShaders, Some(WindowEventHandlingResult::Handled))
        },
        WindowEventHandlingResult::RequestAction(action) => {
            (AppWindowWork::Nothing, Some(WindowEventHandlingResult::RequestAction(action)))
        },
        WindowEventHandlingResult::Handled => {
            (AppWindowWork::Nothing, Some(WindowEventHandlingResult::Handled))
        },
        WindowEventHandlingResult::Unhandled => match event {
            AppWindowEvent::KeyboardInput(key_event) => {
                let (result, command) = keyboard_command(&key_event);
                match command {
                    Some(command) => (AppWindowWork::KeyCommand(command), Some(result)),
                    None => (AppWindowWork::Nothing, Some(result)),
                }
            },
            AppWindowEvent::Resized => (AppWindowWork::Resize, Some(WindowEventHandlingResult::Handled)),
            AppWindowEvent::CloseRequested => (
                AppWindowWork::Nothing,
                Some(WindowEventHandlingResult::RequestAction(WindowEventHandlingAction::Exit)),
            ),
            AppWindowEvent::RedrawRequested => (AppWindowWork::RunFrame, None),
            AppWindowEvent::Other => (AppWindowWork::Nothing, Some(WindowEventHandlingResult::Unhandled)),
        },
    }
}

/// Whether the window is to be resized to `new_width` x `new_height` from
/// `current_width` x `current_height`: only to a size with some area that
/// differs from the current one.
pub fn should_resize(new_width: u32, new_height: u32, current_width: u32, current_height: u32) -> (resize: bool)
    ensures
        resize == (new_width > 0 && new_height > 0 && (new_width != current_width || new_height
            != current_height)),
{
    new_width > 0 && new_height > 0 && (new_width != current_width || new_height != current_height)
}

/// `wgpu::SurfaceError`, carried as an opaque value.
#[verifier::external_type_specification]
#[verifier::external_body]
pub struct ExSurfaceError(wgpu::SurfaceError);

/// Why a frame could not be drawn, as wgpu's surface errors tell it.
#[derive(Debug, Clone, Copy, PartialEq, Eq, Structural)]
pub enum SurfaceErrorKind {
    Timeout,
    Outdated,
    Lost,
    OutOfMemory,
}

/// The variant of the surface error `error`.
pub uninterp spec fn surface_error_variant(error: wgpu::SurfaceError) -> SurfaceErrorKind;

/// A variant test on `wgpu::SurfaceError`: which variant `error` is.
#[verifier::external_body]
fn surface_error_kind(error: &wgpu::SurfaceError) -> (kind: SurfaceErrorKind)
    ensures
        kind == surface_error_variant(*error),
{
    match error {
        wgpu::SurfaceError::Timeout => SurfaceErrorKind::Timeout,
        wgpu::SurfaceError::Outdated => SurfaceErrorKind::Outdated,
        wgpu::SurfaceError::Lost => SurfaceErrorKind::Lost,
        wgpu::SurfaceError::OutOfMemory => SurfaceErrorKind::OutOfMemory,
    }
}

/// The response to the outcome of drawing a frame: a drawn frame is
/// handled; a lost surface is reconfigured and the frame counts as handled;
/// running out of memory ends the application; an outdated surface or a
/// timeout resolves by the next frame, so the frame counts as handled.
pub open spec fn frame_response(outcome: Result<(), SurfaceErrorKind>) -> (WindowEventHandlingResult, bool) {
    match outcome {
        Ok(_) => (WindowEventHandlingResult::Handled, false),
        Err(SurfaceErrorKind::Lost) => (WindowEventHandlingResult::Handled, true),
        Err(SurfaceErrorKind::OutOfMemory) => (
            WindowEventHandlingResult::RequestAction(WindowEventHandlingAction::Exit),
            false,
        ),
        Err(_) => (WindowEventHandlingResult::Handled, false),
    }
}

/// What the outcome of drawing a frame asks of the application, and
/// whether the surface is to be reconfigured: a drawn frame is handled; a
/// lost surface is reconfigured and the frame counts as handled; running
/// out of memory ends the application; the other errors (an outdated
/// surface, a timeout) resolve by the next frame, so the frame counts as
/// handled.
pub fn frame_outcome_response(outcome: Result<(), SurfaceErrorKind>) -> (response: (
    WindowEventHandlingResult,
    bool,
))
    ensures
        response == frame_response(outcome),
{
    match outcome {
        Ok(_) => (WindowEventHandlingResult::Handled, false),
        Err(SurfaceErrorKind::Lost) => (WindowEventHandlingResult::Handled, true),
        Err(SurfaceErrorKind::OutOfMemory) => (
            WindowEventHandlingResult::RequestAction(WindowEventHandlingAction::Exit),
            false,
        ),
        Err(_) => (WindowEventHandlingResult::Handled, false),
    }
}

/// The response to the result of drawing a frame (see
/// `frame_outcome_response`), by the variant of the error.
pub fn frame_result_response(result: &Result<(), wgpu::SurfaceError>) -> (response: (
    WindowEventHandlingResult,
    bool,
))
    ensures
        response == frame_response(
            match *result {
                Ok(_) => Ok(()),
                Err(error) => Err(surface_error_variant(error)),
            },
        ),
{
    match result {
        Ok(_) => frame_outcome_response(Ok(())),
        Err(error) => frame_outcome_response(Err(surface_error_kind(error))),
    }
}

} // verus!
