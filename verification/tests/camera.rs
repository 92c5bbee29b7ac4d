use rendering_engine::camera::{CameraController, CameraInputEvent, CameraMovement};
use rendering_engine::float_values::{FloatBits, Vec3Bits, FLOAT_ONE_BITS, FLOAT_ZERO_BITS};
use rendering_engine::input::{ElementState, KeyCode, KeyEvent};
use rendering_engine::window_events::{
    dispatch_window_event, frame_outcome_response, should_resize, frame_result_response, keyboard_command,
    AppKeyCommand, AppWindowEvent, AppWindowWork,
    RenderingAction, SurfaceErrorKind, WindowEventHandlingAction, WindowEventHandlingResult,
};

const ZERO: FloatBits = FloatBits(FLOAT_ZERO_BITS);
const ONE: FloatBits = FloatBits(FLOAT_ONE_BITS);

fn vec3(x: FloatBits, y: FloatBits, z: FloatBits) -> Vec3Bits {
    Vec3Bits { x, y, z }
}

fn key(physical_key: KeyCode, state: ElementState) -> KeyEvent {
    KeyEvent { physical_key, state }
}

#[test]
fn movement_keys_set_their_components() {
    let mut movement = CameraMovement::new();
    for (k, positive, negative) in [
        (KeyCode::KeyW, vec3(ZERO, ZERO, ONE), vec3(ZERO, ZERO, ZERO)),
        (KeyCode::KeyS, vec3(ZERO, ZERO, ZERO), vec3(ZERO, ZERO, ONE)),
        (KeyCode::KeyA, vec3(ZERO, ZERO, ZERO), vec3(ONE, ZERO, ZERO)),
        (KeyCode::KeyD, vec3(ONE, ZERO, ZERO), vec3(ZERO, ZERO, ZERO)),
        (KeyCode::KeyQ, vec3(ZERO, ONE, ZERO), vec3(ZERO, ZERO, ZERO)),
        (KeyCode::KeyE, vec3(ZERO, ZERO, ZERO), vec3(ZERO, ONE, ZERO)),
    ] {
        movement.handle_keyboard_event(&key(k, ElementState::Pressed));
        assert_eq!(movement.current_speed_positive, positive);
        assert_eq!(movement.current_speed_negative, negative);
        movement.handle_keyboard_event(&key(k, ElementState::Released));
        assert_eq!(movement, CameraMovement::new());
    }
}

#[test]
fn other_keys_do_not_move() {
    let mut movement = CameraMovement::new();
    movement.handle_keyboard_event(&key(KeyCode::KeyW, ElementState::Pressed));
    let before = movement;
    movement.handle_keyboard_event(&key(KeyCode::KeyF, ElementState::Pressed));
    movement.handle_keyboard_event(&key(KeyCode::Other, ElementState::Released));
    assert_eq!(movement, before);
    assert_eq!(f32::from_bits(movement.current_speed_positive.z.0), 1.0);
}

#[test]
fn stop_movement_clears_held_keys() {
    let mut movement = CameraMovement::new();
    movement.handle_keyboard_event(&key(KeyCode::KeyW, ElementState::Pressed));
    movement.handle_keyboard_event(&key(KeyCode::KeyE, ElementState::Pressed));
    movement.stop_movement();
    assert_eq!(movement, CameraMovement::new());
}

#[test]
fn camera_ignores_input_until_right_button_is_held() {
    let mut controller: CameraController<(i32, i32)> = CameraController::new();
    assert_eq!(controller.process_window_event(&CameraInputEvent::CursorMoved((1, 1))), (false, None));
    assert_eq!(
        controller.process_window_event(&CameraInputEvent::KeyboardInput(key(
            KeyCode::KeyW,
            ElementState::Pressed
        ))),
        (false, None)
    );
    assert_eq!(controller.movement, CameraMovement::new());
    assert_eq!(controller.cursor_position, None);
}

#[test]
fn camera_turns_by_cursor_motion_while_enabled() {
    let mut controller: CameraController<(i32, i32)> = CameraController::new();
    assert_eq!(
        controller.process_window_event(&CameraInputEvent::RightButtonInput(ElementState::Pressed)),
        (true, None)
    );
    assert!(controller.is_movement_enabled);
    assert_eq!(controller.process_window_event(&CameraInputEvent::CursorMoved((10, 10))), (true, None));
    assert_eq!(
        controller.process_window_event(&CameraInputEvent::CursorMoved((13, 8))),
        (true, Some(((10, 10), (13, 8))))
    );
    assert_eq!(
        controller.process_window_event(&CameraInputEvent::KeyboardInput(key(
            KeyCode::KeyD,
            ElementState::Pressed
        ))),
        (true, None)
    );
    assert_eq!(controller.movement.current_speed_positive, vec3(ONE, ZERO, ZERO));
    // releasing the right button stops the camera and forgets the cursor
    assert_eq!(
        controller.process_window_event(&CameraInputEvent::RightButtonInput(ElementState::Released)),
        (true, None)
    );
    assert!(!controller.is_movement_enabled);
    assert_eq!(controller.movement, CameraMovement::new());
    assert_eq!(controller.cursor_position, None);
    assert_eq!(controller.process_window_event(&CameraInputEvent::OtherButtonInput), (false, None));
    assert_eq!(controller.process_window_event(&CameraInputEvent::Other), (false, None));
}

#[test]
fn shortcut_keys_give_commands() {
    assert_eq!(
        keyboard_command(&key(KeyCode::KeyF, ElementState::Pressed)),
        (WindowEventHandlingResult::Handled, Some(AppKeyCommand::ToggleGui))
    );
    assert_eq!(
        keyboard_command(&key(KeyCode::KeyI, ElementState::Pressed)),
        (
            WindowEventHandlingResult::Handled,
            Some(AppKeyCommand::AddRenderingAction(RenderingAction::SaveDiffuseIrradianceMapToFile))
        )
    );
    assert_eq!(
        keyboard_command(&key(KeyCode::KeyF, ElementState::Released)),
        (WindowEventHandlingResult::Unhandled, None)
    );
    assert_eq!(
        keyboard_command(&key(KeyCode::KeyW, ElementState::Pressed)),
        (WindowEventHandlingResult::Unhandled, None)
    );
}

#[test]
fn frame_outcomes_map_to_responses() {
    let exit = WindowEventHandlingResult::RequestAction(WindowEventHandlingAction::Exit);
    assert_eq!(frame_outcome_response(Ok(())), (WindowEventHandlingResult::Handled, false));
    assert_eq!(
        frame_outcome_response(Err(SurfaceErrorKind::Lost)),
        (WindowEventHandlingResult::Handled, true)
    );
    assert_eq!(frame_outcome_response(Err(SurfaceErrorKind::OutOfMemory)), (exit, false));
    assert_eq!(
        frame_outcome_response(Err(SurfaceErrorKind::Timeout)),
        (WindowEventHandlingResult::Handled, false)
    );
    assert_eq!(
        frame_outcome_response(Err(SurfaceErrorKind::Outdated)),
        (WindowEventHandlingResult::Handled, false)
    );
    assert_eq!(frame_result_response(&Ok(())), (WindowEventHandlingResult::Handled, false));
    assert_eq!(
        frame_result_response(&Err(wgpu::SurfaceError::Lost)),
        (WindowEventHandlingResult::Handled, true)
    );
    assert_eq!(
        frame_result_response(&Err(wgpu::SurfaceError::Timeout)),
        (WindowEventHandlingResult::Handled, false)
    );
    assert_eq!(frame_result_response(&Err(wgpu::SurfaceError::OutOfMemory)), (exit, false));
}

#[test]
fn window_events_are_dispatched_in_order() {
    let handled = WindowEventHandlingResult::Handled;
    let unhandled = WindowEventHandlingResult::Unhandled;
    let recompile = WindowEventHandlingResult::RequestAction(WindowEventHandlingAction::RecompileShaders);
    let exit = WindowEventHandlingResult::RequestAction(WindowEventHandlingAction::Exit);
    // the settings window comes first
    assert_eq!(
        dispatch_window_event(true, recompile, AppWindowEvent::CloseRequested),
        (AppWindowWork::Nothing, Some(handled))
    );
    // then the player controller
    assert_eq!(
        dispatch_window_event(false, recompile, AppWindowEvent::CloseRequested),
        (AppWindowWork::RecompileShaders, Some(handled))
    );
    assert_eq!(
        dispatch_window_event(false, exit, AppWindowEvent::Resized),
        (AppWindowWork::Nothing, Some(exit))
    );
    assert_eq!(
        dispatch_window_event(false, handled, AppWindowEvent::Resized),
        (AppWindowWork::Nothing, Some(handled))
    );
    // then the application itself
    assert_eq!(
        dispatch_window_event(false, unhandled, AppWindowEvent::KeyboardInput(key(KeyCode::KeyF, ElementState::Pressed))),
        (AppWindowWork::KeyCommand(AppKeyCommand::ToggleGui), Some(handled))
    );
    assert_eq!(
        dispatch_window_event(false, unhandled, AppWindowEvent::KeyboardInput(key(KeyCode::KeyW, ElementState::Pressed))),
        (AppWindowWork::Nothing, Some(unhandled))
    );
    assert_eq!(
        dispatch_window_event(false, unhandled, AppWindowEvent::Resized),
        (AppWindowWork::Resize, Some(handled))
    );
    assert_eq!(
        dispatch_window_event(false, unhandled, AppWindowEvent::CloseRequested),
        (AppWindowWork::Nothing, Some(exit))
    );
    assert_eq!(
        dispatch_window_event(false, unhandled, AppWindowEvent::RedrawRequested),
        (AppWindowWork::RunFrame, None)
    );
    assert_eq!(
        dispatch_window_event(false, unhandled, AppWindowEvent::Other),
        (AppWindowWork::Nothing, Some(unhandled))
    );
}

#[test]
fn resize_only_to_a_new_size_with_area() {
    assert!(should_resize(800, 600, 1200, 800));
    assert!(should_resize(1200, 600, 1200, 800));
    assert!(!should_resize(1200, 800, 1200, 800));
    assert!(!should_resize(0, 600, 1200, 800));
    assert!(!should_resize(800, 0, 1200, 800));
}
