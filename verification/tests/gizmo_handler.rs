use rendering_engine::float_values::{FloatBits, Vec3Bits};
use rendering_engine::gizmo::GizmoUpdateResult;
use rendering_engine::gizmo_handler::{
    GizmoHandler, GizmoHandlerAction, GizmoInputEvent, GizmoInteractionState,
};

type Handler = GizmoHandler<(i32, i32), u8>;

fn point(x: u32) -> Vec3Bits {
    Vec3Bits { x: FloatBits(x), y: FloatBits(0), z: FloatBits(0) }
}

fn moved(x: i32, y: i32, reached: bool) -> GizmoInputEvent<(i32, i32)> {
    GizmoInputEvent::CursorMoved { position: (x, y), drag_threshold_reached: reached }
}

/// A handler whose gizmo stands on object 7 with parts 100, 101, 102.
fn handler_with_selection() -> Handler {
    let mut handler = Handler::new();
    let (result, _) = handler.gizmo.update_with_new_object_id(Some(7), Some(point(5)));
    assert_eq!(result, GizmoUpdateResult::GizmoAddedWithPosition);
    for id in [100, 101, 102] {
        handler.gizmo.add_drawn_part(id, point(id));
    }
    handler
}

#[test]
fn new_handler_is_idle() {
    let handler = Handler::new();
    assert!(matches!(handler.interaction_state, GizmoInteractionState::Idle));
    assert_eq!(handler.cursor_position, None);
    assert_eq!(handler.get_active_onject_id(), None);
}

#[test]
fn cursor_move_while_idle_hovers_and_is_not_consumed() {
    let mut handler = Handler::new();
    let (consumed, action) = handler.handle_window_event(moved(3, 4, false));
    assert!(!consumed);
    assert!(matches!(action, GizmoHandlerAction::UpdateHover((3, 4))));
    assert_eq!(handler.cursor_position, Some((3, 4)));
}

#[test]
fn left_press_selects_under_cursor() {
    let mut handler = Handler::new();
    handler.handle_window_event(moved(10, 20, false));
    let (consumed, action) = handler.handle_window_event(GizmoInputEvent::LeftButtonPressed);
    assert!(consumed);
    assert!(matches!(action, GizmoHandlerAction::SelectObjectAt((10, 20))));
}

#[test]
fn left_press_without_cursor_drops_selection() {
    let mut handler = handler_with_selection();
    let (consumed, action) = handler.handle_window_event(GizmoInputEvent::LeftButtonPressed);
    assert!(consumed);
    match action {
        GizmoHandlerAction::RemoveParts(parts) => assert_eq!(parts, vec![100, 101, 102]),
        _ => panic!("expected the gizmo parts to be removed"),
    }
    assert_eq!(handler.get_active_onject_id(), None);
}

#[test]
fn drag_starts_only_after_threshold() {
    let mut handler = Handler::new();
    handler.handle_window_event(moved(10, 20, false));
    handler.begin_drag(9);
    assert!(matches!(
        handler.interaction_state,
        GizmoInteractionState::WaitingForThresholdAfterPress((10, 20), 9)
    ));
    let (consumed, action) = handler.handle_window_event(moved(11, 20, false));
    assert!(!consumed);
    assert!(matches!(action, GizmoHandlerAction::Nothing));
    assert!(matches!(
        handler.interaction_state,
        GizmoInteractionState::WaitingForThresholdAfterPress((10, 20), 9)
    ));
    let (_, action) = handler.handle_window_event(moved(30, 20, true));
    assert!(matches!(action, GizmoHandlerAction::PerformMove((30, 20), 9)));
    assert!(matches!(handler.interaction_state, GizmoInteractionState::Moving(9)));
    let (_, action) = handler.handle_window_event(moved(40, 25, false));
    assert!(matches!(action, GizmoHandlerAction::PerformMove((40, 25), 9)));
}

#[test]
fn release_ends_interaction() {
    let mut handler = Handler::new();
    handler.handle_window_event(moved(1, 1, false));
    handler.begin_drag(2);
    handler.handle_window_event(moved(50, 50, true));
    let (consumed, action) = handler.handle_window_event(GizmoInputEvent::LeftButtonReleased);
    assert!(consumed);
    assert!(matches!(action, GizmoHandlerAction::Nothing));
    assert!(matches!(handler.interaction_state, GizmoInteractionState::Idle));
}

#[test]
fn begin_drag_without_cursor_changes_nothing() {
    let mut handler = Handler::new();
    handler.begin_drag(4);
    assert!(matches!(handler.interaction_state, GizmoInteractionState::Idle));
}

#[test]
fn right_click_is_consumed_only_when_a_gizmo_goes_away() {
    let mut handler = handler_with_selection();
    let (consumed, action) = handler.handle_window_event(GizmoInputEvent::RightButtonInput);
    assert!(consumed);
    assert!(matches!(action, GizmoHandlerAction::RemoveParts(ref p) if p.len() == 3));
    assert_eq!(handler.gizmo.gizmo_position, None);
    let (consumed, action) = handler.handle_window_event(GizmoInputEvent::RightButtonInput);
    assert!(!consumed);
    assert!(matches!(action, GizmoHandlerAction::RemoveParts(ref p) if p.is_empty()));
}

#[test]
fn remove_object_selection_returns_parts() {
    let mut handler = handler_with_selection();
    assert_eq!(handler.get_active_onject_id(), Some(7));
    assert_eq!(handler.remove_object_selection(), vec![100, 101, 102]);
    assert_eq!(handler.get_active_onject_id(), None);
    assert!(handler.gizmo.drawn_part_ids().is_empty());
}

#[test]
fn other_events_are_ignored() {
    let mut handler = handler_with_selection();
    let (consumed, action) = handler.handle_window_event(GizmoInputEvent::Other);
    assert!(!consumed);
    assert!(matches!(action, GizmoHandlerAction::Nothing));
    assert_eq!(handler.get_active_onject_id(), Some(7));
}
