use vstd::prelude::*;

use crate::gizmo::{part_ids, Gizmo, GizmoUpdateResult, GizmoWorldActions};

verus! {

/// Where a drag of the gizmo stands. `P` is a cursor position on the
/// screen, `M` what a move needs to know: the axis the gizmo is dragged
/// along and the offset between the grabbed point and the object.
#[derive(Debug, Clone, Copy)]
pub enum GizmoInteractionState<P, M> {
    Idle,
    /// A gizmo part was pressed at the position; the drag starts once the
    /// cursor has left it by the drag threshold.
    WaitingForThresholdAfterPress(P, M),
    Moving(M),
}

/// The window events the gizmo listens to.
pub enum GizmoInputEvent<P> {
    /// The cursor moved to `position`. `drag_threshold_reached` says
    /// whether it is at least the drag threshold away from where a pending
    /// press happened; it is only read while such a press is pending.
    CursorMoved { position: P, drag_threshold_reached: bool },
    RightButtonInput,
    LeftButtonPressed,
    LeftButtonReleased,
    Other,
}

/// What the application does for the gizmo after an event.
pub enum GizmoHandlerAction<P, M> {
    Nothing,
    /// Move the selected object so that the gizmo follows the cursor at the
    /// position along the dragged axis, then move the gizmo with it.
    PerformMove(P, M),
    /// Mark the object under the cursor at the position as hovered.
    UpdateHover(P),
    /// Select the object under the cursor at the position.
    SelectObjectAt(P),
    /// Take these gizmo parts out of the world: the selection was dropped.
    RemoveParts(Vec<u32>),
}

/// Drives the gizmo from mouse input: hovering, selecting, and dragging an
/// axis once the cursor has moved far enough after the press.
pub struct GizmoHandler<P, M> {
    pub gizmo: Gizmo,
    pub interaction_state: GizmoInteractionState<P, M>,
    pub cursor_position: Option<P>,
}

impl<P: Copy, M: Copy> GizmoHandler<P, M> {
    /// The gizmo's own invariant.
    pub open spec fn wf(&self) -> bool {
        self.gizmo.wf()
    }

    /// What dropping the selection does to `gizmo`: nothing stays selected,
    /// and if something was selected its parts and position go away.
    pub open spec fn deselected(old_gizmo: Gizmo, new_gizmo: Gizmo, removed: Seq<u32>) -> bool {
        let had_selection = old_gizmo.selected_object_id is Some;
        &&& new_gizmo.selected_object_id is None
        &&& new_gizmo.hovered_gizmo_part_id == old_gizmo.hovered_gizmo_part_id
        &&& had_selection ==> new_gizmo.parts().len() == 0 && new_gizmo.gizmo_position is None
            && removed == part_ids(old_gizmo.parts())
        &&& !had_selection ==> new_gizmo.parts() == old_gizmo.parts() && new_gizmo.gizmo_position
            == old_gizmo.gizmo_position && removed.len() == 0
    }

    /// Idle, with no cursor seen yet and a fresh gizmo.
    pub fn new() -> (handler: Self)
        ensures
            handler.wf(),
            handler.interaction_state is Idle,
            handler.cursor_position is None,
            handler.gizmo.selected_object_id is None,
            handler.gizmo.parts().len() == 0,
    {
        GizmoHandler {
            gizmo: Gizmo::new(),
            interaction_state: GizmoInteractionState::Idle,
            cursor_position: None,
        }
    }

    /// Drops the selection. Returns whether a gizmo went away, and the parts
    /// to take out of the world.
    fn deselect(&mut self) -> (outcome: (bool, Vec<u32>))
        requires
            old(self).wf(),
        ensures
            final(self).wf(),
            Self::deselected(old(self).gizmo, final(self).gizmo, outcome.1@),
            outcome.0 == (old(self).gizmo.selected_object_id is Some),
            final(self).interaction_state == old(self).interaction_state,
            final(self).cursor_position == old(self).cursor_position,
    {
        let (result, actions) = self.gizmo.update_with_new_object_id(None, None);
        let removed = match result {
            GizmoUpdateResult::GizmoRemoved => true,
            _ => false,
        };
        (removed, actions.remove_parts)
    }

    /// Drops the selection; returns the gizmo parts to take out of the world.
    pub fn remove_object_selection(&mut self) -> (removed_parts: Vec<u32>)
        requires
            old(self).wf(),
        ensures
            final(self).wf(),
            Self::deselected(old(self).gizmo, final(self).gizmo, removed_parts@),
            final(self).interaction_state == old(self).interaction_state,
            final(self).cursor_position == old(self).cursor_position,
    {
        let (_, removed_parts) = self.deselect();
        removed_parts
    }

    /// Reacts to a window event. Returns whether the event was consumed and
    /// what the application is to do.
    ///
    /// A cursor move is never consumed, so that others see it too; it hovers
    /// while idle, starts the drag once the threshold is reached after a
    /// press, and moves the object while dragging. A right click drops the
    /// selection and is consumed if a gizmo went away. A left press selects
    /// what is under the cursor (or drops the selection when no cursor was
    /// seen yet); a left release always ends the interaction.
    pub fn handle_window_event(&mut self, event: GizmoInputEvent<P>) -> (outcome: (
        bool,
        GizmoHandlerAction<P, M>,
    ))
        requires
            old(self).wf(),
        ensures
            final(self).wf(),
            match event {
                GizmoInputEvent::CursorMoved { position, drag_threshold_reached } => {
                    &&& !outcome.0
                    &&& final(self).cursor_position == Some(position)
                    &&& final(self).gizmo == old(self).gizmo
                    &&& match old(self).interaction_state {
                        GizmoInteractionState::WaitingForThresholdAfterPress(_, info) => {
                            if drag_threshold_reached {
                                &&& final(self).interaction_state
                                    == GizmoInteractionState::<P, M>::Moving(info)
                                &&& outcome.1 == GizmoHandlerAction::<P, M>::PerformMove(
                                    position,
                                    info,
                                )
                            } else {
                                &&& final(self).interaction_state == old(self).interaction_state
                                &&& outcome.1 is Nothing
                            }
                        },
                        GizmoInteractionState::Moving(info) => {
                            &&& final(self).interaction_state == old(self).interaction_state
                            &&& outcome.1 == GizmoHandlerAction::<P, M>::PerformMove(position, info)
                        },
                        GizmoInteractionState::Idle => {
                            &&& final(self).interaction_state is Idle
                            &&& outcome.1 == GizmoHandlerAction::<P, M>::UpdateHover(position)
                        },
                    }
                },
                GizmoInputEvent::RightButtonInput => {
                    &&& outcome.0 == (old(self).gizmo.selected_object_id is Some)
                    &&& outcome.1 matches GizmoHandlerAction::RemoveParts(ids) && Self::deselected(
                        old(self).gizmo,
                        final(self).gizmo,
                        ids@,
                    )
                    &&& final(self).interaction_state == old(self).interaction_state
                    &&& final(self).cursor_position == old(self).cursor_position
                },
                GizmoInputEvent::LeftButtonPressed => {
                    &&& outcome.0
                    &&& final(self).interaction_state == old(self).interaction_state
                    &&& final(self).cursor_position == old(self).cursor_position
                    &&& match old(self).cursor_position {
                        Some(position) => {
                            &&& outcome.1 == GizmoHandlerAction::<P, M>::SelectObjectAt(position)
                            &&& final(self).gizmo == old(self).gizmo
                        },
                        None => outcome.1 matches GizmoHandlerAction::RemoveParts(ids)
                            && Self::deselected(old(self).gizmo, final(self).gizmo, ids@),
                    }
                },
                GizmoInputEvent::LeftButtonReleased => {
                    &&& outcome.0
                    &&& outcome.1 is Nothing
                    &&& final(self).interaction_state is Idle
                    &&& final(self).cursor_position == old(self).cursor_position
                    &&& final(self).gizmo == old(self).gizmo
                },
                GizmoInputEvent::Other => {
                    &&& !outcome.0
                    &&& outcome.1 is Nothing
                    &&& final(self).interaction_state == old(self).interaction_state
                    &&& final(self).cursor_position == old(self).cursor_position
                    &&& final(self).gizmo == old(self).gizmo
                },
            },
    {
        match event {
            GizmoInputEvent::CursorMoved { position, drag_threshold_reached } => {
                self.cursor_position = Some(position);
                let action = match self.interaction_state {
                    GizmoInteractionState::WaitingForThresholdAfterPress(_, gizmo_move_info) => {
                        if drag_threshold_reached {
                            self.interaction_state = GizmoInteractionState::Moving(gizmo_move_info);
                            GizmoHandlerAction::PerformMove(position, gizmo_move_info)
                        } else {
                            GizmoHandlerAction::Nothing
                        }
                    },
                    GizmoInteractionState::Moving(gizmo_move_info) => {
                        GizmoHandlerAction::PerformMove(position, gizmo_move_info)
                    },
                    GizmoInteractionState::Idle => GizmoHandlerAction::UpdateHover(position),
                };
                (false, action)
            },
            GizmoInputEvent::RightButtonInput => {
                let (removed, parts) = self.deselect();
                (removed, GizmoHandlerAction::RemoveParts(parts))
            },
            GizmoInputEvent::LeftButtonPressed => {
                match self.cursor_position {
                    Some(position) => (true, GizmoHandlerAction::SelectObjectAt(position)),
                    None => {
                        let (_, parts) = self.deselect();
                        (true, GizmoHandlerAction::RemoveParts(parts))
                    },
                }
            },
            GizmoInputEvent::LeftButtonReleased => {
                self.interaction_state = GizmoInteractionState::Idle;
                (true, GizmoHandlerAction::Nothing)
            },
            GizmoInputEvent::Other => (false, GizmoHandlerAction::Nothing),
        }
    }

    /// After a press selected a gizmo part: waits for the drag threshold
    /// from the current cursor position, with what the move will need.
    pub fn begin_drag(&mut self, gizmo_move_info: M)
        ensures
            final(self).gizmo == old(self).gizmo,
            final(self).cursor_position == old(self).cursor_position,
            match old(self).cursor_position {
                Some(position) => final(self).interaction_state
                    == GizmoInteractionState::<P, M>::WaitingForThresholdAfterPress(
                    position,
                    gizmo_move_info,
                ),
                None => final(self).interaction_state == old(self).interaction_state,
            },
    {
        if let Some(cursor_position) = self.cursor_position {
            self.interaction_state = GizmoInteractionState::WaitingForThresholdAfterPress(
                cursor_position,
                gizmo_move_info,
            );
        }
    }

    /// The selected object, if any.
    pub fn get_active_onject_id(&self) -> (id: Option<u32>)
        ensures
            id == self.gizmo.selected_object_id,
    {
        self.gizmo.selected_object_id
    }
}

} // verus!
