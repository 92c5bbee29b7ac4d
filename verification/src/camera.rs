use vstd::prelude::*;

use crate::float_values::{FloatBits, Vec3Bits, FLOAT_ONE_BITS, FLOAT_ZERO_BITS};
use crate::input::{ElementState, KeyCode, KeyEvent};

verus! {

/// The movement keys held down, as the camera moves by them: each component
/// of the two speed vectors is `1.0` while its key is held and `0.0`
/// otherwise (by their bits). W/S move forward and back along z, D/A right
/// and left along x, Q/E up and down along y.
#[derive(Debug, Clone, Copy, PartialEq, Eq, Structural)]
pub struct CameraMovement {
    pub current_speed_positive: Vec3Bits,
    pub current_speed_negative: Vec3Bits,
}

/// `0.0` or `1.0`.
pub open spec fn is_flag(value: FloatBits) -> bool {
    value == FloatBits(FLOAT_ZERO_BITS) || value == FloatBits(FLOAT_ONE_BITS)
}

/// The flag a key event leaves behind: `1.0` while pressed, `0.0` once
/// released.
pub open spec fn key_flag_value(state: ElementState) -> FloatBits {
    match state {
        ElementState::Pressed => FloatBits(FLOAT_ONE_BITS),
        ElementState::Released => FloatBits(FLOAT_ZERO_BITS),
    }
}

/// The speed component that `key` drives, if it is a movement key.
pub open spec fn key_flag(movement: CameraMovement, key: KeyCode) -> Option<FloatBits> {
    let pos = movement.current_speed_positive;
    let neg = movement.current_speed_negative;
    match key {
        KeyCode::KeyW => Some(pos.z),
        KeyCode::KeyS => Some(neg.z),
        KeyCode::KeyA => Some(neg.x),
        KeyCode::KeyD => Some(pos.x),
        KeyCode::KeyQ => Some(pos.y),
        KeyCode::KeyE => Some(neg.y),
        _ => None,
    }
}

/// `movement` after `event`: the component its key drives takes the flag
/// of the event; everything else stays.
pub open spec fn movement_after_key(movement: CameraMovement, event: KeyEvent) -> CameraMovement {
    let v = key_flag_value(event.state);
    let pos = movement.current_speed_positive;
    let neg = movement.current_speed_negative;
    match event.physical_key {
        KeyCode::KeyW => CameraMovement {
            current_speed_positive: Vec3Bits { x: pos.x, y: pos.y, z: v },
            current_speed_negative: neg,
        },
        KeyCode::KeyS => CameraMovement {
            current_speed_positive: pos,
            current_speed_negative: Vec3Bits { x: neg.x, y: neg.y, z: v },
        },
        KeyCode::KeyA => CameraMovement {
            current_speed_positive: pos,
            current_speed_negative: Vec3Bits { x: v, y: neg.y, z: neg.z },
        },
        KeyCode::KeyD => CameraMovement {
            current_speed_positive: Vec3Bits { x: v, y: pos.y, z: pos.z },
            current_speed_negative: neg,
        },
        KeyCode::KeyQ => CameraMovement {
            current_speed_positive: Vec3Bits { x: pos.x, y: v, z: pos.z },
            current_speed_negative: neg,
        },
        KeyCode::KeyE => CameraMovement {
            current_speed_positive: pos,
            current_speed_negative: Vec3Bits { x: neg.x, y: v, z: neg.z },
        },
        _ => movement,
    }
}

/// The zero vector, by its bits.
pub open spec fn zero_vec3() -> Vec3Bits {
    Vec3Bits { x: FloatBits(FLOAT_ZERO_BITS), y: FloatBits(FLOAT_ZERO_BITS), z: FloatBits(FLOAT_ZERO_BITS) }
}

impl CameraMovement {
    /// Every component is a flag, `0.0` or `1.0`.
    pub open spec fn wf(&self) -> bool {
        &&& is_flag(self.current_speed_positive.x)
        &&& is_flag(self.current_speed_positive.y)
        &&& is_flag(self.current_speed_positive.z)
        &&& is_flag(self.current_speed_negative.x)
        &&& is_flag(self.current_speed_negative.y)
        &&& is_flag(self.current_speed_negative.z)
    }

    /// No key held.
    pub fn new() -> (movement: Self)
        ensures
            movement.wf(),
            movement.current_speed_positive == zero_vec3(),
            movement.current_speed_negative == zero_vec3(),
    {
        let zero = Vec3Bits::splat(FloatBits(FLOAT_ZERO_BITS));
        CameraMovement { current_speed_positive: zero, current_speed_negative: zero }
    }

    /// Records a movement key going down or up; other keys change nothing.
    pub fn handle_keyboard_event(&mut self, keyboard_event: &KeyEvent)
        requires
            old(self).wf(),
        ensures
            final(self).wf(),
            *final(self) == movement_after_key(*old(self), *keyboard_event),
    {
        let value = match keyboard_event.state {
            ElementState::Pressed => FloatBits(FLOAT_ONE_BITS),
            ElementState::Released => FloatBits(FLOAT_ZERO_BITS),
        };
        match keyboard_event.physical_key {
            KeyCode::KeyW => self.current_speed_positive.z = value,
            KeyCode::KeyS => self.current_speed_negative.z = value,
            KeyCode::KeyA => self.current_speed_negative.x = value,
            KeyCode::KeyD => self.current_speed_positive.x = value,
            KeyCode::KeyQ => self.current_speed_positive.y = value,
            KeyCode::KeyE => self.current_speed_negative.y = value,
            _ => {},
        }
    }

    /// Forgets every held key.
    pub fn stop_movement(&mut self)
        ensures
            final(self).wf(),
            final(self).current_speed_positive == zero_vec3(),
            final(self).current_speed_negative == zero_vec3(),
    {
        let zero = Vec3Bits::splat(FloatBits(FLOAT_ZERO_BITS));
        self.current_speed_negative = zero;
        self.current_speed_positive = zero;
    }
}

/// Pressing a key that is not held and releasing it again leaves the
/// movement as it was; a release always leaves the key's component at
/// `0.0`, and a press at `1.0`.
pub proof fn lemma_release_undoes_press(movement: CameraMovement, key: KeyCode)
    requires
        movement.wf(),
        key_flag(movement, key) is None || key_flag(movement, key) == Some(FloatBits(FLOAT_ZERO_BITS)),
    ensures
        movement_after_key(
            movement_after_key(movement, KeyEvent { physical_key: key, state: ElementState::Pressed }),
            KeyEvent { physical_key: key, state: ElementState::Released },
        ) == movement,
        key_flag(movement_after_key(movement, KeyEvent { physical_key: key, state: ElementState::Pressed }), key)
            is Some ==> key_flag(
            movement_after_key(movement, KeyEvent { physical_key: key, state: ElementState::Pressed }),
            key,
        ) == Some(FloatBits(FLOAT_ONE_BITS)),
        key_flag(movement_after_key(movement, KeyEvent { physical_key: key, state: ElementState::Released }), key)
            is Some ==> key_flag(
            movement_after_key(movement, KeyEvent { physical_key: key, state: ElementState::Released }),
            key,
        ) == Some(FloatBits(FLOAT_ZERO_BITS)),
{
}

/// A key event drives exactly the component of its key: after a press that
/// component is `1.0` and after a release `0.0`, whatever it was before (a
/// key held down and pressed again keeps moving); the components of all
/// other keys stay; other keys change nothing; the movement stays made of
/// flags.
pub proof fn lemma_key_event_sets_its_component(movement: CameraMovement, event: KeyEvent)
    requires
        movement.wf(),
    ensures
        movement_after_key(movement, event).wf(),
        key_flag(movement, event.physical_key) is Some ==> key_flag(
            movement_after_key(movement, event),
            event.physical_key,
        ) == Some(
            if event.state == ElementState::Pressed {
                FloatBits(FLOAT_ONE_BITS)
            } else {
                FloatBits(FLOAT_ZERO_BITS)
            },
        ),
        key_flag(movement, event.physical_key) is None ==> movement_after_key(movement, event)
            == movement,
        forall|other: KeyCode|
            other != event.physical_key ==> #[trigger] key_flag(movement_after_key(movement, event), other)
                == key_flag(movement, other),
{
}

/// The window events the camera listens to; `P` is a cursor position.
pub enum CameraInputEvent<P> {
    /// The right mouse button went down or up; it turns camera movement
    /// on while held.
    RightButtonInput(ElementState),
    /// Any other mouse button.
    OtherButtonInput,
    CursorMoved(P),
    KeyboardInput(KeyEvent),
    Other,
}

/// The input side of the camera controller: the held movement keys,
/// whether movement is on (while the right button is held), and the last
/// cursor position seen while it is on.
pub struct CameraController<P> {
    pub movement: CameraMovement,
    pub is_movement_enabled: bool,
    pub cursor_position: Option<P>,
}

impl<P: Copy> CameraController<P> {
    /// Movement off, nothing held, no cursor seen.
    pub fn new() -> (controller: Self)
        ensures
            controller.movement.wf(),
            !controller.is_movement_enabled,
            controller.cursor_position is None,
            controller.movement.current_speed_positive == zero_vec3(),
            controller.movement.current_speed_negative == zero_vec3(),
    {
        CameraController {
            movement: CameraMovement::new(),
            is_movement_enabled: false,
            cursor_position: None,
        }
    }

    /// Turns movement on or off; turning it off stops the camera and
    /// forgets the cursor.
    pub fn set_is_movement_enabled(&mut self, value: bool)
        requires
            old(self).movement.wf(),
        ensures
            final(self).movement.wf(),
            final(self).is_movement_enabled == value,
            value ==> final(self).movement == old(self).movement && final(self).cursor_position
                == old(self).cursor_position,
            !value ==> final(self).movement.current_speed_positive == zero_vec3()
                && final(self).movement.current_speed_negative == zero_vec3()
                && final(self).cursor_position is None,
    {
        self.is_movement_enabled = value;
        if !self.is_movement_enabled {
            self.movement.stop_movement();
            self.cursor_position = None;
        }
    }

    /// Reacts to a window event. Returns whether it was consumed and, for a
    /// cursor move while movement is on, the previous and the new cursor
    /// position, by whose difference the camera turns.
    ///
    /// The right button switches movement on and off. While movement is on,
    /// cursor moves and keys belong to the camera; while it is off, they are
    /// left to others and change nothing.
    pub fn process_window_event(&mut self, event: &CameraInputEvent<P>) -> (outcome: (
        bool,
        Option<(P, P)>,
    ))
        requires
            old(self).movement.wf(),
        ensures
            final(self).movement.wf(),
            match *event {
                CameraInputEvent::RightButtonInput(state) => {
                    let value = state == ElementState::Pressed;
                    &&& outcome == (true, Option::<(P, P)>::None)
                    &&& final(self).is_movement_enabled == value
                    &&& value ==> final(self).movement == old(self).movement
                        && final(self).cursor_position == old(self).cursor_position
                    &&& !value ==> final(self).movement.current_speed_positive == zero_vec3()
                        && final(self).movement.current_speed_negative == zero_vec3()
                        && final(self).cursor_position is None
                },
                CameraInputEvent::CursorMoved(position) => {
                    &&& final(self).movement == old(self).movement
                    &&& final(self).is_movement_enabled == old(self).is_movement_enabled
                    &&& if old(self).is_movement_enabled {
                        &&& outcome.0
                        &&& final(self).cursor_position == Some(position)
                        &&& outcome.1 == match old(self).cursor_position {
                            Some(previous) => Some((previous, position)),
                            None => Option::<(P, P)>::None,
                        }
                    } else {
                        &&& outcome == (false, Option::<(P, P)>::None)
                        &&& final(self).cursor_position == old(self).cursor_position
                    }
                },
                CameraInputEvent::KeyboardInput(key_event) => {
                    &&& outcome.1 is None
                    &&& outcome.0 == old(self).is_movement_enabled
                    &&& final(self).is_movement_enabled == old(self).is_movement_enabled
                    &&& final(self).cursor_position == old(self).cursor_position
                    &&& final(self).movement == if old(self).is_movement_enabled {
                        movement_after_key(old(self).movement, key_event)
                    } else {
                        old(self).movement
                    }
                },
                _ => {
                    &&& outcome == (false, Option::<(P, P)>::None)
                    &&& final(self).movement == old(self).movement
                    &&& final(self).is_movement_enabled == old(self).is_movement_enabled
                    &&& final(self).cursor_position == old(self).cursor_position
                },
            },
    {
        match event {
            CameraInputEvent::RightButtonInput(state) => {
                let pressed = match state {
                    ElementState::Pressed => true,
                    ElementState::Released => false,
                };
                self.set_is_movement_enabled(pressed);
                (true, None)
            },
            CameraInputEvent::CursorMoved(position) => {
                if self.is_movement_enabled {
                    let motion = match self.cursor_position {
                        Some(previous_position) => Some((previous_position, *position)),
                        None => None,
                    };
                    self.cursor_position = Some(*position);
                    (true, motion)
                } else {
                    (false, None)
                }
            },
            CameraInputEvent::KeyboardInput(key_event) => {
                if self.is_movement_enabled {
                    self.movement.handle_keyboard_event(key_event);
                    (true, None)
                } else {
                    (false, None)
                }
            },
            _ => (false, None),
        }
    }
}

} // verus!
