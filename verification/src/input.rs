use vstd::prelude::*;

verus! {

/// The keys the engine reacts to, by their place on the keyboard.
#[derive(Debug, Clone, Copy, PartialEq, Eq, Structural)]
pub enum KeyCode {
    KeyW,
    KeyS,
    KeyA,
    KeyD,
    KeyQ,
    KeyE,
    KeyF,
    KeyI,
    /// Any other key, or a key the platform could not identify.
    Other,
}

/// Whether a key or button went down or up.
#[derive(Debug, Clone, Copy, PartialEq, Eq, Structural)]
pub enum ElementState {
    Pressed,
    Released,
}

/// A key going down or up.
#[derive(Debug, Clone, Copy, PartialEq, Eq, Structural)]
pub struct KeyEvent {
    pub physical_key: KeyCode,
    pub state: ElementState,
}

} // verus!
