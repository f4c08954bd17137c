use vstd::prelude::*;

use crate::keypress::{spec_convert_key_modifiers, convert_key_modifiers, ModifierKeys};

verus! {

/// A position on the terminal grid: column beside row.
#[derive(Clone, Copy, Debug, PartialEq, Eq, Structural)]
pub struct Position {
    pub col: u16,
    pub row: u16,
}

/// A mouse button as the platform reports it, as plain values.
#[derive(Clone, Copy, Debug, PartialEq, Eq, Structural)]
pub enum RawMouseButton {
    Left,
    Right,
    Middle,
}

/// A mouse event kind as the platform reports it, as plain values.
#[derive(Clone, Copy, Debug, PartialEq, Eq, Structural)]
pub enum RawMouseEventKind {
    Down(RawMouseButton),
    Up(RawMouseButton),
    Drag(RawMouseButton),
    Moved,
    ScrollUp,
    ScrollDown,
}

/// A mouse event as the platform reports it, as plain values: the kind of
/// event, where it happened, and the modifiers held with it.
#[derive(Clone, Copy, Debug, PartialEq, Eq, Structural)]
pub struct RawMouseEvent {
    pub kind: RawMouseEventKind,
    pub column: u16,
    pub row: u16,
    pub modifiers: ModifierKeys,
}

/// A typed mouse input: where it happened, what happened, and the modifier
/// keys held with it (`None` where none is held).
#[derive(Clone, Copy, Debug, PartialEq, Eq, Structural)]
pub struct MouseInput {
    pub pos: Position,
    pub kind: MouseInputKind,
    pub maybe_modifier_keys: Option<ModifierKeys>,
}

/// What a mouse input did.
#[derive(Clone, Copy, Debug, PartialEq, Eq, Structural)]
pub enum MouseInputKind {
    MouseDown(Button),
    MouseUp(Button),
    MouseMove,
    MouseDrag(Button),
    ScrollUp,
    ScrollDown,
}

/// A typed mouse button.
#[derive(Clone, Copy, Debug, PartialEq, Eq, Structural)]
pub enum Button {
    Left,
    Right,
    Middle,
}

impl Button {
    /// The typed button a raw button names.
    pub open spec fn spec_from(raw: RawMouseButton) -> Button {
        match raw {
            RawMouseButton::Left => Button::Left,
            RawMouseButton::Right => Button::Right,
            RawMouseButton::Middle => Button::Middle,
        }
    }

    /// Convert a raw mouse button into a typed button.
    pub fn from(mouse_button: RawMouseButton) -> (r: Button)
        ensures
            r == Self::spec_from(mouse_button),
    {
        match mouse_button {
            RawMouseButton::Left => Button::Left,
            RawMouseButton::Right => Button::Right,
            RawMouseButton::Middle => Button::Middle,
        }
    }
}

impl MouseInputKind {
    /// The typed kind a raw mouse event kind names.
    pub open spec fn spec_from(raw: RawMouseEventKind) -> MouseInputKind {
        match raw {
            RawMouseEventKind::Down(button) => MouseInputKind::MouseDown(Button::spec_from(button)),
            RawMouseEventKind::Up(button) => MouseInputKind::MouseUp(Button::spec_from(button)),
            RawMouseEventKind::Moved => MouseInputKind::MouseMove,
            RawMouseEventKind::Drag(button) => MouseInputKind::MouseDrag(Button::spec_from(button)),
            RawMouseEventKind::ScrollUp => MouseInputKind::ScrollUp,
            RawMouseEventKind::ScrollDown => MouseInputKind::ScrollDown,
        }
    }

    /// Convert a raw mouse event kind into a typed kind.
    pub fn from(mouse_event_kind: RawMouseEventKind) -> (r: MouseInputKind)
        ensures
            r == Self::spec_from(mouse_event_kind),
    {
        match mouse_event_kind {
            RawMouseEventKind::Down(button) => MouseInputKind::MouseDown(Button::from(button)),
            RawMouseEventKind::Up(button) => MouseInputKind::MouseUp(Button::from(button)),
            RawMouseEventKind::Moved => MouseInputKind::MouseMove,
            RawMouseEventKind::Drag(button) => MouseInputKind::MouseDrag(Button::from(button)),
            RawMouseEventKind::ScrollUp => MouseInputKind::ScrollUp,
            RawMouseEventKind::ScrollDown => MouseInputKind::ScrollDown,
        }
    }
}

impl MouseInput {
    /// The typed mouse input a raw mouse event names.
    pub open spec fn spec_from(raw: RawMouseEvent) -> MouseInput {
        MouseInput {
            pos: Position { col: raw.column, row: raw.row },
            kind: MouseInputKind::spec_from(raw.kind),
            maybe_modifier_keys: spec_convert_key_modifiers(raw.modifiers),
        }
    }

    /// Convert a raw mouse event into a typed mouse input.
    pub fn from(mouse_event: RawMouseEvent) -> (r: MouseInput)
        ensures
            r == Self::spec_from(mouse_event),
    {
        let pos = Position { col: mouse_event.column, row: mouse_event.row };
        let maybe_modifier_keys: Option<ModifierKeys> = convert_key_modifiers(
            &mouse_event.modifiers,
        );
        let kind: MouseInputKind = MouseInputKind::from(mouse_event.kind);
        MouseInput { pos, kind, maybe_modifier_keys }
    }
}

} // verus!
