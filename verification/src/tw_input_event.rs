use vstd::prelude::*;

use crate::keypress::{Keypress, RawKeyCode, RawKeyEvent};
use crate::mouse_input::{MouseInput, RawMouseEvent};

verus! {

/// A terminal size: columns beside rows.
#[derive(Clone, Copy, Debug, PartialEq, Eq, Structural)]
pub struct Size {
    pub cols: u16,
    pub rows: u16,
}

/// An input event as the platform reports it, as plain values: a key event,
/// a mouse event, or a resize to `(columns, rows)`.
#[derive(Clone, Copy, Debug, PartialEq, Eq, Structural)]
pub enum RawInputEvent {
    Key(RawKeyEvent),
    Mouse(RawMouseEvent),
    Resize(u16, u16),
}

/// A typed terminal input event.
#[non_exhaustive]
#[derive(Clone, Copy, Debug, PartialEq, Eq, Structural)]
pub enum TWInputEvent {
    /// A [char] that can be printed to the console: a character key pressed
    /// with at most Shift held.
    DisplayableKeypress(char),
    NonDisplayableKeypress(Keypress),
    Resize(Size),
    Mouse(MouseInput),
    Noop,
}

impl TWInputEvent {
    /// Whether this input event equals one of the given exit keys.
    pub fn matches(&self, exit_keys: &[TWInputEvent]) -> (r: bool)
        ensures
            r == exists|i: int| 0 <= i < exit_keys@.len() && exit_keys@[i] == *self,
    {
        let mut idx: usize = 0;
        while idx < exit_keys.len()
            invariant
                idx <= exit_keys@.len(),
                forall|i: int| 0 <= i < idx ==> exit_keys@[i] != *self,
            decreases exit_keys@.len() - idx,
        {
            let lhs = *self;
            let rhs = exit_keys[idx];
            if lhs == rhs {
                return true;
            }
            idx += 1;
        }
        false
    }

    /// What converting a raw key event yields: the bare character for a
    /// character key pressed with at most Shift held, the typed keypress for
    /// every other key, and a rejection where the event carries no key.
    pub open spec fn spec_try_from_key(key_event: RawKeyEvent) -> Result<TWInputEvent, ()> {
        if key_event.code is Char && !key_event.modifiers.ctrl && !key_event.modifiers.alt {
            Ok(TWInputEvent::DisplayableKeypress(key_event.code->Char_0))
        } else {
            match Keypress::spec_try_from(key_event) {
                Ok(keypress) => Ok(TWInputEvent::NonDisplayableKeypress(keypress)),
                Err(_) => Err(()),
            }
        }
    }

    /// Convert a raw key event: a character key pressed with at most Shift
    /// held is displayable; every other key press is a typed keypress.
    pub fn try_from_key(key_event: RawKeyEvent) -> (r: Result<TWInputEvent, ()>)
        ensures
            r == Self::spec_try_from_key(key_event),
    {
        match key_event.code {
            RawKeyCode::Char(character) if !key_event.modifiers.ctrl
                && !key_event.modifiers.alt => Ok(TWInputEvent::DisplayableKeypress(character)),
            // All other key presses.
            _ => {
                match Keypress::try_from(key_event) {
                    Ok(keypress) => Ok(TWInputEvent::NonDisplayableKeypress(keypress)),
                    Err(_) => Err(()),
                }
            },
        }
    }

    /// Convert a `(rows, columns)` pair into a resize event.
    pub fn from_size(size: (u16, u16)) -> (r: TWInputEvent)
        ensures
            r == TWInputEvent::Resize(Size { cols: size.1, rows: size.0 }),
    {
        let (rows, cols) = size;
        TWInputEvent::Resize(Size { cols, rows })
    }

    /// Convert a raw mouse event into a typed mouse input event.
    pub fn from_mouse(mouse_event: RawMouseEvent) -> (r: TWInputEvent)
        ensures
            r == TWInputEvent::Mouse(MouseInput::spec_from(mouse_event)),
    {
        TWInputEvent::Mouse(MouseInput::from(mouse_event))
    }

    /// What converting a raw input event yields.
    pub open spec fn spec_try_from(event: RawInputEvent) -> Result<TWInputEvent, ()> {
        match event {
            RawInputEvent::Key(key_event) => Self::spec_try_from_key(key_event),
            RawInputEvent::Mouse(mouse_event) => Ok(
                TWInputEvent::Mouse(MouseInput::spec_from(mouse_event)),
            ),
            RawInputEvent::Resize(cols, rows) => Ok(
                TWInputEvent::Resize(Size { cols, rows }),
            ),
        }
    }

    /// Convert a raw input event into a typed input event; only a key event
    /// that carries no key is rejected.
    pub fn try_from(event: RawInputEvent) -> (r: Result<TWInputEvent, ()>)
        ensures
            r == Self::spec_try_from(event),
    {
        match event {
            RawInputEvent::Key(key_event) => Self::try_from_key(key_event),
            RawInputEvent::Mouse(mouse_event) => Ok(Self::from_mouse(mouse_event)),
            RawInputEvent::Resize(cols, rows) => Ok(Self::from_size((rows, cols))),
        }
    }
}

impl Default for TWInputEvent {
    /// The neutral input event.
    fn default() -> (r: Self)
        ensures
            r == TWInputEvent::Noop,
    {
        TWInputEvent::Noop
    }
}

} // verus!
