use vstd::prelude::*;

verus! {

/// The modifier keys held during a key or mouse event.
#[derive(Clone, Copy, Debug, PartialEq, Eq, Structural)]
pub struct ModifierKeys {
    pub shift: bool,
    pub ctrl: bool,
    pub alt: bool,
}

impl ModifierKeys {
    /// Whether any modifier key is held.
    pub open spec fn any_spec(self) -> bool {
        self.shift || self.ctrl || self.alt
    }

    /// Whether any modifier key is held.
    pub fn any(&self) -> (r: bool)
        ensures
            r == self.any_spec(),
    {
        self.shift || self.ctrl || self.alt
    }
}

/// A key code as the platform reports it, as plain values: the input half of
/// key decoding. `Null` is the platform's "no key"; function keys arrive as
/// their bare number and are only later checked against the keyboard's range.
#[derive(Clone, Copy, Debug, PartialEq, Eq, Structural)]
pub enum RawKeyCode {
    Backspace,
    Enter,
    Left,
    Right,
    Up,
    Down,
    Home,
    End,
    PageUp,
    PageDown,
    Tab,
    BackTab,
    Delete,
    Insert,
    F(u8),
    Char(char),
    Null,
    Esc,
}

/// A key event as the platform reports it, as plain values: the key code and
/// the modifiers held with it.
#[derive(Clone, Copy, Debug, PartialEq, Eq, Structural)]
pub struct RawKeyEvent {
    pub code: RawKeyCode,
    pub modifiers: ModifierKeys,
}

/// A typed keypress: the key pressed, beside the modifier keys held with it
/// (`None` where none is held).
#[derive(Clone, Copy, Debug, PartialEq, Eq, Structural)]
pub struct Keypress {
    pub maybe_modifier_keys: Option<ModifierKeys>,
    pub non_modifier_key: NonModifierKey,
}

/// The key of a keypress: a printable character, a special key, or a
/// function key.
#[derive(Clone, Copy, Debug, PartialEq, Eq, Structural)]
pub enum NonModifierKey {
    Character(char),
    Special(SpecialKey),
    Function(FunctionKey),
}

/// The twelve function keys.
#[derive(Clone, Copy, Debug, PartialEq, Eq, Structural)]
pub enum FunctionKey {
    F1,
    F2,
    F3,
    F4,
    F5,
    F6,
    F7,
    F8,
    F9,
    F10,
    F11,
    F12,
}

/// The non-printing special keys.
#[derive(Clone, Copy, Debug, PartialEq, Eq, Structural)]
pub enum SpecialKey {
    Backspace,
    Enter,
    Left,
    Right,
    Up,
    Down,
    Home,
    End,
    PageUp,
    PageDown,
    Tab,
    BackTab, /* Shift + Tab */
    Delete,
    Insert,
    Esc,
}

/// The modifiers of an event, or `None` where none is held.
pub open spec fn spec_convert_key_modifiers(modifier_keys: ModifierKeys) -> Option<ModifierKeys> {
    if modifier_keys.any_spec() {
        Some(modifier_keys)
    } else {
        None
    }
}

/// Normalise a set of modifier flags: the flags themselves where any is
/// held, `None` otherwise.
pub fn convert_key_modifiers(modifier_keys: &ModifierKeys) -> (r: Option<ModifierKeys>)
    ensures
        r == spec_convert_key_modifiers(*modifier_keys),
{
    if modifier_keys.any() {
        Some(*modifier_keys)
    } else {
        None
    }
}

/// The function key a bare number names, for the twelve keys a keyboard has.
pub open spec fn spec_function_key(n: u8) -> Option<FunctionKey> {
    if n == 1 {
        Some(FunctionKey::F1)
    } else if n == 2 {
        Some(FunctionKey::F2)
    } else if n == 3 {
        Some(FunctionKey::F3)
    } else if n == 4 {
        Some(FunctionKey::F4)
    } else if n == 5 {
        Some(FunctionKey::F5)
    } else if n == 6 {
        Some(FunctionKey::F6)
    } else if n == 7 {
        Some(FunctionKey::F7)
    } else if n == 8 {
        Some(FunctionKey::F8)
    } else if n == 9 {
        Some(FunctionKey::F9)
    } else if n == 10 {
        Some(FunctionKey::F10)
    } else if n == 11 {
        Some(FunctionKey::F11)
    } else if n == 12 {
        Some(FunctionKey::F12)
    } else {
        None
    }
}

/// The key a raw key code carries: `None` for the platform's "no key" and
/// for a function key outside the keyboard's range.
pub open spec fn spec_copy_code(code: RawKeyCode) -> Option<NonModifierKey> {
    match code {
        RawKeyCode::Null => None,
        RawKeyCode::Backspace => Some(NonModifierKey::Special(SpecialKey::Backspace)),
        RawKeyCode::Enter => Some(NonModifierKey::Special(SpecialKey::Enter)),
        RawKeyCode::Left => Some(NonModifierKey::Special(SpecialKey::Left)),
        RawKeyCode::Right => Some(NonModifierKey::Special(SpecialKey::Right)),
        RawKeyCode::Up => Some(NonModifierKey::Special(SpecialKey::Up)),
        RawKeyCode::Down => Some(NonModifierKey::Special(SpecialKey::Down)),
        RawKeyCode::Home => Some(NonModifierKey::Special(SpecialKey::Home)),
        RawKeyCode::End => Some(NonModifierKey::Special(SpecialKey::End)),
        RawKeyCode::PageUp => Some(NonModifierKey::Special(SpecialKey::PageUp)),
        RawKeyCode::PageDown => Some(NonModifierKey::Special(SpecialKey::PageDown)),
        RawKeyCode::Tab => Some(NonModifierKey::Special(SpecialKey::Tab)),
        RawKeyCode::BackTab => Some(NonModifierKey::Special(SpecialKey::BackTab)),
        RawKeyCode::Delete => Some(NonModifierKey::Special(SpecialKey::Delete)),
        RawKeyCode::Insert => Some(NonModifierKey::Special(SpecialKey::Insert)),
        RawKeyCode::Esc => Some(NonModifierKey::Special(SpecialKey::Esc)),
        RawKeyCode::F(n) => match spec_function_key(n) {
            Some(f) => Some(NonModifierKey::Function(f)),
            None => None,
        },
        RawKeyCode::Char(character) => Some(NonModifierKey::Character(character)),
    }
}

/// Copy the modifier keys out of a raw key event: the modifiers held, or
/// `None` where none is held.
pub fn copy_modifiers_from_key_event(key_event: &RawKeyEvent) -> (r: Option<ModifierKeys>)
    ensures
        r == spec_convert_key_modifiers(key_event.modifiers),
{
    convert_key_modifiers(&key_event.modifiers)
}

/// Copy the key out of a raw key event: `None` for the platform's "no key"
/// and for a function key outside the keyboard's range.
pub fn copy_code_from_key_event(key_event: &RawKeyEvent) -> (r: Option<NonModifierKey>)
    ensures
        r == spec_copy_code(key_event.code),
{
    match key_event.code {
        RawKeyCode::Null => None,
        RawKeyCode::Backspace => Some(NonModifierKey::Special(SpecialKey::Backspace)),
        RawKeyCode::Enter => Some(NonModifierKey::Special(SpecialKey::Enter)),
        RawKeyCode::Left => Some(NonModifierKey::Special(SpecialKey::Left)),
        RawKeyCode::Right => Some(NonModifierKey::Special(SpecialKey::Right)),
        RawKeyCode::Up => Some(NonModifierKey::Special(SpecialKey::Up)),
        RawKeyCode::Down => Some(NonModifierKey::Special(SpecialKey::Down)),
        RawKeyCode::Home => Some(NonModifierKey::Special(SpecialKey::Home)),
        RawKeyCode::End => Some(NonModifierKey::Special(SpecialKey::End)),
        RawKeyCode::PageUp => Some(NonModifierKey::Special(SpecialKey::PageUp)),
        RawKeyCode::PageDown => Some(NonModifierKey::Special(SpecialKey::PageDown)),
        RawKeyCode::Tab => Some(NonModifierKey::Special(SpecialKey::Tab)),
        RawKeyCode::BackTab => Some(NonModifierKey::Special(SpecialKey::BackTab)),
        RawKeyCode::Delete => Some(NonModifierKey::Special(SpecialKey::Delete)),
        RawKeyCode::Insert => Some(NonModifierKey::Special(SpecialKey::Insert)),
        RawKeyCode::Esc => Some(NonModifierKey::Special(SpecialKey::Esc)),
        RawKeyCode::F(n) => {
            if n >= 1 && n <= 12 {
                let f = if n == 1 {
                    FunctionKey::F1
                } else if n == 2 {
                    FunctionKey::F2
                } else if n == 3 {
                    FunctionKey::F3
                } else if n == 4 {
                    FunctionKey::F4
                } else if n == 5 {
                    FunctionKey::F5
                } else if n == 6 {
                    FunctionKey::F6
                } else if n == 7 {
                    FunctionKey::F7
                } else if n == 8 {
                    FunctionKey::F8
                } else if n == 9 {
                    FunctionKey::F9
                } else if n == 10 {
                    FunctionKey::F10
                } else if n == 11 {
                    FunctionKey::F11
                } else {
                    FunctionKey::F12
                };
                Some(NonModifierKey::Function(f))
            } else {
                None
            }
        },
        RawKeyCode::Char(character) => Some(NonModifierKey::Character(character)),
    }
}

impl Keypress {
    /// What converting a raw key event yields: a keypress, or a rejection
    /// where the event carries no key.
    pub open spec fn spec_try_from(key_event: RawKeyEvent) -> Result<Keypress, ()> {
        match spec_copy_code(key_event.code) {
            Some(key) => Ok(
                Keypress {
                    maybe_modifier_keys: spec_convert_key_modifiers(key_event.modifiers),
                    non_modifier_key: key,
                },
            ),
            None => Err(()),
        }
    }

    /// Convert a raw key event into a typed keypress; an event that carries
    /// no key (the platform's "no key", a function key outside the
    /// keyboard's range) is rejected.
    pub fn try_from(key_event: RawKeyEvent) -> (r: Result<Keypress, ()>)
        ensures
            r == Self::spec_try_from(key_event),
    {
        let modifiers: Option<ModifierKeys> = copy_modifiers_from_key_event(&key_event);
        let maybe_keypress: Option<NonModifierKey> = copy_code_from_key_event(&key_event);

        if let Some(keypress) = maybe_keypress {
            Ok(Keypress { maybe_modifier_keys: modifiers, non_modifier_key: keypress })
        } else {
            Err(())
        }
    }
}

} // verus!
