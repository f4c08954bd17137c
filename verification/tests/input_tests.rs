use redux_store::keypress::{
    convert_key_modifiers, copy_code_from_key_event, copy_modifiers_from_key_event, FunctionKey,
    Keypress, ModifierKeys, NonModifierKey, RawKeyCode, RawKeyEvent, SpecialKey,
};
use redux_store::mouse_input::{
    Button, MouseInput, MouseInputKind, Position, RawMouseButton, RawMouseEvent, RawMouseEventKind,
};
use redux_store::tw_input_event::{RawInputEvent, Size, TWInputEvent};

const NO_MODIFIERS: ModifierKeys = ModifierKeys {
    shift: false,
    ctrl: false,
    alt: false,
};

fn key(code: RawKeyCode) -> RawKeyEvent {
    RawKeyEvent {
        code,
        modifiers: NO_MODIFIERS,
    }
}

#[test]
fn modifiers_are_none_when_no_flag_is_held() {
    assert_eq!(convert_key_modifiers(&NO_MODIFIERS), None);
    let ctrl = ModifierKeys {
        shift: false,
        ctrl: true,
        alt: false,
    };
    assert_eq!(convert_key_modifiers(&ctrl), Some(ctrl));
    assert_eq!(copy_modifiers_from_key_event(&key(RawKeyCode::Enter)), None);
}

#[test]
fn key_codes_decode_to_typed_keys() {
    assert_eq!(
        copy_code_from_key_event(&key(RawKeyCode::Char('a'))),
        Some(NonModifierKey::Character('a'))
    );
    assert_eq!(
        copy_code_from_key_event(&key(RawKeyCode::Backspace)),
        Some(NonModifierKey::Special(SpecialKey::Backspace))
    );
    assert_eq!(
        copy_code_from_key_event(&key(RawKeyCode::BackTab)),
        Some(NonModifierKey::Special(SpecialKey::BackTab))
    );
    assert_eq!(
        copy_code_from_key_event(&key(RawKeyCode::F(5))),
        Some(NonModifierKey::Function(FunctionKey::F5))
    );
    assert_eq!(
        copy_code_from_key_event(&key(RawKeyCode::F(12))),
        Some(NonModifierKey::Function(FunctionKey::F12))
    );
    // Outside the keyboard's range, and the platform's "no key".
    assert_eq!(copy_code_from_key_event(&key(RawKeyCode::F(13))), None);
    assert_eq!(copy_code_from_key_event(&key(RawKeyCode::F(0))), None);
    assert_eq!(copy_code_from_key_event(&key(RawKeyCode::Null)), None);
}

#[test]
fn keypress_conversion_keeps_modifiers() {
    let shifted = RawKeyEvent {
        code: RawKeyCode::Tab,
        modifiers: ModifierKeys {
            shift: true,
            ctrl: false,
            alt: false,
        },
    };
    assert_eq!(
        Keypress::try_from(shifted),
        Ok(Keypress {
            maybe_modifier_keys: Some(shifted.modifiers),
            non_modifier_key: NonModifierKey::Special(SpecialKey::Tab),
        })
    );
    assert_eq!(Keypress::try_from(key(RawKeyCode::Null)), Err(()));
}

#[test]
fn displayable_keypress_allows_at_most_shift() {
    let plain = key(RawKeyCode::Char('x'));
    assert_eq!(
        TWInputEvent::try_from_key(plain),
        Ok(TWInputEvent::DisplayableKeypress('x'))
    );

    let shifted = RawKeyEvent {
        code: RawKeyCode::Char('X'),
        modifiers: ModifierKeys {
            shift: true,
            ctrl: false,
            alt: false,
        },
    };
    assert_eq!(
        TWInputEvent::try_from_key(shifted),
        Ok(TWInputEvent::DisplayableKeypress('X'))
    );

    let controlled = RawKeyEvent {
        code: RawKeyCode::Char('c'),
        modifiers: ModifierKeys {
            shift: false,
            ctrl: true,
            alt: false,
        },
    };
    assert_eq!(
        TWInputEvent::try_from_key(controlled),
        Ok(TWInputEvent::NonDisplayableKeypress(Keypress {
            maybe_modifier_keys: Some(controlled.modifiers),
            non_modifier_key: NonModifierKey::Character('c'),
        }))
    );
}

#[test]
fn mouse_events_decode_to_typed_inputs() {
    let raw = RawMouseEvent {
        kind: RawMouseEventKind::Down(RawMouseButton::Left),
        column: 4,
        row: 2,
        modifiers: NO_MODIFIERS,
    };
    assert_eq!(
        MouseInput::from(raw),
        MouseInput {
            pos: Position { col: 4, row: 2 },
            kind: MouseInputKind::MouseDown(Button::Left),
            maybe_modifier_keys: None,
        }
    );
    assert_eq!(
        MouseInputKind::from(RawMouseEventKind::Drag(RawMouseButton::Middle)),
        MouseInputKind::MouseDrag(Button::Middle)
    );
    assert_eq!(
        MouseInputKind::from(RawMouseEventKind::ScrollUp),
        MouseInputKind::ScrollUp
    );
    assert_eq!(Button::from(RawMouseButton::Right), Button::Right);
}

#[test]
fn raw_input_events_convert() {
    assert_eq!(
        TWInputEvent::try_from(RawInputEvent::Resize(80, 24)),
        Ok(TWInputEvent::Resize(Size { cols: 80, rows: 24 }))
    );
    assert_eq!(
        TWInputEvent::from_size((24, 80)),
        TWInputEvent::Resize(Size { cols: 80, rows: 24 })
    );
    let raw_mouse = RawMouseEvent {
        kind: RawMouseEventKind::Moved,
        column: 1,
        row: 1,
        modifiers: NO_MODIFIERS,
    };
    assert_eq!(
        TWInputEvent::try_from(RawInputEvent::Mouse(raw_mouse)),
        Ok(TWInputEvent::Mouse(MouseInput::from(raw_mouse)))
    );
    assert_eq!(
        TWInputEvent::try_from(RawInputEvent::Key(key(RawKeyCode::Null))),
        Err(())
    );
}

#[test]
fn matches_finds_exit_keys() {
    let esc = TWInputEvent::NonDisplayableKeypress(Keypress {
        maybe_modifier_keys: None,
        non_modifier_key: NonModifierKey::Special(SpecialKey::Esc),
    });
    let q = TWInputEvent::DisplayableKeypress('q');
    let exit_keys = [esc, q];

    assert!(q.matches(&exit_keys));
    assert!(esc.matches(&exit_keys));
    assert!(!TWInputEvent::DisplayableKeypress('w').matches(&exit_keys));
    assert!(!q.matches(&[]));
}

#[test]
fn default_input_event_is_noop() {
    assert_eq!(TWInputEvent::default(), TWInputEvent::Noop);
}
