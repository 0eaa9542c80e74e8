use baseview::event::{MOD_ALT, MOD_CAPS_LOCK, MOD_CONTROL, MOD_META, MOD_SHIFT};
use baseview::iced::shell::conversion::{
    baseview_key_location_to_iced, baseview_mouse_button_to_iced, baseview_to_iced_events,
    convert_mouse_interaction, update_modifiers, IcedEvent, IcedKeyEvent, IcedLocation,
    IcedModifiers, IcedMouseButton, IcedMouseEvent, IcedWindowEvent, Interaction,
};
use baseview::iced::shell::keys::{
    baseview_to_iced_key, baseview_to_iced_keycode, IcedCode, IcedKey, IcedNamed, Physical,
};
use baseview::{
    code_to_location, Code, DropData, Event, Key, KeyState, KeyboardEvent, Location, Modifiers,
    MouseButton, MouseCursor, MouseEvent, NamedKey, WindowEvent,
};

type Ev = Event<(f64, f64), (f32, f32), u32>;
type Out = IcedEvent<(f64, f64), (f32, f32), u32>;

fn mods(bits: u32) -> Modifiers {
    Modifiers { bits }
}

fn key_event(state: KeyState, key: Key, code: Code, modifiers: u32) -> KeyboardEvent {
    KeyboardEvent {
        state,
        key,
        code,
        location: Location::Standard,
        modifiers: mods(modifiers),
        repeat: false,
        is_composing: false,
    }
}

fn convert(event: Ev, m: &mut IcedModifiers, ignore: bool) -> Vec<(u8, Out)> {
    let mut out = Vec::new();
    baseview_to_iced_events(event, &mut out, m, ignore, 7u8);
    out
}

#[test]
fn modifiers_contains() {
    let m = mods(MOD_SHIFT | MOD_CAPS_LOCK);
    assert!(m.contains(MOD_SHIFT));
    assert!(m.contains(MOD_CAPS_LOCK));
    assert!(!m.contains(MOD_ALT));
    assert!(!m.contains(MOD_SHIFT | MOD_ALT));
    assert_eq!(Modifiers::empty().bits, 0);
}

#[test]
fn update_modifiers_announces_changes_only() {
    let mut m = IcedModifiers::empty();
    let e: Option<Out> = update_modifiers(&mut m, mods(MOD_CONTROL | MOD_META | MOD_CAPS_LOCK));
    let expected = IcedModifiers { shift: false, control: true, alt: false, logo: true };
    assert_eq!(m, expected);
    match e {
        Some(IcedEvent::Keyboard(IcedKeyEvent::ModifiersChanged(changed))) => {
            assert_eq!(changed, expected)
        }
        _ => panic!("expected a modifier change"),
    }
    let e: Option<Out> = update_modifiers(&mut m, mods(MOD_CONTROL | MOD_META));
    assert!(e.is_none());
    assert_eq!(m, expected);
}

#[test]
fn cursor_move_with_new_modifiers() {
    let mut m = IcedModifiers::empty();
    let out = convert(
        Event::Mouse(MouseEvent::CursorMoved { position: (1.5, 2.5), modifiers: mods(MOD_SHIFT) }),
        &mut m,
        false,
    );
    assert_eq!(out.len(), 2);
    assert_eq!(out[0].0, 7);
    assert!(matches!(out[0].1, IcedEvent::Keyboard(IcedKeyEvent::ModifiersChanged(IcedModifiers { shift: true, .. }))));
    assert!(matches!(out[1].1, IcedEvent::Mouse(IcedMouseEvent::CursorMoved { position: (x, y) }) if x == 1.5 && y == 2.5));
    // The same modifiers again: only the move.
    let out = convert(
        Event::Mouse(MouseEvent::CursorMoved { position: (3.0, 4.0), modifiers: mods(MOD_SHIFT) }),
        &mut m,
        false,
    );
    assert_eq!(out.len(), 1);
    assert!(m.shift);
}

#[test]
fn buttons_and_wheel() {
    let mut m = IcedModifiers::empty();
    let out = convert(
        Event::Mouse(MouseEvent::ButtonPressed { button: MouseButton::Back, modifiers: mods(0) }),
        &mut m,
        false,
    );
    assert_eq!(out.len(), 1);
    assert!(matches!(out[0].1, IcedEvent::Mouse(IcedMouseEvent::ButtonPressed(IcedMouseButton::Other(6)))));
    let out = convert(
        Event::Mouse(MouseEvent::ButtonReleased { button: MouseButton::Other(12), modifiers: mods(0) }),
        &mut m,
        false,
    );
    assert!(matches!(out[0].1, IcedEvent::Mouse(IcedMouseEvent::ButtonReleased(IcedMouseButton::Other(12)))));
    let out = convert(
        Event::Mouse(MouseEvent::WheelScrolled { delta: (0.0, -1.0), modifiers: mods(MOD_ALT) }),
        &mut m,
        false,
    );
    assert_eq!(out.len(), 2);
    assert!(matches!(out[1].1, IcedEvent::Mouse(IcedMouseEvent::WheelScrolled { delta: (x, y) }) if x == 0.0 && y == -1.0));
    assert!(m.alt);
}

#[test]
fn mouse_buttons_map() {
    assert_eq!(baseview_mouse_button_to_iced(MouseButton::Left), IcedMouseButton::Left);
    assert_eq!(baseview_mouse_button_to_iced(MouseButton::Middle), IcedMouseButton::Middle);
    assert_eq!(baseview_mouse_button_to_iced(MouseButton::Right), IcedMouseButton::Right);
    assert_eq!(baseview_mouse_button_to_iced(MouseButton::Forward), IcedMouseButton::Other(7));
    assert_eq!(baseview_mouse_button_to_iced(MouseButton::Other(255)), IcedMouseButton::Other(255));
}

#[test]
fn enter_leave_and_drags() {
    let mut m = IcedModifiers::empty();
    let out = convert(Event::Mouse(MouseEvent::CursorEntered), &mut m, false);
    assert!(matches!(out[0].1, IcedEvent::Mouse(IcedMouseEvent::CursorEntered)));
    let out = convert(Event::Mouse(MouseEvent::CursorLeft), &mut m, false);
    assert!(matches!(out[0].1, IcedEvent::Mouse(IcedMouseEvent::CursorLeft)));
    let out = convert(
        Event::Mouse(MouseEvent::DragEntered { position: (0.0, 0.0), modifiers: mods(MOD_SHIFT), data: DropData::Empty }),
        &mut m,
        false,
    );
    assert!(out.is_empty());
    assert_eq!(m, IcedModifiers::empty());
    let out = convert(Event::Mouse(MouseEvent::DragLeft), &mut m, false);
    assert!(out.is_empty());
}

#[test]
fn key_press_reports_text() {
    let mut m = IcedModifiers::empty();
    let event = key_event(KeyState::Down, Key::Character("a".to_string()), Code::KeyA, MOD_SHIFT);
    let out = convert(Event::Keyboard(event), &mut m, false);
    assert_eq!(out.len(), 2);
    assert!(matches!(out[0].1, IcedEvent::Keyboard(IcedKeyEvent::ModifiersChanged(_))));
    match &out[1].1 {
        IcedEvent::Keyboard(IcedKeyEvent::KeyPressed { key, modified_key, physical_key, location, modifiers, text, repeat }) => {
            assert_eq!(*key, IcedKey::Character("a".to_string()));
            assert_eq!(*modified_key, IcedKey::Character("a".to_string()));
            assert_eq!(*physical_key, Physical::Code(IcedCode::KeyA));
            assert_eq!(*location, IcedLocation::Standard);
            assert!(modifiers.shift);
            assert_eq!(*text, Some("a".to_string()));
            assert!(!repeat);
        }
        _ => panic!("expected a key press"),
    }
}

#[test]
fn key_release_has_no_text() {
    let mut m = IcedModifiers::empty();
    let event = key_event(KeyState::Up, Key::Named(NamedKey::Escape), Code::Escape, 0);
    let out = convert(Event::Keyboard(event), &mut m, false);
    assert_eq!(out.len(), 1);
    match &out[0].1 {
        IcedEvent::Keyboard(IcedKeyEvent::KeyReleased { key, physical_key, .. }) => {
            assert_eq!(*key, IcedKey::Named(IcedNamed::Escape));
            assert_eq!(*physical_key, Physical::Code(IcedCode::Escape));
        }
        _ => panic!("expected a key release"),
    }
}

#[test]
fn unknown_code_is_unidentified() {
    let mut m = IcedModifiers::empty();
    let event = key_event(KeyState::Down, Key::Named(NamedKey::Fn), Code::Fn, 0);
    let out = convert(Event::Keyboard(event), &mut m, false);
    match &out[0].1 {
        IcedEvent::Keyboard(IcedKeyEvent::KeyPressed { key, physical_key, text, .. }) => {
            assert_eq!(*key, IcedKey::Named(IcedNamed::Fn));
            assert_eq!(*physical_key, Physical::Unidentified);
            assert_eq!(*text, None);
        }
        _ => panic!("expected a key press"),
    }
}

#[test]
fn ignored_keys_only_update_modifiers() {
    let mut m = IcedModifiers::empty();
    let event = key_event(KeyState::Down, Key::Character("x".to_string()), Code::KeyX, MOD_CONTROL);
    let out = convert(Event::Keyboard(event.clone()), &mut m, true);
    assert_eq!(out.len(), 1);
    assert!(matches!(out[0].1, IcedEvent::Keyboard(IcedKeyEvent::ModifiersChanged(_))));
    assert!(m.control);
    let out = convert(Event::Keyboard(event), &mut m, true);
    assert!(out.is_empty());
}

#[test]
fn window_events() {
    let mut m = IcedModifiers { shift: true, control: true, alt: false, logo: false };
    let out = convert(Event::Window(WindowEvent::Resized(99)), &mut m, false);
    assert!(matches!(out[0].1, IcedEvent::Window(IcedWindowEvent::Resized(99))));
    assert!(m.shift);
    let out = convert(Event::Window(WindowEvent::Unfocused), &mut m, false);
    assert!(matches!(out[0].1, IcedEvent::Window(IcedWindowEvent::Unfocused)));
    assert_eq!(m, IcedModifiers::empty());
    m.alt = true;
    let out = convert(Event::Window(WindowEvent::Focused), &mut m, false);
    assert!(matches!(out[0].1, IcedEvent::Window(IcedWindowEvent::Focused)));
    assert_eq!(m, IcedModifiers::empty());
    let out = convert(Event::Window(WindowEvent::WillClose), &mut m, false);
    assert!(out.is_empty());
}

#[test]
fn events_are_appended() {
    let mut m = IcedModifiers::empty();
    let mut out: Vec<(u8, Out)> = Vec::new();
    baseview_to_iced_events(Event::Mouse(MouseEvent::CursorLeft), &mut out, &mut m, false, 1u8);
    baseview_to_iced_events(Event::Mouse(MouseEvent::CursorEntered), &mut out, &mut m, false, 2u8);
    assert_eq!(out.len(), 2);
    assert_eq!(out[0].0, 1);
    assert_eq!(out[1].0, 2);
    assert!(matches!(out[1].1, IcedEvent::Mouse(IcedMouseEvent::CursorEntered)));
}

#[test]
fn named_keys() {
    assert_eq!(baseview_to_iced_key(&Key::Named(NamedKey::Hyper)), IcedKey::Named(IcedNamed::Meta));
    assert_eq!(baseview_to_iced_key(&Key::Named(NamedKey::Super)), IcedKey::Named(IcedNamed::Meta));
    assert_eq!(baseview_to_iced_key(&Key::Named(NamedKey::Meta)), IcedKey::Named(IcedNamed::Meta));
    assert_eq!(baseview_to_iced_key(&Key::Named(NamedKey::ArrowLeft)), IcedKey::Named(IcedNamed::ArrowLeft));
    assert_eq!(baseview_to_iced_key(&Key::Named(NamedKey::F24)), IcedKey::Named(IcedNamed::F24));
    assert_eq!(baseview_to_iced_key(&Key::Named(NamedKey::F25)), IcedKey::Unidentified);
    assert_eq!(baseview_to_iced_key(&Key::Named(NamedKey::Dead)), IcedKey::Unidentified);
    assert_eq!(baseview_to_iced_key(&Key::Named(NamedKey::Unidentified)), IcedKey::Unidentified);
    assert_eq!(baseview_to_iced_key(&Key::Character("é".to_string())), IcedKey::Character("é".to_string()));
}

#[test]
fn key_codes() {
    assert_eq!(baseview_to_iced_keycode(Code::Digit1), Some(IcedCode::Numpad1));
    assert_eq!(baseview_to_iced_keycode(Code::Digit0), Some(IcedCode::Numpad0));
    assert_eq!(baseview_to_iced_keycode(Code::MetaLeft), Some(IcedCode::Meta));
    assert_eq!(baseview_to_iced_keycode(Code::MetaRight), Some(IcedCode::Meta));
    assert_eq!(baseview_to_iced_keycode(Code::KeyZ), Some(IcedCode::KeyZ));
    assert_eq!(baseview_to_iced_keycode(Code::MediaTrackPrevious), Some(IcedCode::MediaTrackPrevious));
    assert_eq!(baseview_to_iced_keycode(Code::Fn), None);
    assert_eq!(baseview_to_iced_keycode(Code::Unidentified), None);
}

#[test]
fn key_locations() {
    assert_eq!(code_to_location(Code::ShiftLeft), Location::Left);
    assert_eq!(code_to_location(Code::MetaLeft), Location::Left);
    assert_eq!(code_to_location(Code::ControlRight), Location::Right);
    assert_eq!(code_to_location(Code::AltRight), Location::Right);
    assert_eq!(code_to_location(Code::Numpad5), Location::Numpad);
    assert_eq!(code_to_location(Code::NumpadEnter), Location::Numpad);
    assert_eq!(code_to_location(Code::NumLock), Location::Standard);
    assert_eq!(code_to_location(Code::KeyA), Location::Standard);
    assert_eq!(baseview_key_location_to_iced(Location::Numpad), IcedLocation::Numpad);
    assert_eq!(baseview_key_location_to_iced(Location::Left), IcedLocation::Left);
    assert_eq!(baseview_key_location_to_iced(Location::Right), IcedLocation::Right);
    assert_eq!(baseview_key_location_to_iced(Location::Standard), IcedLocation::Standard);
}

#[test]
fn mouse_interactions() {
    assert_eq!(convert_mouse_interaction(Interaction::NoInteraction), MouseCursor::Default);
    assert_eq!(convert_mouse_interaction(Interaction::Idle), MouseCursor::Default);
    assert_eq!(convert_mouse_interaction(Interaction::ContextMenu), MouseCursor::Default);
    assert_eq!(convert_mouse_interaction(Interaction::Pointer), MouseCursor::Hand);
    assert_eq!(convert_mouse_interaction(Interaction::Grab), MouseCursor::HandGrabbing);
    assert_eq!(convert_mouse_interaction(Interaction::Grabbing), MouseCursor::HandGrabbing);
    assert_eq!(convert_mouse_interaction(Interaction::Progress), MouseCursor::Working);
    assert_eq!(convert_mouse_interaction(Interaction::Wait), MouseCursor::Working);
    assert_eq!(convert_mouse_interaction(Interaction::ResizingHorizontally), MouseCursor::ColResize);
    assert_eq!(convert_mouse_interaction(Interaction::ResizingColumn), MouseCursor::ColResize);
    assert_eq!(convert_mouse_interaction(Interaction::ResizingVertically), MouseCursor::RowResize);
    assert_eq!(convert_mouse_interaction(Interaction::ResizingDiagonallyUp), MouseCursor::NeswResize);
    assert_eq!(convert_mouse_interaction(Interaction::ResizingDiagonallyDown), MouseCursor::NwseResize);
    assert_eq!(convert_mouse_interaction(Interaction::NoDrop), MouseCursor::NotAllowed);
    assert_eq!(convert_mouse_interaction(Interaction::Hidden), MouseCursor::Hidden);
    assert_eq!(convert_mouse_interaction(Interaction::AllScroll), MouseCursor::AllScroll);
    assert_eq!(convert_mouse_interaction(Interaction::Alias), MouseCursor::Alias);
}

#[test]
fn keyboard_modifier_bits_match_the_event_model() {
    assert_eq!(keyboard_types::Modifiers::ALT.bits(), MOD_ALT);
    assert_eq!(keyboard_types::Modifiers::CONTROL.bits(), MOD_CONTROL);
    assert_eq!(keyboard_types::Modifiers::SHIFT.bits(), MOD_SHIFT);
    assert_eq!(keyboard_types::Modifiers::META.bits(), MOD_META);
    assert_eq!(keyboard_types::Modifiers::CAPS_LOCK.bits(), MOD_CAPS_LOCK);
    assert_eq!(keyboard_types::Modifiers::SUPER.bits(), baseview::event::MOD_SUPER);
    assert_eq!(keyboard_types::Modifiers::HYPER.bits(), baseview::event::MOD_HYPER);
}
