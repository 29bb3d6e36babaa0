use luminance_glfw::event::{Action, Key, Modifiers, MouseButton, NativeEvent, WindowEvent};
use luminance_glfw::event::{translate_event, translate_events};

#[test]
fn action_codes_map_to_distinct_actions() {
    assert_eq!(Action::from_code(0), Action::Release);
    assert_eq!(Action::from_code(1), Action::Press);
    assert_eq!(Action::from_code(2), Action::Repeat);
    assert_ne!(Action::from_code(0), Action::from_code(1));
    assert_ne!(Action::from_code(1), Action::from_code(2));
    assert_ne!(Action::from_code(0), Action::from_code(2));
}

#[test]
fn action_mapping_is_total_and_round_trips() {
    for code in -5..10 {
        let a = Action::from_code(code);
        if (0..=2).contains(&code) {
            assert_eq!(a.code(), code);
        } else {
            assert_eq!(a, Action::Release);
        }
    }
}

#[test]
fn key_mapping_covers_the_full_native_set() {
    let mut named = 0;
    for code in -2..400 {
        let k = Key::from_code(code);
        if k != Key::Unknown {
            assert_eq!(k.code(), code);
            named += 1;
        }
    }
    assert_eq!(named, 120);
}

#[test]
fn key_mapping_spot_checks() {
    assert_eq!(Key::from_code(32), Key::Space);
    assert_eq!(Key::from_code(48), Key::Num0);
    assert_eq!(Key::from_code(57), Key::Num9);
    assert_eq!(Key::from_code(65), Key::A);
    assert_eq!(Key::from_code(90), Key::Z);
    assert_eq!(Key::from_code(161), Key::World1);
    assert_eq!(Key::from_code(256), Key::Escape);
    assert_eq!(Key::from_code(290), Key::F1);
    assert_eq!(Key::from_code(314), Key::F25);
    assert_eq!(Key::from_code(320), Key::Kp0);
    assert_eq!(Key::from_code(348), Key::Menu);
    assert_eq!(Key::from_code(-1), Key::Unknown);
    assert_eq!(Key::from_code(0), Key::Unknown);
    assert_eq!(Key::from_code(349), Key::Unknown);
}

#[test]
fn button_mapping_round_trips() {
    let buttons = [
        MouseButton::Button1,
        MouseButton::Button2,
        MouseButton::Button3,
        MouseButton::Button4,
        MouseButton::Button5,
        MouseButton::Button6,
        MouseButton::Button7,
        MouseButton::Button8,
    ];
    for (i, b) in buttons.iter().enumerate() {
        assert_eq!(MouseButton::from_code(i as i32), *b);
        assert_eq!(b.code(), i as i32);
    }
    assert_eq!(MouseButton::from_code(99), MouseButton::Button8);
}

#[test]
fn modifier_bits_decode() {
    let none = Modifiers::from_bits(0);
    assert!(!none.shift && !none.control && !none.alt && !none.logo);
    assert!(!none.caps_lock && !none.num_lock);
    assert_eq!(none, Modifiers::none());

    let shift = Modifiers::from_bits(0x0001);
    assert!(shift.shift && !shift.control);

    let mixed = Modifiers::from_bits(0x0002 | 0x0008 | 0x0020);
    assert!(mixed.control && mixed.logo && mixed.num_lock);
    assert!(!mixed.shift && !mixed.alt && !mixed.caps_lock);

    let all = Modifiers::from_bits(0x003F);
    assert!(all.shift && all.control && all.alt && all.logo);
    assert!(all.caps_lock && all.num_lock);
}

#[test]
fn key_event_translates_codes_and_keeps_scancode() {
    let n = NativeEvent::Key(65, 30, 1, 0x0001);
    let e = translate_event(n);
    let shift = Modifiers::from_bits(0x0001);
    assert_eq!(e, WindowEvent::Key(Key::A, 30, Action::Press, shift));
}

#[test]
fn mouse_event_translates_codes() {
    let n = NativeEvent::MouseButton(0, 0, 0x0002);
    let e = translate_event(n);
    let ctrl = Modifiers::from_bits(0x0002);
    assert_eq!(e, WindowEvent::MouseButton(MouseButton::Button1, Action::Release, ctrl));
}

#[test]
fn coordinate_payloads_are_carried_exactly() {
    let x = 12.25f64.to_bits();
    let y = (-3.5f64).to_bits();
    assert_eq!(translate_event(NativeEvent::CursorPos(x, y)), WindowEvent::CursorPos(x, y));
    match translate_event(NativeEvent::Scroll(x, y)) {
        WindowEvent::Scroll(sx, sy) => {
            assert_eq!(f64::from_bits(sx), 12.25);
            assert_eq!(f64::from_bits(sy), -3.5);
        }
        other => panic!("unexpected translation: {:?}", other),
    }
}

#[test]
fn window_lifecycle_events_pass_through() {
    assert_eq!(translate_event(NativeEvent::Pos(10, -20)), WindowEvent::Pos(10, -20));
    assert_eq!(translate_event(NativeEvent::Size(640, 480)), WindowEvent::Size(640, 480));
    assert_eq!(translate_event(NativeEvent::Close), WindowEvent::Close);
    assert_eq!(translate_event(NativeEvent::Refresh), WindowEvent::Refresh);
    assert_eq!(translate_event(NativeEvent::Focus(true)), WindowEvent::Focus(true));
    assert_eq!(translate_event(NativeEvent::Iconify(false)), WindowEvent::Iconify(false));
    assert_eq!(
        translate_event(NativeEvent::FramebufferSize(800, 600)),
        WindowEvent::FramebufferSize(800, 600)
    );
    assert_eq!(translate_event(NativeEvent::CursorEnter(true)), WindowEvent::CursorEnter(true));
}

#[test]
fn empty_batch_translates_to_empty() {
    let raw: Vec<NativeEvent> = Vec::new();
    assert!(translate_events(&raw).is_empty());
}

#[test]
fn batch_translation_keeps_count_and_order() {
    let raw = vec![
        NativeEvent::Key(256, 9, 1, 0),
        NativeEvent::Close,
        NativeEvent::MouseButton(1, 1, 0),
        NativeEvent::Focus(true),
    ];
    let out = translate_events(&raw);
    assert_eq!(out.len(), 4);
    assert_eq!(out[0], WindowEvent::Key(Key::Escape, 9, Action::Press, Modifiers::none()));
    assert_eq!(out[1], WindowEvent::Close);
    assert_eq!(
        out[2],
        WindowEvent::MouseButton(MouseButton::Button2, Action::Press, Modifiers::none())
    );
    assert_eq!(out[3], WindowEvent::Focus(true));
}
