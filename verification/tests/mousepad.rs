use kdeconnect::mousepad::{
    char_to_keysym, special_key_to_keysym, InputAction, KeyboardState, MousePadPlugin,
    MousePadRequest, BTN_LEFT, BTN_MIDDLE, BTN_RIGHT, XK_ALT_L, XK_CTRL_L, XK_F1, XK_SHIFT_L,
    XK_SUPER_L,
};

fn key(keysym: i32, pressed: bool) -> InputAction {
    InputAction::KeySym { keysym, pressed }
}

fn button(button: i32, pressed: bool) -> InputAction {
    InputAction::PointerButton { button, pressed }
}

#[test]
fn special_keys_map_to_keysyms() {
    assert_eq!(special_key_to_keysym(1), Some(0xFF08));
    assert_eq!(special_key_to_keysym(2), Some(0xFF09));
    assert_eq!(special_key_to_keysym(3), Some(0xFF8D));
    assert_eq!(special_key_to_keysym(4), Some(0xFF0D));
    assert_eq!(special_key_to_keysym(6), Some(0xFF1B));
    assert_eq!(special_key_to_keysym(9), Some(XK_F1));
    assert_eq!(special_key_to_keysym(20), Some(XK_F1 + 11));
    assert_eq!(special_key_to_keysym(21), Some(0xFF51));
    assert_eq!(special_key_to_keysym(29), Some(0xFF0D));
    assert_eq!(special_key_to_keysym(31), Some(0xFF7F));
}

#[test]
fn unknown_special_keys_have_no_keysym() {
    assert_eq!(special_key_to_keysym(0), None);
    assert_eq!(special_key_to_keysym(7), None);
    assert_eq!(special_key_to_keysym(8), None);
    assert_eq!(special_key_to_keysym(32), None);
    assert_eq!(special_key_to_keysym(u32::MAX), None);
}

#[test]
fn characters_map_to_keysyms() {
    assert_eq!(char_to_keysym('a'), 0x61);
    assert_eq!(char_to_keysym('\u{7f}'), 0x7F);
    assert_eq!(char_to_keysym('é'), 0x0100_00E9);
    assert_eq!(char_to_keysym('€'), 0x0100_20AC);
}

#[test]
fn plugin_ids() {
    assert_eq!(MousePadPlugin.id(), "mousepad");
    assert_eq!(KeyboardState { state: Some(true) }.id(), "kdeconnect.mousepad.keyboardstate");
}

#[test]
fn modified_key_is_wrapped_by_modifiers_in_reverse_order() {
    let req = MousePadRequest {
        key: Some("A".to_string()),
        ctrl: Some(true),
        shift: Some(true),
        super_key: Some(true),
        alt: Some(false),
        ..Default::default()
    };
    assert_eq!(
        req.input_actions(),
        vec![
            key(XK_CTRL_L, true),
            key(XK_SHIFT_L, true),
            key(XK_SUPER_L, true),
            key(0x41, true),
            key(0x41, false),
            key(XK_SUPER_L, false),
            key(XK_SHIFT_L, false),
            key(XK_CTRL_L, false),
        ]
    );
}

#[test]
fn all_modifiers_with_special_key() {
    let req = MousePadRequest {
        special_key: Some(12),
        ctrl: Some(true),
        alt: Some(true),
        shift: Some(true),
        super_key: Some(true),
        ..Default::default()
    };
    let f4 = XK_F1 + 3;
    assert_eq!(
        req.input_actions(),
        vec![
            key(XK_CTRL_L, true),
            key(XK_ALT_L, true),
            key(XK_SHIFT_L, true),
            key(XK_SUPER_L, true),
            key(f4, true),
            key(f4, false),
            key(XK_SUPER_L, false),
            key(XK_SHIFT_L, false),
            key(XK_ALT_L, false),
            key(XK_CTRL_L, false),
        ]
    );
}

#[test]
fn key_takes_precedence_over_special_key() {
    let req = MousePadRequest {
        key: Some("xyz".to_string()),
        special_key: Some(1),
        ..Default::default()
    };
    assert_eq!(req.keysym(), Some(0x78));
}

#[test]
fn empty_key_types_nothing_even_with_special_key() {
    let req = MousePadRequest {
        key: Some(String::new()),
        special_key: Some(1),
        ctrl: Some(true),
        ..Default::default()
    };
    assert_eq!(req.keysym(), None);
    assert!(req.input_actions().is_empty());
}

#[test]
fn modifiers_alone_are_not_pressed() {
    let req = MousePadRequest { ctrl: Some(true), special_key: Some(99), ..Default::default() };
    assert!(req.input_actions().is_empty());
}

#[test]
fn pointer_motion_and_scroll() {
    let motion = MousePadRequest { has_pointer_delta: true, ..Default::default() };
    assert_eq!(motion.input_actions(), vec![InputAction::PointerMotion]);
    let scroll = MousePadRequest {
        has_pointer_delta: true,
        scroll: Some(true),
        ..Default::default()
    };
    assert_eq!(scroll.input_actions(), vec![InputAction::PointerScroll]);
    let no_delta = MousePadRequest { scroll: Some(true), ..Default::default() };
    assert!(no_delta.input_actions().is_empty());
}

#[test]
fn clicks() {
    let single = MousePadRequest { singleclick: Some(true), ..Default::default() };
    assert_eq!(single.input_actions(), vec![button(BTN_LEFT, true), button(BTN_LEFT, false)]);
    let double = MousePadRequest { doubleclick: Some(true), ..Default::default() };
    assert_eq!(
        double.input_actions(),
        vec![
            button(BTN_LEFT, true),
            button(BTN_LEFT, false),
            button(BTN_LEFT, true),
            button(BTN_LEFT, false),
        ]
    );
    let right = MousePadRequest { rightclick: Some(true), ..Default::default() };
    assert_eq!(right.input_actions(), vec![button(BTN_RIGHT, true), button(BTN_RIGHT, false)]);
    let middle = MousePadRequest { middleclick: Some(true), ..Default::default() };
    assert_eq!(middle.input_actions(), vec![button(BTN_MIDDLE, true), button(BTN_MIDDLE, false)]);
    let hold = MousePadRequest { singlehold: Some(true), singleclick: Some(true), ..Default::default() };
    assert_eq!(hold.input_actions(), vec![button(BTN_LEFT, true)]);
    let release = MousePadRequest { singlerelease: Some(true), ..Default::default() };
    assert_eq!(release.input_actions(), vec![button(BTN_LEFT, false)]);
}

#[test]
fn motion_then_click_then_key() {
    let req = MousePadRequest {
        has_pointer_delta: true,
        rightclick: Some(true),
        key: Some("q".to_string()),
        ..Default::default()
    };
    assert_eq!(
        req.input_actions(),
        vec![
            InputAction::PointerMotion,
            button(BTN_RIGHT, true),
            button(BTN_RIGHT, false),
            key(0x71, true),
            key(0x71, false),
        ]
    );
}

#[test]
fn echo_only_when_asked() {
    let req = MousePadRequest {
        key: Some("k".to_string()),
        special_key: Some(3),
        alt: Some(true),
        ctrl: None,
        shift: Some(false),
        send_ack: Some(true),
        ..Default::default()
    };
    let echo = req.echo().expect("ack requested");
    assert_eq!(echo.key.as_deref(), Some("k"));
    assert_eq!(echo.special_key, Some(3));
    assert_eq!(echo.alt, Some(true));
    assert_eq!(echo.ctrl, None);
    assert_eq!(echo.shift, Some(false));
    assert!(echo.is_ack);
    let quiet = MousePadRequest { send_ack: Some(false), ..Default::default() };
    assert!(quiet.echo().is_none());
    assert!(MousePadRequest::default().echo().is_none());
}
