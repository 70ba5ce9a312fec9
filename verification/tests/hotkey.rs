use typr::hotkey::{is_mouse_hotkey, parse, Hotkey};
use typr::mouse_hook::{Modifiers, MouseButton};

#[test]
fn keyboard_only_passthrough() {
    match parse("Ctrl+Shift+Space") {
        Hotkey::Keyboard(s) => assert_eq!(s, "Ctrl+Shift+Space"),
        _ => panic!("expected keyboard"),
    }
}

#[test]
fn cmdorctrl_passes_through_unchanged() {
    match parse("CmdOrCtrl+Shift+Space") {
        Hotkey::Keyboard(s) => assert_eq!(s, "CmdOrCtrl+Shift+Space"),
        _ => panic!("expected keyboard"),
    }
}

#[test]
fn xbutton1_alone() {
    match parse("XButton1") {
        Hotkey::Mouse { button, modifiers } => {
            assert_eq!(button, MouseButton::XButton1);
            assert_eq!(modifiers, Modifiers::default());
        }
        _ => panic!("expected mouse"),
    }
}

#[test]
fn ctrl_shift_xbutton2() {
    match parse("Ctrl+Shift+XButton2") {
        Hotkey::Mouse { button, modifiers } => {
            assert_eq!(button, MouseButton::XButton2);
            assert!(modifiers.ctrl);
            assert!(modifiers.shift);
            assert!(!modifiers.alt);
            assert!(!modifiers.win);
        }
        _ => panic!("expected mouse"),
    }
}

#[test]
fn middle_mouse_with_alt() {
    match parse("Alt+MiddleMouse") {
        Hotkey::Mouse { button, modifiers } => {
            assert_eq!(button, MouseButton::Middle);
            assert!(modifiers.alt);
        }
        _ => panic!("expected mouse"),
    }
}

#[test]
fn aliases_and_case_insensitive() {
    match parse("ctrl+mouse4") {
        Hotkey::Mouse { button, modifiers } => {
            assert_eq!(button, MouseButton::XButton1);
            assert!(modifiers.ctrl);
        }
        _ => panic!("expected mouse"),
    }
}

#[test]
fn pieces_are_trimmed_and_the_last_button_wins() {
    match parse(" Win + back + FORWARD ") {
        Hotkey::Mouse { button, modifiers } => {
            assert_eq!(button, MouseButton::XButton2);
            assert!(modifiers.win);
            assert!(!modifiers.ctrl);
        }
        _ => panic!("expected mouse"),
    }
}

#[test]
fn unknown_pieces_keep_a_keyboard_hotkey() {
    match parse("Hyper+F13") {
        Hotkey::Keyboard(s) => assert_eq!(s, "Hyper+F13"),
        _ => panic!("expected keyboard"),
    }
    match parse("") {
        Hotkey::Keyboard(s) => assert_eq!(s, ""),
        _ => panic!("expected keyboard"),
    }
}

#[test]
fn mouse_hotkey_detection_agrees_with_parse() {
    for s in ["XButton1", "ctrl+Mouse5", "Alt+middle", "Ctrl+Shift+Space", "CmdOrCtrl+R", "mouse3"] {
        let is_mouse = matches!(parse(s), Hotkey::Mouse { .. });
        assert_eq!(is_mouse_hotkey(s), is_mouse, "{}", s);
    }
    assert!(is_mouse_hotkey("Shift + MouseButton4"));
    assert!(!is_mouse_hotkey("Shift+Mouse"));
}
