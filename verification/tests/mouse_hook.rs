use typr::mouse_hook::{
    clear_binding, hook_proc, set_binding, ButtonState, HookBinding, HookOutcome, Modifiers,
    MouseButton, WM_MBUTTONDOWN, WM_MBUTTONUP, WM_XBUTTONDOWN, WM_XBUTTONUP,
};

fn mods(ctrl: bool, shift: bool, alt: bool, win: bool) -> Modifiers {
    Modifiers { ctrl, shift, alt, win }
}

#[test]
fn modifier_bits_roundtrip() {
    for b in 0u32..16 {
        let m = Modifiers::from_bits(b);
        assert_eq!(m.as_bits(), b);
        assert_eq!(Modifiers::from_bits(m.as_bits()), m);
    }
    assert_eq!(mods(true, false, true, false).as_bits(), 5);
    assert_eq!(Modifiers::from_bits(0xF8), mods(false, false, false, true));
}

#[test]
fn unbound_hook_passes_everything() {
    let mut st = HookBinding::new();
    let out = hook_proc(&mut st, 0, WM_MBUTTONDOWN, 0, Modifiers::default());
    assert!(matches!(out, HookOutcome::CallNext));
}

#[test]
fn bound_press_and_release_are_taken() {
    let mut st = HookBinding::new();
    set_binding(&mut st, MouseButton::XButton2, mods(true, false, false, false));
    assert_eq!(st.button, 3);
    assert_eq!(st.modifiers, 1);
    let data = 2u32 << 16;
    // wrong modifiers: the click passes through
    let out = hook_proc(&mut st, 0, WM_XBUTTONDOWN, data, Modifiers::default());
    assert!(matches!(out, HookOutcome::CallNext));
    // a release without a taken press passes through
    let out = hook_proc(&mut st, 0, WM_XBUTTONUP, data, Modifiers::default());
    assert!(matches!(out, HookOutcome::CallNext));
    // the other extra button passes through
    let out = hook_proc(&mut st, 0, WM_XBUTTONDOWN, 1u32 << 16, mods(true, false, false, false));
    assert!(matches!(out, HookOutcome::CallNext));
    let out = hook_proc(&mut st, 0, WM_XBUTTONDOWN, data, mods(true, false, false, false));
    match out {
        HookOutcome::Consume(ev) => {
            assert_eq!(ev.button, MouseButton::XButton2);
            assert_eq!(ev.state, ButtonState::Pressed);
        }
        _ => panic!("expected the press to be taken"),
    }
    assert!(st.held);
    // modifiers let go during the hold: the release is still taken
    let out = hook_proc(&mut st, 0, WM_XBUTTONUP, data, Modifiers::default());
    match out {
        HookOutcome::Consume(ev) => assert_eq!(ev.state, ButtonState::Released),
        _ => panic!("expected the release to be taken"),
    }
    assert!(!st.held);
    let out = hook_proc(&mut st, 0, WM_XBUTTONUP, data, Modifiers::default());
    assert!(matches!(out, HookOutcome::CallNext));
}

#[test]
fn negative_code_and_cleared_binding_pass_through() {
    let mut st = HookBinding::new();
    set_binding(&mut st, MouseButton::Middle, Modifiers::default());
    let out = hook_proc(&mut st, -1, WM_MBUTTONDOWN, 0, Modifiers::default());
    assert!(matches!(out, HookOutcome::CallNext));
    let out = hook_proc(&mut st, 0, WM_MBUTTONDOWN, 0, Modifiers::default());
    assert!(matches!(out, HookOutcome::Consume(_)));
    clear_binding(&mut st);
    assert_eq!(st.button, 0);
    assert!(!st.held);
    let out = hook_proc(&mut st, 0, WM_MBUTTONUP, 0, Modifiers::default());
    assert!(matches!(out, HookOutcome::CallNext));
}
