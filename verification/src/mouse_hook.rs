//! The decision logic of the low-level mouse hook that binds extra mouse
//! buttons (Middle, XButton1, XButton2) as global hotkeys.
//!
//! The hook callback consults a small binding state: which button is bound,
//! with which modifiers, and whether a matched press is currently held. The
//! operating-system plumbing (installing the hook, reading the key state,
//! forwarding events) stands outside this module and hands the raw message
//! values to [`hook_proc`].
use vstd::prelude::*;

verus! {

/// A mouse button that can be bound as a hotkey.
#[derive(Clone, Copy, PartialEq, Eq, Debug, Structural)]
pub enum MouseButton {
    Middle,
    XButton1,
    XButton2,
}

/// Whether a bound button went down or up.
#[derive(Clone, Copy, PartialEq, Eq, Debug, Structural)]
pub enum ButtonState {
    Pressed,
    Released,
}

/// The modifier keys that must be held together with a bound button.
#[derive(Clone, Copy, PartialEq, Eq, Debug, Structural)]
pub struct Modifiers {
    pub ctrl: bool,
    pub shift: bool,
    pub alt: bool,
    pub win: bool,
}

/// An event forwarded to the hotkey dispatcher.
#[derive(Clone, Copy, Debug)]
pub struct MouseEvent {
    pub button: MouseButton,
    pub state: ButtonState,
}

/// No modifier held.
pub open spec fn no_modifiers() -> Modifiers {
    Modifiers { ctrl: false, shift: false, alt: false, win: false }
}

impl Default for Modifiers {
    fn default() -> (r: Self)
        ensures
            r == no_modifiers(),
    {
        Modifiers { ctrl: false, shift: false, alt: false, win: false }
    }
}

/// The numeric code of a bound button; 0 stands for "nothing bound".
pub open spec fn button_code(b: MouseButton) -> u32 {
    match b {
        MouseButton::Middle => 1,
        MouseButton::XButton1 => 2,
        MouseButton::XButton2 => 3,
    }
}

/// One bit per modifier: ctrl, shift, alt, win from the lowest bit up.
pub open spec fn modifier_bits(m: Modifiers) -> u32 {
    (if m.ctrl { 1u32 } else { 0u32 }) | ((if m.shift { 1u32 } else { 0u32 }) << 1u32) | ((
    if m.alt {
        1u32
    } else {
        0u32
    }) << 2u32) | ((if m.win { 1u32 } else { 0u32 }) << 3u32)
}

/// The modifiers whose bits are set in `b`.
pub open spec fn modifiers_of_bits(b: u32) -> Modifiers {
    Modifiers { ctrl: b & 1 != 0, shift: b & 2 != 0, alt: b & 4 != 0, win: b & 8 != 0 }
}

impl MouseButton {
    /// The numeric code of this button (1, 2 or 3).
    pub fn code(&self) -> (r: u32)
        ensures
            r == button_code(*self),
    {
        match self {
            MouseButton::Middle => 1,
            MouseButton::XButton1 => 2,
            MouseButton::XButton2 => 3,
        }
    }
}

impl Modifiers {
    /// Packs the modifiers into bits: ctrl = 1, shift = 2, alt = 4, win = 8.
    pub fn as_bits(&self) -> (r: u32)
        ensures
            r == modifier_bits(*self),
    {
        let c: u32 = if self.ctrl { 1 } else { 0 };
        let s: u32 = if self.shift { 1 } else { 0 };
        let a: u32 = if self.alt { 1 } else { 0 };
        let w: u32 = if self.win { 1 } else { 0 };
        c | (s << 1u32) | (a << 2u32) | (w << 3u32)
    }

    /// Unpacks modifiers from bits; bits above the fourth are ignored.
    pub fn from_bits(b: u32) -> (r: Self)
        ensures
            r == modifiers_of_bits(b),
    {
        Modifiers { ctrl: b & 1 != 0, shift: b & 2 != 0, alt: b & 4 != 0, win: b & 8 != 0 }
    }
}

/// Unpacking what was packed gives the same modifiers back.
pub proof fn lemma_bits_roundtrip(m: Modifiers)
    ensures
        modifiers_of_bits(modifier_bits(m)) == m,
        modifier_bits(m) < 16,
{
    let c: u32 = if m.ctrl { 1u32 } else { 0u32 };
    let s: u32 = if m.shift { 1u32 } else { 0u32 };
    let a: u32 = if m.alt { 1u32 } else { 0u32 };
    let w: u32 = if m.win { 1u32 } else { 0u32 };
    let b: u32 = c | (s << 1u32) | (a << 2u32) | (w << 3u32);
    assert(((b & 1 != 0) == (c == 1)) && ((b & 2 != 0) == (s == 1)) && ((b & 4 != 0) == (a == 1))
        && ((b & 8 != 0) == (w == 1)) && b < 16) by (bit_vector)
        requires
            c <= 1 && s <= 1 && a <= 1 && w <= 1,
            b == c | (s << 1u32) | (a << 2u32) | (w << 3u32),
    ;
}

/// Packing unpacked bits keeps exactly the four modifier bits.
pub proof fn lemma_bits_of_modifiers(b: u32)
    ensures
        modifier_bits(modifiers_of_bits(b)) == b & 15,
{
    let m = modifiers_of_bits(b);
    let c: u32 = if m.ctrl { 1u32 } else { 0u32 };
    let s: u32 = if m.shift { 1u32 } else { 0u32 };
    let a: u32 = if m.alt { 1u32 } else { 0u32 };
    let w: u32 = if m.win { 1u32 } else { 0u32 };
    assert(c | (s << 1u32) | (a << 2u32) | (w << 3u32) == b & 15) by (bit_vector)
        requires
            c == (if b & 1 != 0 { 1u32 } else { 0u32 }),
            s == (if b & 2 != 0 { 1u32 } else { 0u32 }),
            a == (if b & 4 != 0 { 1u32 } else { 0u32 }),
            w == (if b & 8 != 0 { 1u32 } else { 0u32 }),
    ;
}


/// Win32 `WM_MBUTTONDOWN`.
pub const WM_MBUTTONDOWN: u32 = 0x0207;

/// Win32 `WM_MBUTTONUP`.
pub const WM_MBUTTONUP: u32 = 0x0208;

/// Win32 `WM_XBUTTONDOWN`.
pub const WM_XBUTTONDOWN: u32 = 0x020B;

/// Win32 `WM_XBUTTONUP`.
pub const WM_XBUTTONUP: u32 = 0x020C;

/// What the hook reads on every mouse event: the bound button's code (0 when
/// nothing is bound), the bound modifiers as bits, and whether the bound
/// button is held down through a matched press.
#[derive(Clone, Copy, Debug)]
pub struct HookBinding {
    pub button: u32,
    pub modifiers: u32,
    pub held: bool,
}

/// What the hook callback does with an event: hand it on to the next hook,
/// or swallow it and report the event to the hotkey dispatcher.
#[derive(Clone, Copy, Debug)]
pub enum HookOutcome {
    CallNext,
    Consume(MouseEvent),
}

/// The binding state with nothing bound.
pub open spec fn unbound() -> HookBinding {
    HookBinding { button: 0, modifiers: 0, held: false }
}

/// The binding state right after `button` with `modifiers` was bound.
pub open spec fn bound(button: MouseButton, modifiers: Modifiers) -> HookBinding {
    HookBinding { button: button_code(button), modifiers: modifier_bits(modifiers), held: false }
}

/// The button a mouse message is about, if it is one that can be bound.
pub open spec fn event_button(msg: u32, mouse_data: u32) -> Option<MouseButton> {
    if msg == WM_MBUTTONDOWN || msg == WM_MBUTTONUP {
        Some(MouseButton::Middle)
    } else if msg == WM_XBUTTONDOWN || msg == WM_XBUTTONUP {
        if mouse_data >> 16u32 == 1 {
            Some(MouseButton::XButton1)
        } else if mouse_data >> 16u32 == 2 {
            Some(MouseButton::XButton2)
        } else {
            None
        }
    } else {
        None
    }
}

/// Whether a mouse message is a button going down.
pub open spec fn is_down_message(msg: u32) -> bool {
    msg == WM_MBUTTONDOWN || msg == WM_XBUTTONDOWN
}

/// One step of the hook: the state after the event and what becomes of it.
/// A press is taken only with exactly the bound modifiers held; a release is
/// taken only while a taken press is held, whatever the modifiers are then.
pub open spec fn hook_step(
    st: HookBinding,
    code: i32,
    msg: u32,
    mouse_data: u32,
    current: Modifiers,
) -> (HookBinding, HookOutcome) {
    if code < 0 || st.button == 0 {
        (st, HookOutcome::CallNext)
    } else {
        match event_button(msg, mouse_data) {
            None => (st, HookOutcome::CallNext),
            Some(eb) => {
                if button_code(eb) != st.button {
                    (st, HookOutcome::CallNext)
                } else if is_down_message(msg) {
                    if current != modifiers_of_bits(st.modifiers) {
                        (st, HookOutcome::CallNext)
                    } else {
                        (
                            HookBinding { held: true, ..st },
                            HookOutcome::Consume(
                                MouseEvent { button: eb, state: ButtonState::Pressed },
                            ),
                        )
                    }
                } else if st.held {
                    (
                        HookBinding { held: false, ..st },
                        HookOutcome::Consume(MouseEvent { button: eb, state: ButtonState::Released }),
                    )
                } else {
                    (st, HookOutcome::CallNext)
                }
            },
        }
    }
}

impl HookBinding {
    /// The state before anything is bound.
    pub fn new() -> (r: Self)
        ensures
            r == unbound(),
    {
        HookBinding { button: 0, modifiers: 0, held: false }
    }
}

/// Binds `button` with `modifiers`; any press held under the old binding is forgotten.
pub fn set_binding(state: &mut HookBinding, button: MouseButton, modifiers: Modifiers)
    ensures
        *final(state) == bound(button, modifiers),
{
    state.modifiers = modifiers.as_bits();
    state.held = false;
    state.button = button.code();
}

/// Removes the binding: from now on every event passes through.
pub fn clear_binding(state: &mut HookBinding)
    ensures
        *final(state) == unbound(),
{
    state.button = 0;
    state.modifiers = 0;
    state.held = false;
}

/// Decides what the low-level mouse hook does with one event, given the hook
/// `code`, the message number `msg`, the `mouseData` field of the event and
/// the modifier keys held right now.
pub fn hook_proc(
    state: &mut HookBinding,
    code: i32,
    msg: u32,
    mouse_data: u32,
    current: Modifiers,
) -> (r: HookOutcome)
    ensures
        (*final(state), r) == hook_step(*old(state), code, msg, mouse_data, current),
{
    if code < 0 {
        return HookOutcome::CallNext;
    }
    let bound_code = state.button;
    if bound_code == 0 {
        return HookOutcome::CallNext;
    }
    let event_button = if msg == WM_MBUTTONDOWN || msg == WM_MBUTTONUP {
        Some(MouseButton::Middle)
    } else if msg == WM_XBUTTONDOWN || msg == WM_XBUTTONUP {
        let x = mouse_data >> 16u32;
        if x == 1 {
            Some(MouseButton::XButton1)
        } else if x == 2 {
            Some(MouseButton::XButton2)
        } else {
            None
        }
    } else {
        None
    };
    let eb = match event_button {
        Some(eb) => eb,
        None => {
            return HookOutcome::CallNext;
        },
    };
    if eb.code() != bound_code {
        return HookOutcome::CallNext;
    }
    let is_down = msg == WM_MBUTTONDOWN || msg == WM_XBUTTONDOWN;
    if is_down {
        let bound_mods = Modifiers::from_bits(state.modifiers);
        if current != bound_mods {
            return HookOutcome::CallNext;
        }
        state.held = true;
        return HookOutcome::Consume(MouseEvent { button: eb, state: ButtonState::Pressed });
    }
    if state.held {
        state.held = false;
        return HookOutcome::Consume(MouseEvent { button: eb, state: ButtonState::Released });
    }
    HookOutcome::CallNext
}

/// With nothing bound, every event passes through and nothing changes.
pub proof fn law_unbound_passes_everything(code: i32, msg: u32, mouse_data: u32, current: Modifiers)
    ensures
        hook_step(unbound(), code, msg, mouse_data, current) == (unbound(), HookOutcome::CallNext),
{
}

/// A release is taken only while a taken press is held, and taking it ends
/// the hold: a bound button never reports two releases in a row.
pub proof fn law_release_follows_press(
    st: HookBinding,
    code: i32,
    msg: u32,
    mouse_data: u32,
    current: Modifiers,
)
    ensures
        ({
            let (next, out) = hook_step(st, code, msg, mouse_data, current);
            (out matches HookOutcome::Consume(ev) && ev.state == ButtonState::Released) ==> (
            st.held && !next.held)
        }),
        ({
            let (next, out) = hook_step(st, code, msg, mouse_data, current);
            (out matches HookOutcome::Consume(ev) && ev.state == ButtonState::Pressed) ==> (
            next.held && current == modifiers_of_bits(st.modifiers))
        }),
        ({
            let (next, out) = hook_step(st, code, msg, mouse_data, current);
            out is CallNext ==> next == st
        }),
{
}

/// After binding `button` with `modifiers`, pressing it with exactly those
/// modifiers is taken as a press, and the following release is taken as a
/// release even if the modifiers were let go in between.
pub proof fn law_bound_press_then_release(
    button: MouseButton,
    modifiers: Modifiers,
    down: u32,
    up: u32,
    mouse_data: u32,
    later: Modifiers,
)
    requires
        is_down_message(down),
        !is_down_message(up),
        event_button(down, mouse_data) == Some(button),
        event_button(up, mouse_data) == Some(button),
    ensures
        ({
            let (s1, o1) = hook_step(bound(button, modifiers), 0, down, mouse_data, modifiers);
            let (s2, o2) = hook_step(s1, 0, up, mouse_data, later);
            &&& o1 == HookOutcome::Consume(MouseEvent { button, state: ButtonState::Pressed })
            &&& o2 == HookOutcome::Consume(MouseEvent { button, state: ButtonState::Released })
            &&& s2 == bound(button, modifiers)
        }),
{
    lemma_bits_roundtrip(modifiers);
}

/// Which button a message is about: the middle-button messages are about
/// the middle button; an X-button message is about XButton1 (back) when the
/// high word of its mouseData is 1 and about XButton2 (forward) when it is
/// 2; any other message, or another high word, is about no bindable button.
pub proof fn law_event_button_from_message(msg: u32, mouse_data: u32)
    ensures
        (msg == WM_MBUTTONDOWN || msg == WM_MBUTTONUP) ==> event_button(msg, mouse_data) == Some(
            MouseButton::Middle,
        ),
        (msg == WM_XBUTTONDOWN || msg == WM_XBUTTONUP) && mouse_data / 0x10000 == 1 ==> event_button(
            msg,
            mouse_data,
        ) == Some(MouseButton::XButton1),
        (msg == WM_XBUTTONDOWN || msg == WM_XBUTTONUP) && mouse_data / 0x10000 == 2 ==> event_button(
            msg,
            mouse_data,
        ) == Some(MouseButton::XButton2),
        (msg == WM_XBUTTONDOWN || msg == WM_XBUTTONUP) && mouse_data / 0x10000 != 1 && mouse_data
            / 0x10000 != 2 ==> event_button(msg, mouse_data) is None,
        !(msg == WM_MBUTTONDOWN || msg == WM_MBUTTONUP || msg == WM_XBUTTONDOWN || msg
            == WM_XBUTTONUP) ==> event_button(msg, mouse_data) is None,
{
    assert(mouse_data >> 16u32 == mouse_data / 0x10000) by (bit_vector);
}

/// Every bindable button is taken when it is pressed with exactly its bound
/// modifiers: the middle button on WM_MBUTTONDOWN, XButton1 on
/// WM_XBUTTONDOWN with high word 1, XButton2 on WM_XBUTTONDOWN with high word
/// 2. The press is reported as that button going down and the hold begins.
pub proof fn law_bound_button_press_is_taken(
    button: MouseButton,
    modifiers: Modifiers,
    code: i32,
    mouse_data: u32,
)
    requires
        code >= 0,
    ensures
        button == MouseButton::Middle ==> hook_step(
            bound(button, modifiers),
            code,
            WM_MBUTTONDOWN,
            mouse_data,
            modifiers,
        ) == (
            HookBinding { held: true, ..bound(button, modifiers) },
            HookOutcome::Consume(MouseEvent { button, state: ButtonState::Pressed }),
        ),
        button == MouseButton::XButton1 && mouse_data / 0x10000 == 1 ==> hook_step(
            bound(button, modifiers),
            code,
            WM_XBUTTONDOWN,
            mouse_data,
            modifiers,
        ) == (
            HookBinding { held: true, ..bound(button, modifiers) },
            HookOutcome::Consume(MouseEvent { button, state: ButtonState::Pressed }),
        ),
        button == MouseButton::XButton2 && mouse_data / 0x10000 == 2 ==> hook_step(
            bound(button, modifiers),
            code,
            WM_XBUTTONDOWN,
            mouse_data,
            modifiers,
        ) == (
            HookBinding { held: true, ..bound(button, modifiers) },
            HookOutcome::Consume(MouseEvent { button, state: ButtonState::Pressed }),
        ),
{
    lemma_bits_roundtrip(modifiers);
    law_event_button_from_message(WM_MBUTTONDOWN, mouse_data);
    law_event_button_from_message(WM_XBUTTONDOWN, mouse_data);
}

/// A button other than the bound one is never taken: its events pass on and
/// leave the hook as it was.
pub proof fn law_other_buttons_pass(
    st: HookBinding,
    code: i32,
    msg: u32,
    mouse_data: u32,
    current: Modifiers,
)
    requires
        event_button(msg, mouse_data) matches Some(b) && button_code(b) != st.button,
    ensures
        hook_step(st, code, msg, mouse_data, current) == (st, HookOutcome::CallNext),
{
}

} // verus!
