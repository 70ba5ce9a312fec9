//! The decisions of the application shell: what a hotkey event or a
//! toggle request does in each recording state, which connection to warm
//! up, and where the two hotkey slots are registered. The shell performs
//! what these functions decide.
use vstd::prelude::*;

use crate::hotkey::{hotkey_keys, names_mouse_button, parse, scan_keys, Hotkey};
use crate::mouse_hook::{Modifiers, MouseButton};
use crate::recorder::{RecordingState, TriggerSource};
use crate::text::{is_blank, str_is, trimmed};

verus! {

/// The address fetched to open a connection to an engine's API while the
/// user is still speaking: OpenRouter and Groq have one, the local engine none.
pub open spec fn prewarm_url_of(engine: Seq<char>) -> Option<Seq<char>> {
    if engine == "openrouter"@ {
        Some("https://openrouter.ai/api/v1/models"@)
    } else if engine == "groq"@ {
        Some("https://api.groq.com/openai/v1/models"@)
    } else {
        None
    }
}

/// The address to warm up a connection to for an engine.
pub fn prewarm_url(engine: &str) -> (r: Option<&'static str>)
    ensures
        match r {
            Some(u) => prewarm_url_of(engine@) == Some(u@),
            None => prewarm_url_of(engine@) is None,
        },
{
    if str_is(engine, "openrouter") {
        Some("https://openrouter.ai/api/v1/models")
    } else if str_is(engine, "groq") {
        Some("https://api.groq.com/openai/v1/models")
    } else {
        None
    }
}

/// What a toggle request does.
#[derive(Debug, Clone, Copy, PartialEq, Eq, Structural)]
pub enum ToggleAction {
    /// Start recording.
    Start,
    /// Stop recording and transcribe.
    Stop,
}

/// What a toggle request does in a state: start when ready, stop when
/// recording, and it is refused while transcribing.
pub fn toggle_action(state: RecordingState) -> (r: Result<ToggleAction, String>)
    ensures
        state == RecordingState::Ready ==> r == Ok::<ToggleAction, String>(ToggleAction::Start),
        state == RecordingState::Recording ==> r == Ok::<ToggleAction, String>(ToggleAction::Stop),
        state == RecordingState::Transcribing ==> (r matches Err(e) && e@
            == "Currently transcribing, please wait"@),
{
    broadcast use vstd::string::group_string_axioms;

    match state {
        RecordingState::Ready => Ok(ToggleAction::Start),
        RecordingState::Recording => Ok(ToggleAction::Stop),
        RecordingState::Transcribing => Err("Currently transcribing, please wait".to_string()),
    }
}

/// The source a toggle from the settings page acts for: the one that
/// started the recording in progress, else the keyboard.
pub fn toggle_source(active: Option<TriggerSource>) -> (r: TriggerSource)
    ensures
        r == match active {
            Some(s) => s,
            None => TriggerSource::Keyboard,
        },
{
    match active {
        Some(s) => s,
        None => TriggerSource::Keyboard,
    }
}

/// The report of a toggle that started a recording.
pub const STARTED: &'static str = "recording";

/// What a hotkey event does.
#[derive(Debug, Clone, Copy, PartialEq, Eq, Structural)]
pub enum HotkeyAction {
    /// Toggle recording (start or stop, see [`toggle_action`]).
    Toggle,
    /// Start a push-to-talk recording.
    StartPushToTalk,
    /// Stop a push-to-talk recording, if one is still running then.
    StopPushToTalk,
    /// Nothing.
    Ignore,
}

/// What a hotkey event does: in "toggle" mode a press toggles; in
/// "push-to-talk" mode a press starts recording when ready and a release
/// stops it; anything else is ignored.
pub open spec fn hotkey_action_of(mode: Seq<char>, pressed: bool, state: RecordingState) -> HotkeyAction {
    if pressed {
        if mode == "toggle"@ {
            HotkeyAction::Toggle
        } else if mode == "push-to-talk"@ {
            if state == RecordingState::Ready {
                HotkeyAction::StartPushToTalk
            } else {
                HotkeyAction::Ignore
            }
        } else {
            HotkeyAction::Ignore
        }
    } else if mode == "push-to-talk"@ {
        HotkeyAction::StopPushToTalk
    } else {
        HotkeyAction::Ignore
    }
}

/// What a hotkey event does in the configured recording mode and the
/// current state.
pub fn hotkey_action(mode: &str, pressed: bool, state: RecordingState) -> (r: HotkeyAction)
    ensures
        r == hotkey_action_of(mode@, pressed, state),
{
    if pressed {
        if str_is(mode, "toggle") {
            HotkeyAction::Toggle
        } else if str_is(mode, "push-to-talk") {
            if state == RecordingState::Ready {
                HotkeyAction::StartPushToTalk
            } else {
                HotkeyAction::Ignore
            }
        } else {
            HotkeyAction::Ignore
        }
    } else if str_is(mode, "push-to-talk") {
        HotkeyAction::StopPushToTalk
    } else {
        HotkeyAction::Ignore
    }
}

/// Whether a push-to-talk release still finds a recording to stop.
pub fn release_stops(state: RecordingState) -> (r: bool)
    ensures
        r == (state == RecordingState::Recording),
{
    state == RecordingState::Recording
}

/// What becomes of the keyboard hotkey slot.
#[derive(Debug)]
pub enum KeyboardSlot {
    /// The slot is empty: no keyboard shortcut.
    Disabled,
    /// Register this shortcut.
    Register(String),
    /// The value names a mouse button: it does not belong in this slot.
    Ignored,
}

/// What becomes of the mouse hotkey slot.
#[derive(Debug)]
pub enum MouseSlot {
    /// The slot is empty: no mouse binding.
    Disabled,
    /// Bind this button with these modifiers.
    Bind(MouseButton, Modifiers),
    /// The value names no mouse button: it does not belong in this slot.
    Ignored,
}

/// Where the two hotkey slots go.
#[derive(Debug)]
pub struct HotkeyPlan {
    pub keyboard: KeyboardSlot,
    pub mouse: MouseSlot,
}

/// The keyboard slot: empty when blank, registered as it is when it parses
/// as a keyboard shortcut, ignored when it names a mouse button. Where no
/// mouse hook exists every non-blank value is a keyboard shortcut.
pub open spec fn keyboard_slot_ok(slot: KeyboardSlot, value: Seq<char>, mouse_hook: bool) -> bool {
    if trimmed(value).len() == 0 {
        slot is Disabled
    } else if !mouse_hook {
        slot matches KeyboardSlot::Register(s) && s@ == value
    } else {
        match scan_keys(hotkey_keys(value)).0 {
            None => slot matches KeyboardSlot::Register(s) && s@ == value,
            Some(_) => slot is Ignored,
        }
    }
}

/// The mouse slot: empty when blank, bound when it names a mouse button,
/// ignored when it parses as a keyboard shortcut; never used where no mouse
/// hook exists.
pub open spec fn mouse_slot_ok(slot: MouseSlot, value: Seq<char>, mouse_hook: bool) -> bool {
    if !mouse_hook || trimmed(value).len() == 0 {
        slot is Disabled
    } else {
        match scan_keys(hotkey_keys(value)).0 {
            Some(b) => slot == MouseSlot::Bind(b, scan_keys(hotkey_keys(value)).1),
            None => slot is Ignored,
        }
    }
}

/// The keyboard slot for a hotkey value read as `parsed` (nothing for an
/// empty slot): a keyboard shortcut is registered, a mouse hotkey ignored.
pub open spec fn keyboard_slot_from(slot: KeyboardSlot, parsed: Option<Hotkey>) -> bool {
    match parsed {
        None => slot is Disabled,
        Some(Hotkey::Keyboard(s)) => slot matches KeyboardSlot::Register(t) && t@ == s@,
        Some(Hotkey::Mouse { .. }) => slot is Ignored,
    }
}

/// The mouse slot for a hotkey value read as `parsed` (nothing for an empty
/// slot): a mouse hotkey is bound, a keyboard shortcut ignored.
pub open spec fn mouse_slot_from(slot: MouseSlot, parsed: Option<Hotkey>) -> bool {
    match parsed {
        None => slot is Disabled,
        Some(Hotkey::Mouse { button, modifiers }) => slot == MouseSlot::Bind(button, modifiers),
        Some(Hotkey::Keyboard(_)) => slot is Ignored,
    }
}

/// Where the two hotkey slots go, given what each slot's value was read as
/// (nothing for a slot that stays empty).
pub fn plan_from_parsed(keyboard: Option<Hotkey>, mouse: Option<Hotkey>) -> (r: HotkeyPlan)
    ensures
        keyboard_slot_from(r.keyboard, keyboard),
        mouse_slot_from(r.mouse, mouse),
{
    let keyboard = match keyboard {
        None => KeyboardSlot::Disabled,
        Some(Hotkey::Keyboard(s)) => KeyboardSlot::Register(s),
        Some(Hotkey::Mouse { .. }) => KeyboardSlot::Ignored,
    };
    let mouse = match mouse {
        None => MouseSlot::Disabled,
        Some(Hotkey::Mouse { button, modifiers }) => MouseSlot::Bind(button, modifiers),
        Some(Hotkey::Keyboard(_)) => MouseSlot::Ignored,
    };
    HotkeyPlan { keyboard, mouse }
}

/// Where the two hotkey slots go; `mouse_hook` tells whether the platform
/// has the mouse hook (Windows). Either slot may be empty (disabled); all
/// earlier registrations are dropped before this plan is carried out.
pub fn plan_hotkeys(keyboard_hotkey: &str, mouse_hotkey: &str, mouse_hook: bool) -> (r: HotkeyPlan)
    ensures
        keyboard_slot_ok(r.keyboard, keyboard_hotkey@, mouse_hook),
        mouse_slot_ok(r.mouse, mouse_hotkey@, mouse_hook),
{
    broadcast use vstd::string::group_string_axioms;

    let keyboard = if is_blank(keyboard_hotkey) {
        None
    } else if !mouse_hook {
        Some(Hotkey::Keyboard(keyboard_hotkey.to_string()))
    } else {
        Some(parse(keyboard_hotkey))
    };
    let mouse = if !mouse_hook || is_blank(mouse_hotkey) {
        None
    } else {
        Some(parse(mouse_hotkey))
    };
    plan_from_parsed(keyboard, mouse)
}

/// Whether saving settings changed either hotkey slot, so that the
/// hotkeys must be registered again.
pub fn hotkeys_changed(old_keyboard: &str, old_mouse: &str, new_keyboard: &str, new_mouse: &str) -> (r:
    bool)
    ensures
        r == (old_keyboard@ != new_keyboard@ || old_mouse@ != new_mouse@),
{
    !str_is(old_keyboard, new_keyboard) || !str_is(old_mouse, new_mouse)
}

/// Where the mouse hook exists, a non-blank hotkey value is bound to the
/// mouse slot exactly when it names a mouse button, and registered in the
/// keyboard slot exactly when it does not: each value goes to one slot only.
pub proof fn law_slots_route_by_mouse_button(
    value: Seq<char>,
    keyboard: KeyboardSlot,
    mouse: MouseSlot,
)
    requires
        trimmed(value).len() != 0,
        keyboard_slot_ok(keyboard, value, true),
        mouse_slot_ok(mouse, value, true),
    ensures
        mouse is Bind <==> names_mouse_button(value),
        keyboard is Register <==> !names_mouse_button(value),
{
    crate::hotkey::lemma_scan_button(hotkey_keys(value));
}

/// In push-to-talk mode a press starts a recording only from rest, and a
/// release always asks to stop; in toggle mode every press toggles.
pub proof fn law_push_to_talk(state: RecordingState)
    ensures
        hotkey_action_of("push-to-talk"@, true, state) == HotkeyAction::StartPushToTalk <==> state
            == RecordingState::Ready,
        hotkey_action_of("push-to-talk"@, false, state) == HotkeyAction::StopPushToTalk,
        hotkey_action_of("toggle"@, true, state) == HotkeyAction::Toggle,
        hotkey_action_of("toggle"@, false, state) == HotkeyAction::Ignore,
{
    reveal_strlit("toggle");
    reveal_strlit("push-to-talk");
    assert("toggle"@.len() != "push-to-talk"@.len());
}

} // verus!
