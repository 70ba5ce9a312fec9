use typr::audio::{
    bluetooth_hint, bluetooth_hint_for_lowered, choose_device, mic_wait_step, microphones_from_names, no_audio_message,
    DeviceChoice, WaitStep,
};
use typr::control::{
    hotkey_action, hotkeys_changed, plan_from_parsed, plan_hotkeys, prewarm_url, toggle_action, toggle_source,
    HotkeyAction, KeyboardSlot, MouseSlot, ToggleAction,
};
use typr::downloader::{check_download_complete, model_size_for_file};
use typr::hotkey::Hotkey;
use typr::mouse_hook::{Modifiers, MouseButton};
use typr::paste::{capture_paste_target, paste_script};
use typr::recorder::{RecordingState, TriggerSource};

#[test]
fn bluetooth_hints() {
    assert!(bluetooth_hint("AirPods Pro").starts_with(" Bluetooth headsets"));
    assert!(!bluetooth_hint("Headset (WH-1000XM4 Hands-Free)").is_empty());
    assert_eq!(bluetooth_hint("MacBook Pro Microphone"), "");
}

#[test]
fn microphone_choice() {
    let devs = microphones_from_names(vec!["A".to_string(), "B".to_string()], "B");
    assert!(!devs[0].is_default);
    assert!(devs[1].is_default);
    let names = vec![None, Some("USB".to_string()), Some("USB".to_string())];
    assert_eq!(choose_device("default", &names), DeviceChoice::SystemDefault);
    assert_eq!(choose_device("USB", &names), DeviceChoice::Listed(1));
    assert_eq!(choose_device("Other", &names), DeviceChoice::NotFound);
}

#[test]
fn waiting_for_the_microphone() {
    assert!(matches!(mic_wait_step("Mic", true, Some("x"), 0), WaitStep::Live));
    match mic_wait_step("Mic", false, Some("gone"), 0) {
        WaitStep::Failed(m) => assert_eq!(m, "Microphone 'Mic' failed to start: gone."),
        _ => panic!("expected failure"),
    }
    assert!(matches!(mic_wait_step("Mic", false, None, 2_500_000_001), WaitStep::GiveUp));
    assert!(matches!(mic_wait_step("Mic", false, None, 2_500_000_000), WaitStep::KeepWaiting));
    assert_eq!(
        no_audio_message("Mic", None),
        "No audio captured from 'Mic'. Hold the hotkey while speaking and verify the microphone works in Windows sound settings."
    );
    assert_eq!(no_audio_message("Mic", Some("boom")), "Microphone 'Mic' stream error: boom.");
}

#[test]
fn shell_decisions() {
    assert_eq!(prewarm_url("openrouter"), Some("https://openrouter.ai/api/v1/models"));
    assert_eq!(prewarm_url("groq"), Some("https://api.groq.com/openai/v1/models"));
    assert_eq!(prewarm_url("local"), None);
    assert_eq!(toggle_action(RecordingState::Ready).unwrap(), ToggleAction::Start);
    assert_eq!(toggle_action(RecordingState::Recording).unwrap(), ToggleAction::Stop);
    assert_eq!(
        toggle_action(RecordingState::Transcribing).unwrap_err(),
        "Currently transcribing, please wait"
    );
    assert_eq!(toggle_source(None), TriggerSource::Keyboard);
    assert_eq!(toggle_source(Some(TriggerSource::Mouse)), TriggerSource::Mouse);
    assert_eq!(hotkey_action("toggle", true, RecordingState::Recording), HotkeyAction::Toggle);
    assert_eq!(
        hotkey_action("push-to-talk", true, RecordingState::Ready),
        HotkeyAction::StartPushToTalk
    );
    assert_eq!(
        hotkey_action("push-to-talk", true, RecordingState::Transcribing),
        HotkeyAction::Ignore
    );
    assert_eq!(
        hotkey_action("push-to-talk", false, RecordingState::Ready),
        HotkeyAction::StopPushToTalk
    );
    assert_eq!(hotkey_action("toggle", false, RecordingState::Ready), HotkeyAction::Ignore);
    assert!(hotkeys_changed("a", "b", "a", "c"));
    assert!(!hotkeys_changed("a", "b", "a", "b"));
}

#[test]
fn hotkey_slots() {
    let plan = plan_hotkeys("Ctrl+Shift+R", "XButton2", true);
    assert!(matches!(plan.keyboard, KeyboardSlot::Register(ref s) if s == "Ctrl+Shift+R"));
    assert!(matches!(plan.mouse, MouseSlot::Bind(MouseButton::XButton2, _)));
    let plan = plan_hotkeys("XButton1", "Ctrl+R", true);
    assert!(matches!(plan.keyboard, KeyboardSlot::Ignored));
    assert!(matches!(plan.mouse, MouseSlot::Ignored));
    let plan = plan_hotkeys("  ", "", true);
    assert!(matches!(plan.keyboard, KeyboardSlot::Disabled));
    assert!(matches!(plan.mouse, MouseSlot::Disabled));
    let plan = plan_hotkeys("XButton1", "XButton2", false);
    assert!(matches!(plan.keyboard, KeyboardSlot::Register(ref s) if s == "XButton1"));
    assert!(matches!(plan.mouse, MouseSlot::Disabled));
}

#[test]
fn downloads() {
    assert_eq!(model_size_for_file(Some("ggml-small.bin.partial")), "small");
    assert_eq!(model_size_for_file(Some("ggml-medium.bin")), "medium");
    assert_eq!(model_size_for_file(Some("ggml-base.bin")), "");
    assert_eq!(model_size_for_file(None), "");
    assert!(check_download_complete(10, 10).is_ok());
    assert!(check_download_complete(7, 0).is_ok());
    assert_eq!(
        check_download_complete(7, 10).unwrap_err(),
        "Model download was incomplete (downloaded 7 of 10 bytes). Please try again."
    );
}

#[test]
fn paste_targets() {
    assert_eq!(capture_paste_target(), None);
    assert_eq!(
        paste_script(None),
        "tell application \"System Events\" to keystroke \"v\" using command down"
    );
    assert!(paste_script(Some(-12)).contains("whose unix id is -12\n"));
}

#[test]
fn bluetooth_hint_from_lowered_names() {
    let lowered: Vec<char> = "jabra headset".chars().collect();
    assert!(bluetooth_hint_for_lowered(&lowered).starts_with(" Bluetooth headsets"));
    let not_lowered: Vec<char> = "HEADSET".chars().collect();
    assert_eq!(bluetooth_hint_for_lowered(&not_lowered), "");
    assert_eq!(bluetooth_hint("HEADSET"), bluetooth_hint_for_lowered(&lowered));
    let empty: Vec<char> = Vec::new();
    assert_eq!(bluetooth_hint_for_lowered(&empty), "");
}

#[test]
fn hotkey_slots_from_parsed_values() {
    let mods = Modifiers { ctrl: true, shift: false, alt: false, win: false };
    let plan = plan_from_parsed(
        Some(Hotkey::Keyboard("Ctrl+R".to_string())),
        Some(Hotkey::Mouse { button: MouseButton::Middle, modifiers: mods }),
    );
    assert!(matches!(plan.keyboard, KeyboardSlot::Register(ref s) if s == "Ctrl+R"));
    assert!(matches!(plan.mouse, MouseSlot::Bind(MouseButton::Middle, m) if m.ctrl && !m.shift));
    let plan = plan_from_parsed(
        Some(Hotkey::Mouse { button: MouseButton::XButton1, modifiers: mods }),
        Some(Hotkey::Keyboard("Ctrl+R".to_string())),
    );
    assert!(matches!(plan.keyboard, KeyboardSlot::Ignored));
    assert!(matches!(plan.mouse, MouseSlot::Ignored));
    let plan = plan_from_parsed(None, None);
    assert!(matches!(plan.keyboard, KeyboardSlot::Disabled));
    assert!(matches!(plan.mouse, MouseSlot::Disabled));
}

#[test]
fn decimal_numbers_in_messages() {
    assert_eq!(
        check_download_complete(0, 18446744073709551615).unwrap_err(),
        "Model download was incomplete (downloaded 0 of 18446744073709551615 bytes). Please try again."
    );
    assert_eq!(
        check_download_complete(1090, 2001).unwrap_err(),
        "Model download was incomplete (downloaded 1090 of 2001 bytes). Please try again."
    );
    assert!(paste_script(Some(i32::MIN)).contains("whose unix id is -2147483648\n"));
    assert!(paste_script(Some(0)).contains("whose unix id is 0\n"));
    assert!(paste_script(Some(i32::MAX)).contains("whose unix id is 2147483647\n"));
}
