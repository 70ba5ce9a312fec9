use typr::settings::{Settings, DEFAULT_KEYBOARD_HOTKEY, DEFAULT_OPENROUTER_MODEL};

#[test]
fn test_default_settings() {
    let settings = Settings::default();
    assert_eq!(settings.microphone, "default");
    assert_eq!(settings.engine, "local");
    assert_eq!(settings.whisper_model, "small");
    assert_eq!(settings.groq_api_key, "");
    assert_eq!(settings.openrouter_api_key, "");
    assert_eq!(settings.openrouter_model, DEFAULT_OPENROUTER_MODEL);
    assert_eq!(settings.recording_mode, "toggle");
    assert_eq!(settings.keyboard_hotkey, DEFAULT_KEYBOARD_HOTKEY);
    assert_eq!(settings.mouse_hotkey, "");
    assert_eq!(settings.hotkey, "");
}

#[test]
fn old_cloud_config_is_migrated() {
    let mut s = Settings::default();
    s.engine = "cloud".to_string();
    s.groq_api_key = "groq-test".to_string();
    s.hotkey = "CmdOrCtrl+Shift+Space".to_string();
    let n = s.normalized();
    assert_eq!(n.engine, "groq");
    assert_eq!(n.groq_api_key, "groq-test");
    assert_eq!(n.openrouter_model, DEFAULT_OPENROUTER_MODEL);
    assert_eq!(n.keyboard_hotkey, "CmdOrCtrl+Shift+Space");
    assert_eq!(n.hotkey, "");
}

#[test]
fn unknown_engine_falls_back_to_local() {
    let mut s = Settings::default();
    s.engine = "whisperx".to_string();
    assert_eq!(s.normalized().engine, "local");
    let mut s = Settings::default();
    s.engine = "openrouter".to_string();
    assert_eq!(s.normalized().engine, "openrouter");
}

#[test]
fn legacy_mouse_hotkey_goes_to_the_mouse_slot() {
    let mut s = Settings::default();
    s.hotkey = "XButton2".to_string();
    let n = s.normalized();
    assert_eq!(n.mouse_hotkey, "XButton2");
    assert_eq!(n.keyboard_hotkey, "");
    assert_eq!(n.hotkey, "");
}

#[test]
fn legacy_keyboard_hotkey_goes_to_the_keyboard_slot() {
    let mut s = Settings::default();
    s.mouse_hotkey = "XButton1".to_string();
    s.hotkey = "CmdOrCtrl+Shift+Space".to_string();
    let n = s.normalized();
    assert_eq!(n.keyboard_hotkey, "CmdOrCtrl+Shift+Space");
    assert_eq!(n.mouse_hotkey, "");
    assert_eq!(n.hotkey, "");
}

#[test]
fn retired_or_blank_openrouter_model_is_replaced() {
    let mut s = Settings::default();
    s.openrouter_model = "openai/gpt-audio-mini".to_string();
    assert_eq!(s.normalized().openrouter_model, DEFAULT_OPENROUTER_MODEL);
    let mut s = Settings::default();
    s.openrouter_model = " \t ".to_string();
    assert_eq!(s.normalized().openrouter_model, DEFAULT_OPENROUTER_MODEL);
    let mut s = Settings::default();
    s.openrouter_model = "openai/whisper-large-v3".to_string();
    assert_eq!(s.normalized().openrouter_model, "openai/whisper-large-v3");
}

#[test]
fn normalizing_twice_changes_nothing_more() {
    let mut s = Settings::default();
    s.engine = "cloud".to_string();
    s.openrouter_model = String::new();
    s.hotkey = "Alt+Back".to_string();
    let once = s.normalized();
    let twice = once.clone().normalized();
    assert_eq!(once, twice);
    assert_eq!(Settings::default().normalized(), Settings::default());
}

#[test]
fn legacy_hotkey_routed_by_the_given_flag() {
    let mut s = Settings::default();
    s.hotkey = "Ctrl+Space".to_string();
    let n = s.clone().normalized_with(true);
    assert_eq!(n.mouse_hotkey, "Ctrl+Space");
    assert_eq!(n.keyboard_hotkey, "");
    assert_eq!(n.hotkey, "");
    let n = s.normalized_with(false);
    assert_eq!(n.keyboard_hotkey, "Ctrl+Space");
    assert_eq!(n.mouse_hotkey, "");
    let mut s = Settings::default();
    s.engine = "cloud".to_string();
    let n = s.normalized_with(true);
    assert_eq!(n.engine, "groq");
    assert_eq!(n.keyboard_hotkey, Settings::default().keyboard_hotkey);
    assert_eq!(n.mouse_hotkey, "");
}
