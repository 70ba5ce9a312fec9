use typr::recorder::{
    delivers, engine_for, status_text, Engine, Recorder, RecordingState, TriggerSource,
};

#[test]
fn test_initial_state_is_ready() {
    let recorder = Recorder::new();
    assert_eq!(recorder.get_state(), RecordingState::Ready);
}

#[test]
fn test_tray_status_text() {
    assert_eq!(status_text(&RecordingState::Ready).0, "Status: Ready");
    assert_eq!(status_text(&RecordingState::Recording).0, "Status: Recording…");
    assert_eq!(status_text(&RecordingState::Transcribing).0, "Status: Transcribing…");
    assert_eq!(status_text(&RecordingState::Transcribing).1, "Typr — Transcribing");
}

#[test]
fn only_the_starting_source_stops() {
    let mut r = Recorder::new();
    assert!(r.check_can_start().is_ok());
    r.recording_started(TriggerSource::Mouse, Some(42));
    assert_eq!(r.get_state(), RecordingState::Recording);
    assert_eq!(r.check_can_start().unwrap_err(), "Already recording or transcribing");
    let e = r.begin_stop(TriggerSource::Keyboard).unwrap_err();
    assert_eq!(e, "Recording was started by a different hotkey; use the same one to stop it");
    assert_eq!(r.get_state(), RecordingState::Recording);
    assert!(r.begin_stop(TriggerSource::Mouse).is_ok());
    assert_eq!(r.get_state(), RecordingState::Transcribing);
    assert_eq!(r.paste_target(), Some(42));
    r.finish();
    assert_eq!(r.get_state(), RecordingState::Ready);
    assert_eq!(r.active_trigger(), None);
    assert_eq!(r.paste_target(), None);
    assert_eq!(r.begin_stop(TriggerSource::Mouse).unwrap_err(), "Not currently recording");
}

#[test]
fn engines_by_name() {
    assert_eq!(engine_for("local").unwrap(), Engine::Local);
    assert_eq!(engine_for("groq").unwrap(), Engine::Groq);
    assert_eq!(engine_for("openrouter").unwrap(), Engine::OpenRouter);
    assert_eq!(engine_for("cloud").unwrap_err(), "Unknown engine: cloud");
}

#[test]
fn trigger_is_held_exactly_while_busy() {
    let mut r = Recorder::new();
    assert_eq!(r.active_trigger(), None);
    assert_eq!(r.get_state(), RecordingState::Ready);
    r.recording_started(TriggerSource::Keyboard, None);
    assert_eq!(r.active_trigger(), Some(TriggerSource::Keyboard));
    assert!(r.begin_stop(TriggerSource::Mouse).is_err());
    assert_eq!(r.active_trigger(), Some(TriggerSource::Keyboard));
    assert!(r.begin_stop(TriggerSource::Keyboard).is_ok());
    assert_eq!(r.get_state(), RecordingState::Transcribing);
    assert_eq!(r.active_trigger(), Some(TriggerSource::Keyboard));
    r.finish();
    assert_eq!(r.active_trigger(), None);
    assert!(r.check_can_start().is_ok());
}

#[test]
fn only_non_empty_transcripts_are_delivered() {
    assert!(delivers("hello"));
    assert!(delivers(" "));
    assert!(!delivers(""));
}
