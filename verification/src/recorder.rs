//! The recording state machine: Ready, then Recording, then Transcribing,
//! then Ready again. Only the input source that started a recording may stop
//! it, so a keyboard press does not cancel a recording started with a mouse
//! button. The microphone, the transcription engines, the clipboard and the
//! tray stand outside; they are driven through the transitions here.
use vstd::prelude::*;

use crate::text::{is_empty_str, str_is};

verus! {

/// Where the recorder stands.
#[derive(Debug, Clone, Copy, PartialEq, Eq, Structural)]
pub enum RecordingState {
    Ready,
    Recording,
    Transcribing,
}

/// Which input device started a recording.
#[derive(Debug, Clone, Copy, PartialEq, Eq, Structural)]
pub enum TriggerSource {
    Keyboard,
    Mouse,
}

/// The transcription engine chosen in the settings.
#[derive(Debug, Clone, Copy, PartialEq, Eq, Structural)]
pub enum Engine {
    Local,
    Groq,
    OpenRouter,
}

/// The tray menu line and the tray tooltip for a state.
pub open spec fn status_text_of(state: RecordingState) -> (Seq<char>, Seq<char>) {
    match state {
        RecordingState::Ready => ("Status: Ready"@, "Typr — Ready"@),
        RecordingState::Recording => ("Status: Recording…"@, "Typr — Recording"@),
        RecordingState::Transcribing => ("Status: Transcribing…"@, "Typr — Transcribing"@),
    }
}

/// The tray menu line and the tray tooltip for a state.
pub fn status_text(state: &RecordingState) -> (r: (&'static str, &'static str))
    ensures
        (r.0@, r.1@) == status_text_of(*state),
{
    match state {
        RecordingState::Ready => ("Status: Ready", "Typr — Ready"),
        RecordingState::Recording => ("Status: Recording…", "Typr — Recording"),
        RecordingState::Transcribing => ("Status: Transcribing…", "Typr — Transcribing"),
    }
}

/// The state of a recorder: where it stands, which source started the
/// recording in progress, and which application should receive the paste.
/// A source is held exactly while the recorder is not ready.
#[derive(Debug, Clone, Copy)]
pub struct Recorder {
    state: RecordingState,
    active_trigger: Option<TriggerSource>,
    paste_target_pid: Option<i32>,
}

/// What a recorder holds.
pub struct RecorderView {
    pub state: RecordingState,
    pub active_trigger: Option<TriggerSource>,
    pub paste_target_pid: Option<i32>,
}

impl View for Recorder {
    type V = RecorderView;

    closed spec fn view(&self) -> RecorderView {
        RecorderView {
            state: self.state,
            active_trigger: self.active_trigger,
            paste_target_pid: self.paste_target_pid,
        }
    }
}

/// A source is held exactly when the recorder is recording or transcribing.
pub open spec fn trigger_matches_state(r: RecorderView) -> bool {
    (r.active_trigger is None) <==> (r.state == RecordingState::Ready)
}

/// A recorder at rest.
pub open spec fn idle() -> RecorderView {
    RecorderView { state: RecordingState::Ready, active_trigger: None, paste_target_pid: None }
}

/// What an attempt to start a recording gives: it is refused unless the
/// recorder is ready.
pub open spec fn start_allowed(r: RecorderView) -> bool {
    r.state == RecordingState::Ready
}

/// The recorder once the microphone is live for a recording started by
/// `source`, pasting into the application `pid` when done.
pub open spec fn recording(r: RecorderView, source: TriggerSource, pid: Option<i32>) -> RecorderView {
    RecorderView {
        state: RecordingState::Recording,
        active_trigger: Some(source),
        paste_target_pid: pid,
    }
}

/// Why a stop request is refused.
#[derive(Debug, Clone, Copy, PartialEq, Eq, Structural)]
pub enum StopRefusal {
    /// Nothing is being recorded.
    NotRecording,
    /// Another source started the recording.
    OtherSource,
}

/// Why a stop request from `source` is refused, if it is.
pub open spec fn stop_refusal(r: RecorderView, source: TriggerSource) -> Option<StopRefusal> {
    if r.state != RecordingState::Recording {
        Some(StopRefusal::NotRecording)
    } else if r.active_trigger != Some(source) {
        Some(StopRefusal::OtherSource)
    } else {
        None
    }
}

/// The recorder after a stop request: transcribing when it was accepted,
/// unchanged when it was refused.
pub open spec fn after_stop_request(r: RecorderView, source: TriggerSource) -> RecorderView {
    if stop_refusal(r, source) is None {
        RecorderView { state: RecordingState::Transcribing, ..r }
    } else {
        r
    }
}

impl Recorder {
    #[verifier::type_invariant]
    spec fn holds_source_while_busy(self) -> bool {
        trigger_matches_state(self@)
    }

    /// A recorder at rest.
    pub fn new() -> (r: Self)
        ensures
            r@ == idle(),
    {
        Recorder { state: RecordingState::Ready, active_trigger: None, paste_target_pid: None }
    }

    /// Where the recorder stands; ready exactly when no source holds a
    /// recording.
    pub fn get_state(&self) -> (r: RecordingState)
        ensures
            r == self@.state,
            (r == RecordingState::Ready) <==> (self@.active_trigger is None),
    {
        proof {
            use_type_invariant(self);
        }
        self.state
    }

    /// The source that started the recording in progress, or None when idle.
    pub fn active_trigger(&self) -> (r: Option<TriggerSource>)
        ensures
            r == self@.active_trigger,
            (r is None) <==> (self@.state == RecordingState::Ready),
    {
        proof {
            use_type_invariant(self);
        }
        self.active_trigger
    }

    /// The application that owned the focus when the recording started.
    pub fn paste_target(&self) -> (r: Option<i32>)
        ensures
            r == self@.paste_target_pid,
    {
        self.paste_target_pid
    }

    /// Whether a recording may start now; refused while recording or transcribing.
    pub fn check_can_start(&self) -> (r: Result<(), String>)
        ensures
            r is Ok <==> start_allowed(self@),
            r matches Err(e) ==> e@ == "Already recording or transcribing"@,
    {
        broadcast use vstd::string::group_string_axioms;

        if self.state != RecordingState::Ready {
            return Err("Already recording or transcribing".to_string());
        }
        Ok(())
    }

    /// Records that the microphone is live for a recording started by
    /// `source`, whose transcript goes to the application `pid`.
    pub fn recording_started(&mut self, source: TriggerSource, pid: Option<i32>)
        requires
            start_allowed(old(self)@),
        ensures
            final(self)@ == recording(old(self)@, source, pid),
    {
        *self = Recorder {
            state: RecordingState::Recording,
            active_trigger: Some(source),
            paste_target_pid: pid,
        };
    }

    /// A request from `source` to stop recording and transcribe. It is
    /// refused when nothing is being recorded or when another source
    /// started the recording; otherwise the recorder turns to transcribing.
    pub fn begin_stop(&mut self, source: TriggerSource) -> (r: Result<(), String>)
        ensures
            final(self)@ == after_stop_request(old(self)@, source),
            r is Ok <==> stop_refusal(old(self)@, source) is None,
            stop_refusal(old(self)@, source) == Some(StopRefusal::NotRecording) ==> (r matches Err(e)
                && e@ == "Not currently recording"@),
            stop_refusal(old(self)@, source) == Some(StopRefusal::OtherSource) ==> (r matches Err(e)
                && e@ == "Recording was started by a different hotkey; use the same one to stop it"@),
    {
        broadcast use vstd::string::group_string_axioms;

        if self.state != RecordingState::Recording {
            return Err("Not currently recording".to_string());
        }
        if self.active_trigger != Some(source) {
            return Err(
                "Recording was started by a different hotkey; use the same one to stop it".to_string(),
            );
        }
        *self = Recorder {
            state: RecordingState::Transcribing,
            active_trigger: Some(source),
            paste_target_pid: self.paste_target_pid,
        };
        Ok(())
    }

    /// The end of a transcription, successful or not: back at rest.
    pub fn finish(&mut self)
        ensures
            final(self)@ == idle(),
    {
        *self = Recorder { state: RecordingState::Ready, active_trigger: None, paste_target_pid: None };
    }
}

/// Whether a cleaned transcript is delivered: saved to the history and
/// pasted into the target application. An empty one is neither.
pub fn delivers(cleaned: &str) -> (r: bool)
    ensures
        r == (cleaned@.len() != 0),
{
    !is_empty_str(cleaned)
}

/// The engine that the settings name, or the error for an unknown one.
pub open spec fn engine_of(name: Seq<char>) -> Option<Engine> {
    if name == "local"@ {
        Some(Engine::Local)
    } else if name == "groq"@ {
        Some(Engine::Groq)
    } else if name == "openrouter"@ {
        Some(Engine::OpenRouter)
    } else {
        None
    }
}

/// The engine that the settings name; an unknown name is an error that
/// quotes it.
pub fn engine_for(name: &str) -> (r: Result<Engine, String>)
    ensures
        engine_of(name@) matches Some(e) ==> r == Ok::<Engine, String>(e),
        engine_of(name@) is None ==> (r matches Err(m) && m@ == "Unknown engine: "@ + name@),
{
    if str_is(name, "local") {
        Ok(Engine::Local)
    } else if str_is(name, "groq") {
        Ok(Engine::Groq)
    } else if str_is(name, "openrouter") {
        Ok(Engine::OpenRouter)
    } else {
        let mut m = String::from_str("Unknown engine: ");
        m.append(name);
        Err(m)
    }
}

/// Each transition keeps the active trigger in step with the state: at
/// rest there is none, a started recording holds its source, and a stop
/// request, accepted or refused, keeps it until the transcription finishes.
pub proof fn law_transitions_keep_trigger_with_state(
    r: RecorderView,
    source: TriggerSource,
    pid: Option<i32>,
)
    requires
        trigger_matches_state(r),
    ensures
        trigger_matches_state(idle()),
        start_allowed(r) ==> trigger_matches_state(recording(r, source, pid)),
        trigger_matches_state(after_stop_request(r, source)),
        recording(r, source, pid).active_trigger == Some(source),
        stop_refusal(r, source) is None ==> after_stop_request(r, source).active_trigger == Some(
            source,
        ),
{
}

/// Only the source that started a recording can stop it: a stop request
/// from the other source is refused and leaves the recording running.
pub proof fn law_only_starter_stops(
    r: RecorderView,
    source: TriggerSource,
    pid: Option<i32>,
    other: TriggerSource,
)
    requires
        start_allowed(r),
        other != source,
    ensures
        stop_refusal(recording(r, source, pid), other) == Some(StopRefusal::OtherSource),
        after_stop_request(recording(r, source, pid), other) == recording(r, source, pid),
        stop_refusal(recording(r, source, pid), source) is None,
{
}

/// A full cycle: from rest, a recording started by one source and stopped
/// by the same source transcribes; finishing brings the recorder back to
/// rest, ready to start again.
pub proof fn law_cycle_returns_to_rest(source: TriggerSource, pid: Option<i32>)
    ensures
        start_allowed(idle()),
        after_stop_request(recording(idle(), source, pid), source).state
            == RecordingState::Transcribing,
        !start_allowed(recording(idle(), source, pid)),
        !start_allowed(after_stop_request(recording(idle(), source, pid), source)),
{
}

} // verus!
