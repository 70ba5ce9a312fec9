//! The logic of a dictation tool: hotkeys, the mouse hook's decisions,
//! settings migration, the transcription history, the recording state
//! machine, and the requests and replies of the transcription engines.
pub mod text;
pub mod mouse_hook;
pub mod hotkey;
pub mod settings;
pub mod history;
pub mod recorder;
pub mod transcribe_local;
pub mod json;
pub mod transcribe_openrouter;
pub mod audio;
pub mod downloader;
pub mod paste;
pub mod control;
