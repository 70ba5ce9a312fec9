# typr

The logic of Typr, a push-to-talk / toggle dictation tool, as a Verus-verified
library, with the desktop shell around it.

- `src/` — the verified library:
  - `text` — character-level helpers (trim, split, search, decimal text);
  - `hotkey` — parsing hotkey strings into keyboard shortcuts or mouse bindings;
  - `mouse_hook` — the decision logic of the low-level mouse hook;
  - `settings` — settings and their migration after loading;
  - `history` — the transcription history list;
  - `recorder` — the Ready → Recording → Transcribing state machine;
  - `control` — what hotkey events and toggle requests do, hotkey slot routing;
  - `audio`, `downloader`, `paste` — the decisions around the microphone,
    model downloads and pasting;
  - `transcribe_local` — the whisper.cpp command line and its outcome;
  - `transcribe_openrouter`, `json` — OpenRouter requests and replies, and
    the JSON text of a chat answer, parsed with serde_json.
- `tests/` — tests of the library.
- `app/` — the Tauri application: windows, tray, global shortcuts, audio
  capture, files, HTTP and the OS hooks. Audio processing (mixing, level
  gate, resampling, WAV encoding) works on floating-point samples and stays
  there too; the decisions around these steps are made by the library.
