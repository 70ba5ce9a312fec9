//! The user's settings and their normalisation after loading.
//!
//! Reading and writing the JSON file stands outside the library; what is
//! decided after a load (migrating old engine names, old models and the
//! legacy single hotkey) stands here.
use vstd::prelude::*;

use crate::hotkey::{is_mouse_hotkey, names_mouse_button};
use crate::text::{is_blank, is_empty_str, is_white_space, str_is, trim_end, trim_start, trimmed};

verus! {

/// The OpenRouter model used when none (or a retired one) is configured.
pub const DEFAULT_OPENROUTER_MODEL: &'static str = "google/gemini-3.1-flash-lite-preview";

/// The OpenRouter model that older versions defaulted to.
pub const LEGACY_OPENROUTER_MODEL: &'static str = "openai/gpt-audio-mini";

/// The keyboard hotkey of a fresh installation.
pub const DEFAULT_KEYBOARD_HOTKEY: &'static str = "CmdOrCtrl+Shift+Space";

/// The name of the settings file inside the application directory.
pub const CONFIG_FILE_NAME: &'static str = "config.json";

/// The user's settings.
#[derive(Debug, PartialEq)]
pub struct Settings {
    pub microphone: String,
    pub engine: String,
    pub whisper_model: String,
    pub groq_api_key: String,
    pub openrouter_api_key: String,
    pub openrouter_model: String,
    pub recording_mode: String,
    pub keyboard_hotkey: String,
    pub mouse_hotkey: String,
    /// Legacy single-hotkey field. Read for migration on load, never written
    /// back. When present it signals an old configuration whose hotkey must
    /// be routed into the keyboard or mouse slot.
    pub hotkey: String,
}

/// The settings as text.
pub struct SettingsView {
    pub microphone: Seq<char>,
    pub engine: Seq<char>,
    pub whisper_model: Seq<char>,
    pub groq_api_key: Seq<char>,
    pub openrouter_api_key: Seq<char>,
    pub openrouter_model: Seq<char>,
    pub recording_mode: Seq<char>,
    pub keyboard_hotkey: Seq<char>,
    pub mouse_hotkey: Seq<char>,
    pub hotkey: Seq<char>,
}

impl View for Settings {
    type V = SettingsView;

    open spec fn view(&self) -> SettingsView {
        SettingsView {
            microphone: self.microphone@,
            engine: self.engine@,
            whisper_model: self.whisper_model@,
            groq_api_key: self.groq_api_key@,
            openrouter_api_key: self.openrouter_api_key@,
            openrouter_model: self.openrouter_model@,
            recording_mode: self.recording_mode@,
            keyboard_hotkey: self.keyboard_hotkey@,
            mouse_hotkey: self.mouse_hotkey@,
            hotkey: self.hotkey@,
        }
    }
}

/// The settings of a fresh installation.
pub open spec fn default_settings() -> SettingsView {
    SettingsView {
        microphone: "default"@,
        engine: "local"@,
        whisper_model: "small"@,
        groq_api_key: Seq::empty(),
        openrouter_api_key: Seq::empty(),
        openrouter_model: DEFAULT_OPENROUTER_MODEL@,
        recording_mode: "toggle"@,
        keyboard_hotkey: DEFAULT_KEYBOARD_HOTKEY@,
        mouse_hotkey: Seq::empty(),
        hotkey: Seq::empty(),
    }
}

/// The transcription engines the application knows.
pub open spec fn is_known_engine(e: Seq<char>) -> bool {
    e == "local"@ || e == "groq"@ || e == "openrouter"@
}

/// The engine after migration: "cloud" was renamed "groq", and anything
/// unknown falls back to "local".
pub open spec fn normalized_engine(e: Seq<char>) -> Seq<char> {
    let e1 = if e == "cloud"@ {
        "groq"@
    } else {
        e
    };
    if is_known_engine(e1) {
        e1
    } else {
        "local"@
    }
}

/// The OpenRouter model after migration: a blank or retired model becomes
/// the default one.
pub open spec fn normalized_model(m: Seq<char>) -> Seq<char> {
    if trimmed(m).len() == 0 || m == LEGACY_OPENROUTER_MODEL@ {
        DEFAULT_OPENROUTER_MODEL@
    } else {
        m
    }
}

/// The settings after normalisation, where `to_mouse` tells whether the
/// legacy single hotkey names a mouse button. That hotkey, when present,
/// wins over both slots: it goes to the mouse slot if `to_mouse`, else to
/// the keyboard slot, and the other slot is emptied.
pub open spec fn normalized_view_with(s: SettingsView, to_mouse: bool) -> SettingsView {
    let migrate = s.hotkey.len() != 0;
    SettingsView {
        engine: normalized_engine(s.engine),
        openrouter_model: normalized_model(s.openrouter_model),
        keyboard_hotkey: if !migrate {
            s.keyboard_hotkey
        } else if to_mouse {
            Seq::empty()
        } else {
            s.hotkey
        },
        mouse_hotkey: if !migrate {
            s.mouse_hotkey
        } else if to_mouse {
            s.hotkey
        } else {
            Seq::empty()
        },
        hotkey: Seq::empty(),
        ..s
    }
}

/// The settings after normalisation: the legacy single hotkey goes to the
/// mouse slot if it names a mouse button, else to the keyboard slot.
pub open spec fn normalized_view(s: SettingsView) -> SettingsView {
    normalized_view_with(s, names_mouse_button(s.hotkey))
}

impl Clone for Settings {
    fn clone(&self) -> (r: Self)
        ensures
            r == *self,
    {
        Settings {
            microphone: self.microphone.clone(),
            engine: self.engine.clone(),
            whisper_model: self.whisper_model.clone(),
            groq_api_key: self.groq_api_key.clone(),
            openrouter_api_key: self.openrouter_api_key.clone(),
            openrouter_model: self.openrouter_model.clone(),
            recording_mode: self.recording_mode.clone(),
            keyboard_hotkey: self.keyboard_hotkey.clone(),
            mouse_hotkey: self.mouse_hotkey.clone(),
            hotkey: self.hotkey.clone(),
        }
    }
}

impl Default for Settings {
    fn default() -> (r: Self)
        ensures
            r@ == default_settings(),
    {
        broadcast use vstd::string::group_string_axioms;

        Settings {
            microphone: "default".to_string(),
            engine: "local".to_string(),
            whisper_model: "small".to_string(),
            groq_api_key: String::new(),
            openrouter_api_key: String::new(),
            openrouter_model: DEFAULT_OPENROUTER_MODEL.to_string(),
            recording_mode: "toggle".to_string(),
            keyboard_hotkey: DEFAULT_KEYBOARD_HOTKEY.to_string(),
            mouse_hotkey: String::new(),
            hotkey: String::new(),
        }
    }
}

impl Settings {
    /// Migrates loaded settings: old engine names, blank or retired OpenRouter
    /// models, and the legacy single hotkey field, which goes to the mouse
    /// slot when `legacy_is_mouse` says that it names a mouse button.
    pub fn normalized_with(self, legacy_is_mouse: bool) -> (r: Self)
        ensures
            r@ == normalized_view_with(self@, legacy_is_mouse),
    {
        broadcast use vstd::string::group_string_axioms;

        let mut s = self;
        if str_is(s.engine.as_str(), "cloud") {
            s.engine = "groq".to_string();
        }
        if !str_is(s.engine.as_str(), "local") && !str_is(s.engine.as_str(), "groq") && !str_is(
            s.engine.as_str(),
            "openrouter",
        ) {
            s.engine = "local".to_string();
        }
        if is_blank(s.openrouter_model.as_str()) || str_is(
            s.openrouter_model.as_str(),
            LEGACY_OPENROUTER_MODEL,
        ) {
            s.openrouter_model = DEFAULT_OPENROUTER_MODEL.to_string();
        }
        if !is_empty_str(s.hotkey.as_str()) {
            let legacy = s.hotkey.clone();
            s.hotkey = String::new();
            s.keyboard_hotkey = String::new();
            s.mouse_hotkey = String::new();
            if legacy_is_mouse {
                s.mouse_hotkey = legacy;
            } else {
                s.keyboard_hotkey = legacy;
            }
        }
        assert(s.keyboard_hotkey@ == normalized_view_with(self@, legacy_is_mouse).keyboard_hotkey);
        assert(s.mouse_hotkey@ == normalized_view_with(self@, legacy_is_mouse).mouse_hotkey);
        assert(s.hotkey@ == normalized_view_with(self@, legacy_is_mouse).hotkey);
        assert(s.microphone@ == normalized_view_with(self@, legacy_is_mouse).microphone);
        s
    }

    /// Migrates loaded settings: old engine names, blank or retired OpenRouter
    /// models, and the legacy single hotkey field.
    pub fn normalized(self) -> (r: Self)
        ensures
            r@ == normalized_view(self@),
    {
        let legacy_is_mouse = if is_empty_str(self.hotkey.as_str()) {
            false
        } else {
            is_mouse_hotkey(self.hotkey.as_str())
        };
        proof {
            if self@.hotkey.len() == 0 {
                assert(normalized_view_with(self@, legacy_is_mouse) == normalized_view(self@));
            }
        }
        self.normalized_with(legacy_is_mouse)
    }
}


/// Settings in the form that normalisation produces: a known engine, a
/// usable OpenRouter model and no legacy hotkey left.
pub open spec fn is_normal(s: SettingsView) -> bool {
    &&& is_known_engine(s.engine)
    &&& trimmed(s.openrouter_model).len() != 0
    &&& s.openrouter_model != LEGACY_OPENROUTER_MODEL@
    &&& s.hotkey.len() == 0
}

/// A text that neither starts nor ends with whitespace is its own trim.
proof fn lemma_trimmed_unchanged(s: Seq<char>)
    requires
        s.len() > 0,
        !is_white_space(s[0]),
        !is_white_space(s.last()),
    ensures
        trimmed(s) == s,
{
    assert(trim_start(s) == s);
    assert(trim_end(s) == s);
}

/// The default OpenRouter model is usable and is not the retired one.
proof fn lemma_default_model_usable()
    ensures
        trimmed(DEFAULT_OPENROUTER_MODEL@).len() != 0,
        DEFAULT_OPENROUTER_MODEL@ != LEGACY_OPENROUTER_MODEL@,
        normalized_model(DEFAULT_OPENROUTER_MODEL@) == DEFAULT_OPENROUTER_MODEL@,
{
    reveal_strlit("google/gemini-3.1-flash-lite-preview");
    reveal_strlit("openai/gpt-audio-mini");
    let d = DEFAULT_OPENROUTER_MODEL@;
    assert(d[0] == 'g');
    assert(d.last() == 'w');
    lemma_trimmed_unchanged(d);
}

/// The engine names that normalisation compares with are all different.
proof fn lemma_engine_names_differ()
    ensures
        "local"@ != "cloud"@,
        "groq"@ != "cloud"@,
        "openrouter"@ != "cloud"@,
{
    reveal_strlit("local");
    reveal_strlit("groq");
    reveal_strlit("openrouter");
    reveal_strlit("cloud");
    assert("local"@[0] != "cloud"@[0]);
}

/// Whatever was loaded, normalised settings have a known engine, a usable
/// OpenRouter model and no legacy hotkey.
pub proof fn law_normalized_is_normal(s: SettingsView)
    ensures
        is_normal(normalized_view(s)),
{
    lemma_default_model_usable();
    lemma_engine_names_differ();
}

/// Normalising twice changes nothing more than normalising once.
pub proof fn law_normalized_idempotent(s: SettingsView)
    ensures
        normalized_view(normalized_view(s)) == normalized_view(s),
{
    lemma_default_model_usable();
    lemma_engine_names_differ();
    let n = normalized_view(s);
    assert(normalized_engine(n.engine) == n.engine);
    assert(normalized_model(n.openrouter_model) == n.openrouter_model);
}

/// The settings of a fresh installation are already normal, and
/// normalisation leaves them as they are.
pub proof fn law_default_is_normal()
    ensures
        is_normal(default_settings()),
        normalized_view(default_settings()) == default_settings(),
{
    lemma_default_model_usable();
    lemma_engine_names_differ();
    let d = default_settings();
    assert(normalized_engine(d.engine) == d.engine);
}

/// Normalisation touches only the engine, the OpenRouter model and the
/// hotkey fields: the microphone, the Whisper model, both API keys and the
/// recording mode are kept as they were loaded, whichever slot the legacy
/// hotkey goes to.
pub proof fn law_normalized_keeps_other_fields(s: SettingsView, to_mouse: bool)
    ensures
        normalized_view_with(s, to_mouse).microphone == s.microphone,
        normalized_view_with(s, to_mouse).whisper_model == s.whisper_model,
        normalized_view_with(s, to_mouse).groq_api_key == s.groq_api_key,
        normalized_view_with(s, to_mouse).openrouter_api_key == s.openrouter_api_key,
        normalized_view_with(s, to_mouse).recording_mode == s.recording_mode,
        normalized_view(s).microphone == s.microphone,
        normalized_view(s).whisper_model == s.whisper_model,
        normalized_view(s).groq_api_key == s.groq_api_key,
        normalized_view(s).openrouter_api_key == s.openrouter_api_key,
        normalized_view(s).recording_mode == s.recording_mode,
{
}

/// Without a legacy hotkey both slots are kept as they were loaded; with
/// one, it lands unchanged in exactly one slot, the mouse slot when it names
/// a mouse button and the keyboard slot otherwise, and the other slot is
/// emptied.
pub proof fn law_legacy_hotkey_lands_in_one_slot(s: SettingsView)
    ensures
        s.hotkey.len() == 0 ==> normalized_view(s).keyboard_hotkey == s.keyboard_hotkey
            && normalized_view(s).mouse_hotkey == s.mouse_hotkey,
        s.hotkey.len() != 0 && names_mouse_button(s.hotkey) ==> normalized_view(s).mouse_hotkey
            == s.hotkey && normalized_view(s).keyboard_hotkey.len() == 0,
        s.hotkey.len() != 0 && !names_mouse_button(s.hotkey) ==> normalized_view(s).keyboard_hotkey
            == s.hotkey && normalized_view(s).mouse_hotkey.len() == 0,
        normalized_view(s).hotkey.len() == 0,
{
}

/// The engine after loading: "local", "groq" and "openrouter" are kept,
/// the old name "cloud" becomes "groq", and every other name becomes
/// "local". The OpenRouter model is kept unless it is blank or the retired
/// one, which both become the default model.
pub proof fn law_engine_and_model_migration(s: SettingsView)
    ensures
        (s.engine == "local"@ || s.engine == "groq"@ || s.engine == "openrouter"@)
            ==> normalized_view(s).engine == s.engine,
        s.engine == "cloud"@ ==> normalized_view(s).engine == "groq"@,
        !(s.engine == "local"@ || s.engine == "groq"@ || s.engine == "openrouter"@ || s.engine
            == "cloud"@) ==> normalized_view(s).engine == "local"@,
        (trimmed(s.openrouter_model).len() != 0 && s.openrouter_model != LEGACY_OPENROUTER_MODEL@)
            ==> normalized_view(s).openrouter_model == s.openrouter_model,
        (trimmed(s.openrouter_model).len() == 0 || s.openrouter_model == LEGACY_OPENROUTER_MODEL@)
            ==> normalized_view(s).openrouter_model == DEFAULT_OPENROUTER_MODEL@,
{
    lemma_engine_names_differ();
}

} // verus!
