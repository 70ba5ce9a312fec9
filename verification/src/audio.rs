//! Microphone choice and the messages about capture problems. Opening
//! devices, reading samples and writing the WAV file stand outside; the
//! decisions between those steps stand here.
use vstd::prelude::*;

use crate::text::{
    chars_of, contains_chars, has_infix, join3, lowercase, lowercase_chars, str_is,
};

verus! {

/// An input device as the settings page lists it.
#[derive(Debug)]
pub struct MicDevice {
    pub name: String,
    pub is_default: bool,
}

impl Clone for MicDevice {
    fn clone(&self) -> (r: Self)
        ensures
            r == *self,
    {
        MicDevice { name: self.name.clone(), is_default: self.is_default }
    }
}

/// The words that mark a Bluetooth headset in a device name (lowercased).
pub open spec fn looks_like_headset(lowered: Seq<char>) -> bool {
    ||| has_infix(lowered, "airpods"@)
    ||| has_infix(lowered, "headset"@)
    ||| has_infix(lowered, "hands-free"@)
    ||| has_infix(lowered, "buds"@)
    ||| has_infix(lowered, "bluetooth"@)
}

/// The advice appended to capture errors for Bluetooth headsets.
pub const BLUETOOTH_HINT: &'static str =
    " Bluetooth headsets take a moment to switch their microphone on — wait for the indicator to turn red before speaking.";

/// Extra guidance for a device that looks like a Bluetooth headset, whose
/// microphone only becomes live a moment after the stream opens; empty for
/// any other device.
pub open spec fn bluetooth_hint_of(device_name: Seq<char>) -> Seq<char> {
    if looks_like_headset(lowercase(device_name)) {
        BLUETOOTH_HINT@
    } else {
        ""@
    }
}

/// The guidance for a device whose lowercased name is `lowered`.
pub fn bluetooth_hint_for_lowered(lowered: &Vec<char>) -> (r: &'static str)
    ensures
        r@ == (if looks_like_headset(lowered@) {
            BLUETOOTH_HINT@
        } else {
            ""@
        }),
{
    proof {
        reveal_strlit("");
    }
    if contains_chars(lowered, "airpods") || contains_chars(lowered, "headset") || contains_chars(
        lowered,
        "hands-free",
    ) || contains_chars(lowered, "buds") || contains_chars(lowered, "bluetooth") {
        BLUETOOTH_HINT
    } else {
        ""
    }
}

/// Extra guidance for a device that looks like a Bluetooth headset.
pub fn bluetooth_hint(device_name: &str) -> (r: &'static str)
    ensures
        r@ == bluetooth_hint_of(device_name@),
{
    let n = lowercase_chars(&chars_of(device_name));
    bluetooth_hint_for_lowered(&n)
}

/// The devices of the settings page: each name, marked when it is the
/// default input device.
pub fn microphones_from_names(names: Vec<String>, default_name: &str) -> (r: Vec<MicDevice>)
    ensures
        r@.len() == names@.len(),
        forall|i: int|
            0 <= i < r@.len() ==> #[trigger] r@[i].name == names@[i] && r@[i].is_default == (
            names@[i]@ == default_name@),
{
    let mut r: Vec<MicDevice> = Vec::new();
    let n = names.len();
    let mut rest = names;
    let ghost all = rest@;
    let mut k: usize = 0;
    while k < n
        invariant
            k <= n,
            n == all.len(),
            rest@ == all.skip(k as int),
            r@.len() == k,
            forall|i: int|
                0 <= i < k ==> #[trigger] r@[i].name == all[i] && r@[i].is_default == (all[i]@
                    == default_name@),
        decreases n - k,
    {
        assert(rest@.len() > 0);
        let name = rest.remove(0);
        assert(name == all[k as int]);
        assert(rest@ =~= all.skip(k + 1));
        let is_default = str_is(name.as_str(), default_name);
        let ghost old_r = r@;
        r.push(MicDevice { name, is_default });
        assert forall|i: int| 0 <= i < k + 1 implies #[trigger] r@[i].name == all[i] && r@[i].is_default
            == (all[i]@ == default_name@) by {
            if i < k {
                assert(r@[i] == old_r[i]);
            }
        }
        k += 1;
    }
    r
}

/// Which input device a recording uses.
#[derive(Debug, Clone, Copy, PartialEq, Eq, Structural)]
pub enum DeviceChoice {
    /// The system's default input device.
    SystemDefault,
    /// The device at this position in the device list.
    Listed(usize),
    /// No listed device has the configured name.
    NotFound,
}

/// The device for the configured microphone name: "default" is the system
/// default, any other name the first listed device of that name (devices
/// whose name cannot be read never match).
pub open spec fn device_choice_of(mic_name: Seq<char>, names: Seq<Option<Seq<char>>>) -> DeviceChoice {
    if mic_name == "default"@ {
        DeviceChoice::SystemDefault
    } else if exists|i: int| 0 <= i < names.len() && names[i] == Some(mic_name) {
        DeviceChoice::Listed(
            (choose|i: int|
                0 <= i < names.len() && names[i] == Some(mic_name) && forall|j: int|
                    0 <= j < i ==> names[j] != Some(mic_name)) as usize,
        )
    } else {
        DeviceChoice::NotFound
    }
}

/// The first listed device with the configured name is the one chosen.
proof fn lemma_first_match(mic_name: Seq<char>, names: Seq<Option<Seq<char>>>, i: int)
    requires
        mic_name != "default"@,
        0 <= i < names.len(),
        i <= usize::MAX,
        names[i] == Some(mic_name),
        forall|j: int| 0 <= j < i ==> names[j] != Some(mic_name),
    ensures
        device_choice_of(mic_name, names) == DeviceChoice::Listed(i as usize),
{
    let c = choose|c: int|
        0 <= c < names.len() && names[c] == Some(mic_name) && forall|j: int|
            0 <= j < c ==> names[j] != Some(mic_name);
    assert(c == i) by {
        if c < i {
            assert(names[c] != Some(mic_name));
        } else if c > i {
            assert(names[i] != Some(mic_name));
        }
    }
}

/// The names of the listed devices as text.
pub open spec fn name_views(names: Seq<Option<String>>) -> Seq<Option<Seq<char>>> {
    Seq::new(
        names.len(),
        |i: int|
            match names[i] {
                Some(s) => Some(s@),
                None => None,
            },
    )
}

/// The device for the configured microphone name.
pub fn choose_device(mic_name: &str, names: &Vec<Option<String>>) -> (r: DeviceChoice)
    ensures
        r == device_choice_of(mic_name@, name_views(names@)),
{
    if str_is(mic_name, "default") {
        return DeviceChoice::SystemDefault;
    }
    let ghost nv = name_views(names@);
    let mut i: usize = 0;
    while i < names.len()
        invariant
            i <= names.len(),
            nv == name_views(names@),
            mic_name@ != "default"@,
            forall|j: int| 0 <= j < i ==> nv[j] != Some(mic_name@),
        decreases names.len() - i,
    {
        let matches = match &names[i] {
            Some(n) => str_is(n.as_str(), mic_name),
            None => false,
        };
        if matches {
            assert(nv[i as int] == Some(mic_name@));
            proof {
                lemma_first_match(mic_name@, nv, i as int);
            }
            return DeviceChoice::Listed(i);
        }
        i += 1;
    }
    DeviceChoice::NotFound
}

/// The error when the system has no default input device.
pub const NO_DEFAULT_DEVICE: &'static str = "No default input device found";

/// The error when no device has the configured name.
pub fn microphone_not_found_message(mic_name: &str) -> (r: String)
    ensures
        r@ == "Microphone '"@ + mic_name@ + "' not found"@,
{
    join3("Microphone '", mic_name, "' not found")
}

/// How long to wait for the first samples before recording anyway, in nanoseconds.
pub const LIVE_WAIT_NANOS: u64 = 2_500_000_000;

/// What to do while waiting for a freshly opened microphone to deliver audio.
#[derive(Debug)]
pub enum WaitStep {
    /// Samples arrived: the microphone is live.
    Live,
    /// The stream reported an error: recording fails with this message.
    Failed(String),
    /// Nothing arrived in time: record anyway.
    GiveUp,
    /// Look again shortly.
    KeepWaiting,
}

/// The message for a stream that failed while starting.
pub open spec fn start_failed_message_of(device_name: Seq<char>, error: Seq<char>) -> Seq<char> {
    "Microphone '"@ + device_name + "' failed to start: "@ + error + "."@ + bluetooth_hint_of(
        device_name,
    )
}

/// One look at a freshly opened microphone, `elapsed` nanoseconds after it
/// was opened: live as soon as samples arrived, failed when the stream
/// reported an error, given up on after 2.5 seconds, else waited for.
pub fn mic_wait_step(
    device_name: &str,
    has_samples: bool,
    stream_error: Option<&str>,
    elapsed: u64,
) -> (r: WaitStep)
    ensures
        has_samples ==> r is Live,
        !has_samples && stream_error is Some ==> (r matches WaitStep::Failed(m) && m@
            == start_failed_message_of(device_name@, stream_error->0@)),
        !has_samples && stream_error is None && elapsed > LIVE_WAIT_NANOS ==> r is GiveUp,
        !has_samples && stream_error is None && elapsed <= LIVE_WAIT_NANOS ==> r is KeepWaiting,
{
    if has_samples {
        return WaitStep::Live;
    }
    if let Some(err) = stream_error {
        let mut m = join3("Microphone '", device_name, "' failed to start: ");
        m.append(err);
        m.append(".");
        m.append(bluetooth_hint(device_name));
        return WaitStep::Failed(m);
    }
    if elapsed > LIVE_WAIT_NANOS {
        return WaitStep::GiveUp;
    }
    WaitStep::KeepWaiting
}

/// The message when a stopped recording holds no samples: the stream error
/// when there was one, else advice on holding the hotkey and checking the
/// microphone.
pub open spec fn no_audio_message_of(device_name: Seq<char>, stream_error: Option<Seq<char>>) -> Seq<
    char,
> {
    match stream_error {
        Some(e) => "Microphone '"@ + device_name + "' stream error: "@ + e + "."@
            + bluetooth_hint_of(device_name),
        None => "No audio captured from '"@ + device_name + "'."@ + bluetooth_hint_of(device_name)
            + " Hold the hotkey while speaking and verify the microphone works in Windows sound settings."@,
    }
}

/// The message when a stopped recording holds no samples.
pub fn no_audio_message(device_name: &str, stream_error: Option<&str>) -> (r: String)
    ensures
        r@ == no_audio_message_of(
            device_name@,
            match stream_error {
                Some(e) => Some(e@),
                None => None,
            },
        ),
{
    match stream_error {
        Some(err) => {
            let mut m = join3("Microphone '", device_name, "' stream error: ");
            m.append(err);
            m.append(".");
            m.append(bluetooth_hint(device_name));
            m
        },
        None => {
            let mut m = join3("No audio captured from '", device_name, "'.");
            m.append(bluetooth_hint(device_name));
            m.append(
                " Hold the hotkey while speaking and verify the microphone works in Windows sound settings.",
            );
            m
        },
    }
}

/// Some listed device carries the name `m` at or before position `k` for
/// the first time.
proof fn lemma_first_match_exists(names: Seq<Option<Seq<char>>>, m: Seq<char>, k: int)
    requires
        0 <= k < names.len(),
        names[k] == Some(m),
    ensures
        exists|i: int|
            0 <= i < names.len() && names[i] == Some(m) && forall|j: int|
                0 <= j < i ==> names[j] != Some(m),
    decreases k,
{
    if exists|j: int| 0 <= j < k && names[j] == Some(m) {
        let j = choose|j: int| 0 <= j < k && names[j] == Some(m);
        lemma_first_match_exists(names, m, j);
    } else {
        assert(forall|j: int| 0 <= j < k ==> names[j] != Some(m));
    }
}

/// The configured name "default" picks the system's default input device.
/// Any other name picks a listed device of exactly that name, the first one
/// when several share it, and is reported as not found exactly when no
/// listed device has that name.
pub proof fn law_device_choice(mic_name: Seq<char>, names: Seq<Option<Seq<char>>>)
    requires
        names.len() <= usize::MAX,
    ensures
        mic_name == "default"@ ==> device_choice_of(mic_name, names) == DeviceChoice::SystemDefault,
        device_choice_of(mic_name, names) matches DeviceChoice::Listed(i) ==> {
            &&& i < names.len()
            &&& names[i as int] == Some(mic_name)
            &&& forall|j: int| 0 <= j < i ==> names[j] != Some(mic_name)
        },
        mic_name != "default"@ ==> (device_choice_of(mic_name, names) is NotFound <==> forall|i: int|
            0 <= i < names.len() ==> names[i] != Some(mic_name)),
{
    if mic_name != "default"@ {
        if exists|k: int| 0 <= k < names.len() && names[k] == Some(mic_name) {
            let k = choose|k: int| 0 <= k < names.len() && names[k] == Some(mic_name);
            lemma_first_match_exists(names, mic_name, k);
        }
    }
}

} // verus!
