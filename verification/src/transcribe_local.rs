//! Local transcription with whisper.cpp: model file names and sizes, the
//! command line of the whisper.cpp sidecar, and what its exit status and
//! output mean. Running the sidecar stands outside this module.
use vstd::prelude::*;

use crate::text::{
    contains_str, has_infix, i32_text, int_text, join2, join3, nat_text, str_is, trim_str, trimmed,
    u64_text,
};

verus! {

/// The message when no model file is present.
pub const MODEL_NOT_FOUND: &'static str = "Whisper model not found. Please download a model first.";

/// What whisper.cpp writes to stderr when the model file cannot be loaded.
pub const CONTEXT_FAILURE: &'static str = "failed to initialize whisper context";

/// The file name of the model of the given size.
pub open spec fn model_filename_of(model_size: Seq<char>) -> Seq<char> {
    "ggml-"@ + model_size + ".bin"@
}

/// Where the model of the given size is downloaded from.
pub open spec fn model_download_url_of(model_size: Seq<char>) -> Seq<char> {
    "https://huggingface.co/ggerganov/whisper.cpp/resolve/main/ggml-"@ + model_size + ".bin"@
}

/// The smallest size in bytes of a complete model file: 300 MiB for "small",
/// 1000 MiB for "medium", 1 byte for any other size.
pub open spec fn model_min_bytes_of(model_size: Seq<char>) -> u64 {
    if model_size == "small"@ {
        314572800
    } else if model_size == "medium"@ {
        1048576000
    } else {
        1
    }
}

/// The message for a model file shorter than its size needs.
pub open spec fn incomplete_model_message(model_size: Seq<char>) -> Seq<char> {
    "The local '"@ + model_size + "' Whisper model is incomplete. Please download it again."@
}

/// The message for a model file that whisper.cpp could not load.
pub open spec fn corrupted_model_message(model_size: Seq<char>) -> Seq<char> {
    "The local '"@ + model_size
        + "' Whisper model looks incomplete or corrupted. Please re-download it from the app and try again."@
}

/// The file name of the model of the given size, e.g. "ggml-small.bin".
pub fn model_filename(model_size: &str) -> (r: String)
    ensures
        r@ == model_filename_of(model_size@),
{
    join3("ggml-", model_size, ".bin")
}

/// The download address of the model of the given size.
pub fn model_download_url(model_size: &str) -> (r: String)
    ensures
        r@ == model_download_url_of(model_size@),
{
    join3(
        "https://huggingface.co/ggerganov/whisper.cpp/resolve/main/ggml-",
        model_size,
        ".bin",
    )
}

/// The smallest size in bytes of a complete model file of the given size.
pub fn model_min_bytes(model_size: &str) -> (r: u64)
    ensures
        r == model_min_bytes_of(model_size@),
{
    if str_is(model_size, "small") {
        300 * 1024 * 1024
    } else if str_is(model_size, "medium") {
        1000 * 1024 * 1024
    } else {
        1
    }
}

/// Checks the length in bytes of a model file against the smallest
/// complete size; a shorter file is reported as incomplete.
pub fn check_model_size(model_size: &str, file_len: u64) -> (r: Result<(), String>)
    ensures
        r is Ok <==> file_len >= model_min_bytes_of(model_size@),
        r matches Err(e) ==> e@ == incomplete_model_message(model_size@),
{
    let min_bytes = model_min_bytes(model_size);
    if file_len < min_bytes {
        return Err(
            join3(
                "The local '",
                model_size,
                "' Whisper model is incomplete. Please download it again.",
            ),
        );
    }
    Ok(())
}

/// The number of threads given to whisper.cpp: what the machine offers,
/// between 1 and 8, or 4 when that is unknown.
pub open spec fn whisper_threads_of(available: Option<usize>) -> usize {
    match available {
        Some(n) => if n < 1 {
            1
        } else if n > 8 {
            8
        } else {
            n
        },
        None => 4,
    }
}

/// The number of threads given to whisper.cpp.
pub fn whisper_threads(available: Option<usize>) -> (r: usize)
    ensures
        r == whisper_threads_of(available),
        1 <= r <= 8,
{
    match available {
        Some(n) => if n < 1 {
            1
        } else if n > 8 {
            8
        } else {
            n
        },
        None => 4,
    }
}

/// The views of a list of strings.
pub open spec fn string_views(v: Seq<String>) -> Seq<Seq<char>> {
    Seq::new(v.len(), |i: int| v[i]@)
}

/// The arguments of the whisper.cpp command line.
pub open spec fn whisper_args_of(
    model_path: Seq<char>,
    audio_path: Seq<char>,
    threads: usize,
) -> Seq<Seq<char>> {
    seq![
        "-m"@,
        model_path,
        "-f"@,
        audio_path,
        "-t"@,
        nat_text(threads as nat),
        "--no-gpu"@,
        "--no-prints"@,
        "--no-timestamps"@,
        "-l"@,
        "en"@,
    ]
}

/// The arguments of the whisper.cpp command line: model, audio file,
/// thread count, CPU only, no progress output, no timestamps, English.
pub fn whisper_args(model_path: &str, audio_path: &str, threads: usize) -> (r: Vec<String>)
    ensures
        string_views(r@) == whisper_args_of(model_path@, audio_path@, threads),
{
    broadcast use vstd::string::group_string_axioms;

    let mut r: Vec<String> = Vec::new();
    r.push("-m".to_string());
    r.push(model_path.to_string());
    r.push("-f".to_string());
    r.push(audio_path.to_string());
    r.push("-t".to_string());
    r.push(u64_text(threads as u64));
    r.push("--no-gpu".to_string());
    r.push("--no-prints".to_string());
    r.push("--no-timestamps".to_string());
    r.push("-l".to_string());
    r.push("en".to_string());
    assert(string_views(r@) =~= whisper_args_of(model_path@, audio_path@, threads));
    r
}

/// The text of an exit status as `{:?}` prints an `Option<i32>`.
pub open spec fn status_debug_text(code: Option<i32>) -> Seq<char> {
    match code {
        Some(c) => "Some("@ + int_text(c as int) + ")"@,
        None => "None"@,
    }
}

/// What a run of whisper.cpp gives: the trimmed standard output when it
/// exits with status 0; otherwise an error, which points at a broken model
/// when whisper.cpp could not load it, and else quotes the status and both
/// outputs.
pub open spec fn whisper_outcome_of(
    model_size: Seq<char>,
    code: Option<i32>,
    stdout: Seq<char>,
    stderr: Seq<char>,
) -> Result<Seq<char>, Seq<char>> {
    if code == Some(0i32) {
        Ok(trimmed(stdout))
    } else if has_infix(stderr, CONTEXT_FAILURE@) {
        Err(corrupted_model_message(model_size))
    } else {
        Err(
            "whisper.cpp failed (status "@ + status_debug_text(code) + "). stdout: "@ + trimmed(
                stdout,
            ) + " stderr: "@ + trimmed(stderr),
        )
    }
}

/// The text of an exit status as `{:?}` prints an `Option<i32>`.
pub fn status_debug(code: Option<i32>) -> (r: String)
    ensures
        r@ == status_debug_text(code),
{
    broadcast use vstd::string::group_string_axioms;

    match code {
        Some(c) => {
            let t = i32_text(c);
            join3("Some(", t.as_str(), ")")
        },
        None => "None".to_string(),
    }
}

/// Interprets a finished run of whisper.cpp from its exit status and its
/// standard output and error (decoded lossily as UTF-8).
pub fn whisper_outcome(model_size: &str, code: Option<i32>, stdout: &str, stderr: &str) -> (r:
    Result<String, String>)
    ensures
        match (r, whisper_outcome_of(model_size@, code, stdout@, stderr@)) {
            (Ok(t), Ok(u)) => t@ == u,
            (Err(e), Err(f)) => e@ == f,
            _ => false,
        },
{
    broadcast use vstd::string::group_string_axioms;

    if code != Some(0i32) {
        if contains_str(stderr, CONTEXT_FAILURE) {
            return Err(
                join3(
                    "The local '",
                    model_size,
                    "' Whisper model looks incomplete or corrupted. Please re-download it from the app and try again.",
                ),
            );
        }
        let status = status_debug(code);
        let mut m = join3("whisper.cpp failed (status ", status.as_str(), "). stdout: ");
        m.append(trim_str(stdout));
        m.append(" stderr: ");
        m.append(trim_str(stderr));
        return Err(m);
    }
    Ok(trim_str(stdout).to_string())
}

/// The message when the whisper.cpp sidecar cannot be found; `detail` is
/// the error from the shell.
pub fn sidecar_missing_message(detail: &str) -> (r: String)
    ensures
        r@ == "Local whisper sidecar is missing in this checkout. Use the Cloud engine for now, or add the whisper-cpp sidecar binary under src-tauri/binaries. Original error: "@
            + detail@,
{
    join2(
        "Local whisper sidecar is missing in this checkout. Use the Cloud engine for now, or add the whisper-cpp sidecar binary under src-tauri/binaries. Original error: ",
        detail,
    )
}

/// The message when whisper.cpp could not be run; `detail` is the error from the shell.
pub fn run_failed_message(detail: &str) -> (r: String)
    ensures
        r@ == "Failed to run whisper.cpp: "@ + detail@,
{
    join2("Failed to run whisper.cpp: ", detail)
}

/// whisper.cpp gets as many threads as the machine offers, but at least one
/// and at most eight, and four when the machine does not tell.
pub proof fn law_whisper_threads(available: Option<usize>)
    ensures
        1 <= whisper_threads_of(available) <= 8,
        available matches Some(n) ==> (1 <= n <= 8 ==> whisper_threads_of(available) == n),
        available matches Some(n) ==> (n > 8 ==> whisper_threads_of(available) == 8),
        available is None ==> whisper_threads_of(available) == 4,
{
}

/// The command line names the model after "-m", the audio file after
/// "-f" and the thread count, in decimal, after "-t", and asks for English.
pub proof fn law_whisper_args_positions(model_path: Seq<char>, audio_path: Seq<char>, threads: usize)
    ensures
        ({
            let a = whisper_args_of(model_path, audio_path, threads);
            &&& a[0] == "-m"@ && a[1] == model_path
            &&& a[2] == "-f"@ && a[3] == audio_path
            &&& a[4] == "-t"@ && a[5] == nat_text(threads as nat)
            &&& a[9] == "-l"@ && a[10] == "en"@
        }),
{
}

/// A run of whisper.cpp succeeds exactly when it exits with status 0, and
/// then gives its standard output without surrounding whitespace; a failed
/// run whose error output says the model could not be loaded points at a
/// broken model of the configured size.
pub proof fn law_whisper_outcome(
    model_size: Seq<char>,
    code: Option<i32>,
    stdout: Seq<char>,
    stderr: Seq<char>,
)
    ensures
        whisper_outcome_of(model_size, code, stdout, stderr) is Ok <==> code == Some(0i32),
        code == Some(0i32) ==> whisper_outcome_of(model_size, code, stdout, stderr) == Ok::<
            Seq<char>,
            Seq<char>,
        >(trimmed(stdout)),
        code != Some(0i32) && has_infix(stderr, CONTEXT_FAILURE@) ==> whisper_outcome_of(
            model_size,
            code,
            stdout,
            stderr,
        ) == Err::<Seq<char>, Seq<char>>(corrupted_model_message(model_size)),
{
}

} // verus!
