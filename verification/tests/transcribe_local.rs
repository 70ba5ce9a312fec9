use typr::transcribe_local::{
    check_model_size, model_download_url, model_filename, model_min_bytes, whisper_args,
    whisper_outcome, whisper_threads,
};

#[test]
fn test_model_filename() {
    assert_eq!(model_filename("small"), "ggml-small.bin");
    assert_eq!(model_filename("medium"), "ggml-medium.bin");
}

#[test]
fn test_model_download_url() {
    assert_eq!(
        model_download_url("small"),
        "https://huggingface.co/ggerganov/whisper.cpp/resolve/main/ggml-small.bin"
    );
}

#[test]
fn test_model_min_bytes() {
    assert!(model_min_bytes("small") > 300_000_000);
    assert!(model_min_bytes("medium") > 1_000_000_000);
}

#[test]
fn model_sizes_exactly() {
    assert_eq!(model_min_bytes("small"), 300 * 1024 * 1024);
    assert_eq!(model_min_bytes("medium"), 1000 * 1024 * 1024);
    assert_eq!(model_min_bytes("tiny"), 1);
    assert!(check_model_size("small", 300 * 1024 * 1024).is_ok());
    assert_eq!(
        check_model_size("small", 1234).unwrap_err(),
        "The local 'small' Whisper model is incomplete. Please download it again."
    );
    assert!(check_model_size("base", 0).is_err());
    assert!(check_model_size("base", 1).is_ok());
}

#[test]
fn whisper_command_line() {
    assert_eq!(whisper_threads(Some(16)), 8);
    assert_eq!(whisper_threads(Some(3)), 3);
    assert_eq!(whisper_threads(None), 4);
    let args = whisper_args("/m/ggml-small.bin", "/tmp/a.wav", 6);
    assert_eq!(
        args,
        vec![
            "-m", "/m/ggml-small.bin", "-f", "/tmp/a.wav", "-t", "6", "--no-gpu", "--no-prints",
            "--no-timestamps", "-l", "en"
        ]
    );
}

#[test]
fn whisper_outcomes() {
    assert_eq!(whisper_outcome("small", Some(0), "  hello there \n", "").unwrap(), "hello there");
    assert_eq!(
        whisper_outcome("small", Some(3), "", "error: failed to initialize whisper context\n")
            .unwrap_err(),
        "The local 'small' Whisper model looks incomplete or corrupted. Please re-download it from the app and try again."
    );
    assert_eq!(
        whisper_outcome("small", Some(-2), " out ", " err ").unwrap_err(),
        "whisper.cpp failed (status Some(-2)). stdout: out stderr: err"
    );
    assert_eq!(
        whisper_outcome("small", None, "", "").unwrap_err(),
        "whisper.cpp failed (status None). stdout:  stderr: "
    );
}
