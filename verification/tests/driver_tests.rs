use yt_fetch::driver::{
    build_fetch_args, build_metadata_args, interpret_exit, spawn_failure, tool_missing_guidance,
    DriverError,
};

#[test]
fn metadata_args_are_exact() {
    let args = build_metadata_args(&"https://host/watch?v=a".to_string());
    assert_eq!(args, vec!["--dump-json", "--no-warnings", "https://host/watch?v=a"]);
}

#[test]
fn video_fetch_args_are_exact() {
    let args = build_fetch_args(
        &"22".to_string(),
        &"/tmp/out/T.mp4".to_string(),
        &"https://host/watch?v=a".to_string(),
        false,
        true,
    );
    assert_eq!(
        args,
        vec![
            "-f",
            "22",
            "--no-playlist",
            "--remux-video",
            "mp4",
            "--progress",
            "--newline",
            "--no-colors",
            "--progress-template",
            "[download] %(progress._percent_str)s",
            "-o",
            "/tmp/out/T.mp4",
            "https://host/watch?v=a",
        ]
    );
}

#[test]
fn audio_fetch_args_without_progress_are_exact() {
    let args = build_fetch_args(
        &"140".to_string(),
        &"/tmp/out/T.mp3".to_string(),
        &"u".to_string(),
        true,
        false,
    );
    assert_eq!(
        args,
        vec![
            "-f",
            "140",
            "--no-playlist",
            "-x",
            "--audio-format",
            "mp3",
            "--audio-quality",
            "0",
            "-o",
            "/tmp/out/T.mp3",
            "u",
        ]
    );
}

#[test]
fn successful_exit_passes_through() {
    assert!(interpret_exit(true, String::new(), String::new()).is_ok());
}

#[test]
fn failed_exit_carries_stderr() {
    match interpret_exit(false, "boom".to_string(), "out".to_string()) {
        Err(DriverError::TransferFailed(m)) => assert_eq!(m, "boom"),
        _ => panic!("expected a transfer failure with stderr text"),
    }
}

#[test]
fn failed_exit_falls_back_to_stdout() {
    match interpret_exit(false, String::new(), "out".to_string()) {
        Err(DriverError::TransferFailed(m)) => assert_eq!(m, "out"),
        _ => panic!("expected a transfer failure with stdout text"),
    }
}

#[test]
fn missing_executable_is_tool_missing() {
    match spawn_failure(true, "ignored".to_string()) {
        DriverError::ToolMissing => {}
        _ => panic!("a missing executable is the tool-missing condition"),
    }
    match spawn_failure(false, "spawn refused".to_string()) {
        DriverError::TransferFailed(m) => assert_eq!(m, "spawn refused"),
        _ => panic!("other spawn failures carry the detail"),
    }
}

#[test]
fn guidance_names_the_tool() {
    assert!(tool_missing_guidance().contains("yt-dlp is not installed"));
}
