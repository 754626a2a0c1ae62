//! Fetch driver planning: the argument list handed to the external fetch
//! tool, and the reading of its outcome. Spawning the tool and pumping its
//! output are I/O and live with the caller; every decision is made here.

use vstd::prelude::*;
use vstd::string::*;

verus! {

/// Why a transfer attempt failed below the orchestrator.
pub enum DriverError {
    /// The external fetch tool is not installed.
    ToolMissing,
    /// The output directory tree could not be created.
    DirectoryCreationFailed(String),
    /// The tool ran and failed; carries its diagnostic text.
    TransferFailed(String),
}

/// Installation guidance reported when the fetch tool is missing.
pub open spec fn sp_tool_missing_guidance() -> Seq<char> {
    "yt-dlp is not installed. Please install it first using your package manager:\nmacOS: brew install yt-dlp\nLinux: sudo apt install yt-dlp\nWindows: choco install yt-dlp"@
}

/// The guidance text as a value.
pub fn tool_missing_guidance() -> (r: String)
    ensures
        r@ == sp_tool_missing_guidance(),
{
    "yt-dlp is not installed. Please install it first using your package manager:\nmacOS: brew install yt-dlp\nLinux: sudo apt install yt-dlp\nWindows: choco install yt-dlp".to_owned()
}

/// The arguments of a metadata query: dump the document, no warnings, then
/// the URL.
pub open spec fn sp_metadata_args(url: Seq<char>) -> Seq<Seq<char>> {
    seq!["--dump-json"@, "--no-warnings"@, url]
}

/// Builds the argument list that asks the tool for the metadata document.
pub fn build_metadata_args(url: &String) -> (r: Vec<String>)
    ensures
        r.deep_view() == sp_metadata_args(url@),
{
    let mut args: Vec<String> = Vec::new();
    args.push("--dump-json".to_owned());
    args.push("--no-warnings".to_owned());
    args.push(url.clone());
    proof {
        assert(args.deep_view() =~~= sp_metadata_args(url@));
    }
    args
}

/// The arguments of one transfer: the selected format, the no-playlist
/// directive, the container directive for the chosen mode, the progress
/// feed configuration when a progress sink is attached, and the output
/// path and URL.
pub open spec fn sp_fetch_args(
    format_id: Seq<char>,
    output_path: Seq<char>,
    url: Seq<char>,
    audio_only: bool,
    with_progress: bool,
) -> Seq<Seq<char>> {
    seq!["-f"@, format_id, "--no-playlist"@]
        + (if audio_only {
            seq!["-x"@, "--audio-format"@, "mp3"@, "--audio-quality"@, "0"@]
        } else {
            seq!["--remux-video"@, "mp4"@]
        })
        + (if with_progress {
            seq![
                "--progress"@,
                "--newline"@,
                "--no-colors"@,
                "--progress-template"@,
                "[download] %(progress._percent_str)s"@,
            ]
        } else {
            Seq::empty()
        })
        + seq!["-o"@, output_path, url]
}

/// Builds the argument list of one transfer.
pub fn build_fetch_args(
    format_id: &String,
    output_path: &String,
    url: &String,
    audio_only: bool,
    with_progress: bool,
) -> (r: Vec<String>)
    ensures
        r.deep_view() == sp_fetch_args(format_id@, output_path@, url@, audio_only, with_progress),
{
    let mut args: Vec<String> = Vec::new();
    args.push("-f".to_owned());
    args.push(format_id.clone());
    args.push("--no-playlist".to_owned());
    if audio_only {
        args.push("-x".to_owned());
        args.push("--audio-format".to_owned());
        args.push("mp3".to_owned());
        args.push("--audio-quality".to_owned());
        args.push("0".to_owned());
    } else {
        args.push("--remux-video".to_owned());
        args.push("mp4".to_owned());
    }
    if with_progress {
        args.push("--progress".to_owned());
        args.push("--newline".to_owned());
        args.push("--no-colors".to_owned());
        args.push("--progress-template".to_owned());
        args.push("[download] %(progress._percent_str)s".to_owned());
    }
    args.push("-o".to_owned());
    args.push(output_path.clone());
    args.push(url.clone());
    proof {
        assert(args.deep_view()
            =~~= sp_fetch_args(format_id@, output_path@, url@, audio_only, with_progress));
    }
    args
}

/// Turns a spawn failure into the driver's error: a missing executable is
/// the fatal, non-retryable tool-missing condition; anything else is a
/// failed transfer carrying the caller's diagnostic text.
pub fn spawn_failure(executable_not_found: bool, detail: String) -> (r: DriverError)
    ensures
        executable_not_found ==> r == DriverError::ToolMissing,
        !executable_not_found ==> r == DriverError::TransferFailed(detail),
{
    if executable_not_found {
        DriverError::ToolMissing
    } else {
        DriverError::TransferFailed(detail)
    }
}

/// Reads the tool's exit: success passes through; a failed run carries the
/// captured standard-error text, or the standard-output text when
/// standard error was empty.
pub fn interpret_exit(success: bool, stderr_text: String, stdout_text: String) -> (r: Result<
    (),
    DriverError,
>)
    ensures
        success ==> r is Ok,
        !success && stderr_text@.len() > 0 ==> r == Result::<(), DriverError>::Err(
            DriverError::TransferFailed(stderr_text),
        ),
        !success && stderr_text@.len() == 0 ==> r == Result::<(), DriverError>::Err(
            DriverError::TransferFailed(stdout_text),
        ),
{
    if success {
        Ok(())
    } else if !stderr_text.as_str().is_empty() {
        Err(DriverError::TransferFailed(stderr_text))
    } else {
        Err(DriverError::TransferFailed(stdout_text))
    }
}

} // verus!
