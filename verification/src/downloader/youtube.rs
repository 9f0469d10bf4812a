//! The video downloader: how it is called and what its answers mean. The
//! process itself is run by the program around this library.

use crate::downloader::errors::DownloaderError;
use crate::downloader::url_parts::views_of;
use vstd::prelude::*;
use vstd::string::*;

verus! {

/// The name of the video downloader.
pub const YTDLP: &'static str = "yt-dlp";

/// The arguments that ask the downloader for its version, by which its
/// presence is checked.
pub fn version_args() -> (args: Vec<String>)
    ensures
        views_of(args@) == seq!["--version"@],
{
    let mut args: Vec<String> = Vec::new();
    args.push(String::from_str("--version"));
    assert(views_of(args@) =~= seq!["--version"@]);
    args
}

/// The arguments that download a video to `output_path`, as MP4 where there
/// is one.
pub fn download_args(url: &str, output_path: &str) -> (args: Vec<String>)
    ensures
        views_of(args@) == seq![url@, "-f"@, "best[ext=mp4]/best"@, "-o"@, output_path@],
{
    let mut args: Vec<String> = Vec::new();
    args.push(String::from_str(url));
    args.push(String::from_str("-f"));
    args.push(String::from_str("best[ext=mp4]/best"));
    args.push(String::from_str("-o"));
    args.push(String::from_str(output_path));
    assert(views_of(args@) =~= seq![url@, "-f"@, "best[ext=mp4]/best"@, "-o"@, output_path@]);
    args
}

/// The arguments that ask for what is known of a video, without
/// downloading it.
pub fn info_args(url: &str) -> (args: Vec<String>)
    ensures
        views_of(args@) == seq![url@, "--dump-json"@, "--no-download"@],
{
    let mut args: Vec<String> = Vec::new();
    args.push(String::from_str(url));
    args.push(String::from_str("--dump-json"));
    args.push(String::from_str("--no-download"));
    assert(views_of(args@) =~= seq![url@, "--dump-json"@, "--no-download"@]);
    args
}

/// The arguments that ask for the formats in which a video can be had.
pub fn formats_args(url: &str) -> (args: Vec<String>)
    ensures
        views_of(args@) == seq![url@, "--list-formats"@, "--dump-json"@],
{
    let mut args: Vec<String> = Vec::new();
    args.push(String::from_str(url));
    args.push(String::from_str("--list-formats"));
    args.push(String::from_str("--dump-json"));
    assert(views_of(args@) =~= seq![url@, "--list-formats"@, "--dump-json"@]);
    args
}

/// What the downloader was run for.
#[derive(Debug, Clone, Copy, PartialEq, Eq, Structural)]
pub enum Task {
    Download,
    Info,
    Formats,
}

/// How the failure of a task is reported, before the text of the
/// downloader's own complaint.
pub open spec fn failure_prefix(task: Task) -> Seq<char> {
    match task {
        Task::Download => "yt-dlp failed: "@,
        Task::Info => "Failed to get video info: "@,
        Task::Formats => "Failed to list formats: "@,
    }
}

/// Whether the downloader is there: the version check ran and succeeded.
/// `ran_successfully` is `None` where the downloader could not be run at
/// all.
pub fn check_ytdlp_installed(ran_successfully: Option<bool>) -> (result: Result<
    (),
    DownloaderError,
>)
    ensures
        ran_successfully == Some(true) ==> result is Ok,
        ran_successfully != Some(true) ==> (result matches Err(
            DownloaderError::DependencyMissing(m),
        ) && m@
            == "yt-dlp is not installed. Please install it from https://github.com/yt-dlp/yt-dlp"@),
{
    match ran_successfully {
        Some(true) => Ok(()),
        _ => Err(
            DownloaderError::DependencyMissing(
                String::from_str(
                    "yt-dlp is not installed. Please install it from https://github.com/yt-dlp/yt-dlp",
                ),
            ),
        ),
    }
}

/// Whether a run of the downloader did its task: it must have ended with
/// success. `stderr` is what it wrote to its error stream.
pub fn check_outcome(task: Task, success: bool, stderr: &str) -> (result: Result<
    (),
    DownloaderError,
>)
    ensures
        success ==> result is Ok,
        !success ==> (result matches Err(DownloaderError::Download(m)) && m@ == failure_prefix(task)
            + stderr@),
{
    if success {
        return Ok(());
    }
    let prefix = match task {
        Task::Download => String::from_str("yt-dlp failed: "),
        Task::Info => String::from_str("Failed to get video info: "),
        Task::Formats => String::from_str("Failed to list formats: "),
    };
    Err(DownloaderError::Download(prefix.concat(stderr)))
}

/// The failure to run the downloader at all; `cause` is the text of the
/// error.
pub fn process_error(cause: &str) -> (error: DownloaderError)
    ensures
        error matches DownloaderError::Process(m) && m@ == "Failed to execute yt-dlp: "@ + cause@,
{
    DownloaderError::Process(String::from_str("Failed to execute yt-dlp: ").concat(cause))
}

} // verus!
