//! Download orchestrator: drives one attempt from an input URL to a
//! terminal outcome. Every transition is a verified step on plain values;
//! the caller performs the I/O between steps (fetching the metadata
//! document, running the transfer) and feeds the results back in.

use vstd::prelude::*;
use vstd::string::*;
use crate::driver::DriverError;
use crate::format::{Format, VideoInfo};
use crate::link::{LinkClass, SpecLinkClass, VideoRef};
use crate::select::{sp_none_eligible, sp_selection_ok};

verus! {

/// Why an attempt failed.
#[derive(Clone, Copy, PartialEq, Eq, Debug)]
pub enum ErrorKind {
    InvalidLink,
    PlaylistUnsupported,
    MetadataFetchFailed,
    NoSuitableFormat,
    ToolMissing,
    DirectoryCreationFailed,
    TransferFailed,
}

/// The terminal result of one attempt.
#[derive(Debug)]
pub enum DownloadOutcome {
    /// The transfer completed; carries the output path.
    Success(String),
    /// The attempt failed; carries the kind and a human-readable message.
    Failure(ErrorKind, String),
}

/// The states of one download attempt.
#[derive(Clone, Copy, PartialEq, Eq, Debug)]
pub enum Phase {
    Idle,
    Validating,
    FetchingMetadata,
    SelectingFormat,
    Transferring,
    Completed,
    Failed,
}

pub open spec fn sp_invalid_link_message() -> Seq<char> {
    "not a valid link to a single video; please retry with a valid single-video URL"@
}

pub fn invalid_link_message() -> (r: String)
    ensures
        r@ == sp_invalid_link_message(),
{
    "not a valid link to a single video; please retry with a valid single-video URL".to_owned()
}

pub open spec fn sp_playlist_message() -> Seq<char> {
    "playlists are not supported; please retry with a single video's URL"@
}

pub fn playlist_message() -> (r: String)
    ensures
        r@ == sp_playlist_message(),
{
    "playlists are not supported; please retry with a single video's URL".to_owned()
}

pub open spec fn sp_no_format_message() -> Seq<char> {
    "no available format matches the requested track policy; please retry the same command"@
}

pub fn no_format_message() -> (r: String)
    ensures
        r@ == sp_no_format_message(),
{
    "no available format matches the requested track policy; please retry the same command".to_owned()
}

/// The final output path: `{directory}/{title}.{extension}`, the extension
/// following the audio-only flag.
pub open spec fn sp_output_path(dir: Seq<char>, title: Seq<char>, audio_only: bool) -> Seq<char> {
    dir + "/"@ + title + "."@ + (if audio_only {
        "mp3"@
    } else {
        "mp4"@
    })
}

/// One download attempt. Owned by the caller for the attempt's duration;
/// discarded when the attempt ends.
pub struct Orchestrator {
    pub phase: Phase,
    pub audio_only: bool,
    pub output_dir: String,
    pub url: Option<String>,
    pub video: Option<VideoRef>,
    pub title: Option<String>,
    pub formats: Option<Vec<Format>>,
    pub selected: Option<Format>,
    pub output_path: Option<String>,
    pub outcome: Option<DownloadOutcome>,
}

/// The attempt stands terminally failed with the given kind and message.
pub open spec fn sp_failed_with(o: Orchestrator, kind: ErrorKind, msg: Seq<char>) -> bool {
    &&& o.phase == Phase::Failed
    &&& o.outcome matches Some(DownloadOutcome::Failure(k, m)) && k == kind && m@ == msg
}

impl Orchestrator {
    /// A fresh attempt over an already-expanded output directory.
    pub fn new(output_dir: String, audio_only: bool) -> (r: Orchestrator)
        ensures
            r.phase == Phase::Idle,
            r.audio_only == audio_only,
            r.output_dir == output_dir,
            r.url is None,
            r.video is None,
            r.title is None,
            r.formats is None,
            r.selected is None,
            r.output_path is None,
            r.outcome is None,
    {
        Orchestrator {
            phase: Phase::Idle,
            audio_only,
            output_dir,
            url: None,
            video: None,
            title: None,
            formats: None,
            selected: None,
            output_path: None,
            outcome: None,
        }
    }

    /// A download request enters the system: the attempt starts validating.
    pub fn submit(&mut self, url: String)
        requires
            old(self).phase == Phase::Idle,
        ensures
            final(self).phase == Phase::Validating,
            final(self).url == Some(url),
            final(self).audio_only == old(self).audio_only,
            final(self).output_dir == old(self).output_dir,
            final(self).video == old(self).video,
            final(self).title == old(self).title,
            final(self).formats == old(self).formats,
            final(self).selected == old(self).selected,
            final(self).output_path == old(self).output_path,
            final(self).outcome == old(self).outcome,
    {
        self.url = Some(url);
        self.phase = Phase::Validating;
    }

    /// Classifies the submitted URL: a valid single-video link moves the
    /// attempt on to metadata fetching; a playlist or invalid link fails it
    /// with the matching kind and message, and no process is ever spawned.
    pub fn check_link(&mut self)
        requires
            old(self).phase == Phase::Validating,
            old(self).url is Some,
        ensures
            final(self).audio_only == old(self).audio_only,
            final(self).output_dir == old(self).output_dir,
            final(self).url == old(self).url,
            final(self).title == old(self).title,
            final(self).formats == old(self).formats,
            final(self).selected == old(self).selected,
            final(self).output_path == old(self).output_path,
            ({
                let pu = crate::link::spec_parse_url(old(self).url->0@);
                &&& (pu is None ==> sp_failed_with(
                    *final(self),
                    ErrorKind::InvalidLink,
                    sp_invalid_link_message(),
                ) && final(self).video == old(self).video)
                &&& (pu matches Some(p) ==> match crate::link::sp_classify(p) {
                    SpecLinkClass::Valid(id) => {
                        &&& final(self).phase == Phase::FetchingMetadata
                        &&& final(self).video matches Some(v) && v@ == id
                        &&& final(self).outcome == old(self).outcome
                    },
                    SpecLinkClass::IsPlaylist => sp_failed_with(
                        *final(self),
                        ErrorKind::PlaylistUnsupported,
                        sp_playlist_message(),
                    ) && final(self).video == old(self).video,
                    SpecLinkClass::InvalidFormat => sp_failed_with(
                        *final(self),
                        ErrorKind::InvalidLink,
                        sp_invalid_link_message(),
                    ) && final(self).video == old(self).video,
                })
            }),
    {
        let link = match &self.url {
            Some(u) => u.clone(),
            None => {
                proof {
                    assert(false);
                }
                String::new()
            },
        };
        match crate::link::validate(link.as_str()) {
            LinkClass::Valid(v) => {
                self.video = Some(v);
                self.phase = Phase::FetchingMetadata;
            },
            LinkClass::IsPlaylist => {
                self.phase = Phase::Failed;
                self.outcome = Some(
                    DownloadOutcome::Failure(ErrorKind::PlaylistUnsupported, playlist_message()),
                );
            },
            LinkClass::InvalidFormat => {
                self.phase = Phase::Failed;
                self.outcome = Some(
                    DownloadOutcome::Failure(ErrorKind::InvalidLink, invalid_link_message()),
                );
            },
        }
    }

    /// Receives the metadata fetch's result: a decoded document moves the
    /// attempt on with the sanitized title and the catalog; a fetch or
    /// decode failure fails the attempt with the carried diagnostic.
    pub fn on_metadata(&mut self, meta: Result<VideoInfo, String>)
        requires
            old(self).phase == Phase::FetchingMetadata,
        ensures
            final(self).audio_only == old(self).audio_only,
            final(self).output_dir == old(self).output_dir,
            final(self).url == old(self).url,
            final(self).video == old(self).video,
            final(self).selected == old(self).selected,
            final(self).output_path == old(self).output_path,
            meta matches Ok(info) ==> {
                &&& final(self).phase == Phase::SelectingFormat
                &&& final(self).title matches Some(t) && t@ == crate::strutil::sp_sanitize(
                    info.title@,
                )
                &&& final(self).formats == Some(info.formats)
                &&& final(self).outcome == old(self).outcome
            },
            meta matches Err(m) ==> sp_failed_with(*final(self), ErrorKind::MetadataFetchFailed, m@)
                && final(self).title == old(self).title
                && final(self).formats == old(self).formats,
    {
        match meta {
            Ok(info) => {
                let VideoInfo { title, formats } = info;
                self.title = Some(crate::strutil::sanitize_filename(title.as_str()));
                self.formats = Some(formats);
                self.phase = Phase::SelectingFormat;
            },
            Err(m) => {
                self.phase = Phase::Failed;
                self.outcome = Some(DownloadOutcome::Failure(ErrorKind::MetadataFetchFailed, m));
            },
        }
    }

    /// Runs the selector over the fetched catalog: a selection moves the
    /// attempt into the transfer with the fully resolved output path; an
    /// empty selection fails it, with no side effects to report.
    pub fn choose_format(&mut self)
        requires
            old(self).phase == Phase::SelectingFormat,
            old(self).formats is Some,
            old(self).title is Some,
        ensures
            final(self).audio_only == old(self).audio_only,
            final(self).output_dir == old(self).output_dir,
            final(self).url == old(self).url,
            final(self).video == old(self).video,
            final(self).title == old(self).title,
            final(self).formats == old(self).formats,
            sp_none_eligible(old(self).formats->0@, old(self).audio_only) ==> sp_failed_with(
                *final(self),
                ErrorKind::NoSuitableFormat,
                sp_no_format_message(),
            ) && final(self).selected == old(self).selected
                && final(self).output_path == old(self).output_path,
            !sp_none_eligible(old(self).formats->0@, old(self).audio_only) ==> {
                &&& final(self).phase == Phase::Transferring
                &&& exists|k: int|
                    #[trigger] sp_selection_ok(old(self).formats->0@, old(self).audio_only, k)
                        && final(self).selected == Some(old(self).formats->0@[k])
                &&& final(self).output_path matches Some(p) && p@ == sp_output_path(
                    old(self).output_dir@,
                    old(self).title->0@,
                    old(self).audio_only,
                )
                &&& final(self).outcome == old(self).outcome
            },
    {
        let ao = self.audio_only;
        let pick = crate::select::select_best(self.formats.as_ref().unwrap(), ao);
        match pick {
            None => {
                self.phase = Phase::Failed;
                self.outcome = Some(
                    DownloadOutcome::Failure(ErrorKind::NoSuitableFormat, no_format_message()),
                );
            },
            Some(k) => {
                let f = self.formats.as_ref().unwrap()[k].clone();
                let mut p = String::new();
                p.append(self.output_dir.as_str());
                p.append("/");
                p.append(self.title.as_ref().unwrap().as_str());
                p.append(".");
                if ao {
                    p.append("mp3");
                } else {
                    p.append("mp4");
                }
                proof {
                    assert(p@ =~= sp_output_path(self.output_dir@, self.title->0@, ao));
                }
                self.selected = Some(f);
                self.output_path = Some(p);
                self.phase = Phase::Transferring;
            },
        }
    }

    /// Receives the fetch driver's terminal report: success completes the
    /// attempt with the output path; a driver error fails it — a missing
    /// tool carries the installation guidance as its message.
    pub fn on_fetch_result(&mut self, res: Result<(), DriverError>)
        requires
            old(self).phase == Phase::Transferring,
            old(self).output_path is Some,
        ensures
            final(self).audio_only == old(self).audio_only,
            final(self).output_dir == old(self).output_dir,
            final(self).url == old(self).url,
            final(self).video == old(self).video,
            final(self).title == old(self).title,
            final(self).formats == old(self).formats,
            final(self).selected == old(self).selected,
            final(self).output_path == old(self).output_path,
            res is Ok ==> {
                &&& final(self).phase == Phase::Completed
                &&& final(self).outcome == Some(DownloadOutcome::Success(old(self).output_path->0))
            },
            res matches Err(e) ==> match e {
                DriverError::ToolMissing => sp_failed_with(
                    *final(self),
                    ErrorKind::ToolMissing,
                    crate::driver::sp_tool_missing_guidance(),
                ),
                DriverError::DirectoryCreationFailed(m) => sp_failed_with(
                    *final(self),
                    ErrorKind::DirectoryCreationFailed,
                    m@,
                ),
                DriverError::TransferFailed(m) => sp_failed_with(
                    *final(self),
                    ErrorKind::TransferFailed,
                    m@,
                ),
            },
    {
        match res {
            Ok(()) => {
                let path = match &self.output_path {
                    Some(p) => p.clone(),
                    None => {
                        proof {
                            assert(false);
                        }
                        String::new()
                    },
                };
                self.phase = Phase::Completed;
                self.outcome = Some(DownloadOutcome::Success(path));
            },
            Err(DriverError::ToolMissing) => {
                self.phase = Phase::Failed;
                self.outcome = Some(
                    DownloadOutcome::Failure(
                        ErrorKind::ToolMissing,
                        crate::driver::tool_missing_guidance(),
                    ),
                );
            },
            Err(DriverError::DirectoryCreationFailed(m)) => {
                self.phase = Phase::Failed;
                self.outcome = Some(
                    DownloadOutcome::Failure(ErrorKind::DirectoryCreationFailed, m),
                );
            },
            Err(DriverError::TransferFailed(m)) => {
                self.phase = Phase::Failed;
                self.outcome = Some(DownloadOutcome::Failure(ErrorKind::TransferFailed, m));
            },
        }
    }
}

} // verus!
