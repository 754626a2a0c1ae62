//! Download orchestration engine for fetching a single online video.
//!
//! The library classifies an input URL (`link`), picks the best stream out of
//! a format catalog (`select`), decodes tool metadata (`meta`), plans the
//! arguments and interprets the outcome of the external fetch tool (`driver`),
//! parses its live progress feed (`progress`), and drives the whole attempt
//! through a verified state machine (`orchestrate`).
//!
//! All I/O — spawning the fetch tool, reading its output, rendering a
//! progress bar — lives outside the library; the library's functions take
//! plain values and return plain values, each under a verified contract.

pub mod driver;
pub mod format;
pub mod link;
pub mod meta;
pub mod orchestrate;
pub mod progress;
pub mod select;
pub mod strutil;

use vstd::prelude::*;

verus! {

/// Parsed command-line request: one URL, an optional output directory and the
/// audio-only flag.
pub struct Cli {
    pub url: String,
    pub output_dir: Option<String>,
    pub audio_only: bool,
}

} // verus!
