//! Verified core of a small two-level site scraper: link extraction,
//! screen-name and asset-filename derivation, snapshot planning, and the
//! page-by-page walk that yields one output row per titled profile link.
//!
//! Fetching pages and writing snapshot files are I/O and stay outside the
//! library; the walk is driven as a state machine that hands its caller the
//! next URL to fetch and consumes the fetched page text.

use vstd::prelude::*;

pub mod dom;
pub mod extract;
pub mod plan;
pub mod resolve;
pub mod text;
pub mod walk;

verus! {

/// Failures the walk itself can detect. Transport, filesystem and
/// serialization failures belong to the surrounding program.
#[derive(Debug)]
pub enum Error {
    /// A fetched page lacks an expected attribute or carries an unusable
    /// reference; the payload describes which.
    InvalidHtml(String),
    /// A raw reference cannot be resolved against its page's URL.
    Url(String),
}

/// The kind of an [`Error`], for stating which failure an input produces.
#[derive(Clone, Copy, Debug, PartialEq, Eq, Structural)]
pub enum ErrKind {
    InvalidHtml,
    Url,
}

/// Holds when `e` is of kind `k`.
pub open spec fn err_matches(e: Error, k: ErrKind) -> bool {
    match k {
        ErrKind::InvalidHtml => e is InvalidHtml,
        ErrKind::Url => e is Url,
    }
}

/// Verbosity levels for the log output, from silent to most detailed.
#[derive(Clone, Copy, Debug, PartialEq, Eq, Structural)]
pub enum LogLevel {
    Off,
    Error,
    Warn,
    Info,
    Debug,
    Trace,
}

/// Maps a count of `--verbose` flags to a log level; five or more
/// occurrences select the most detailed level.
pub fn select_log_level_filter(verbosity: u8) -> (r: LogLevel)
    ensures
        r == (match verbosity {
            0u8 => LogLevel::Off,
            1u8 => LogLevel::Error,
            2u8 => LogLevel::Warn,
            3u8 => LogLevel::Info,
            4u8 => LogLevel::Debug,
            _ => LogLevel::Trace,
        }),
{
    match verbosity {
        0 => LogLevel::Off,
        1 => LogLevel::Error,
        2 => LogLevel::Warn,
        3 => LogLevel::Info,
        4 => LogLevel::Debug,
        _ => LogLevel::Trace,
    }
}

} // verus!
