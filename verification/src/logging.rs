//! How diagnostics are laid out.
//!
//! Installing the subscriber is the front end's part; what it installs is
//! decided here: which layout stderr gets, and which directory a log file
//! needs before it can be opened.

use vstd::prelude::*;

use crate::config::{Log, LogFormat};
use crate::paths::{PathStyle, parent, parent_of};
#[allow(unused_imports)]
use vstd::string::*;

verus! {

/// Environment variable that overrides the computed filter, using the full
/// `tracing` filter grammar.
pub const ENV_FILTER_VAR: &'static str = "CHIPLOOM_LOG";

/// How records are laid out on stderr.
#[derive(Debug, Clone, Copy, PartialEq, Eq, Structural)]
pub enum Layout {
    /// One JSON object per record, fields flattened into it.
    Json,
    /// Multi-line records, with or without a timestamp.
    Pretty { timestamps: bool },
    /// One terse line per record; without timestamps the target is left out
    /// too, because an interactive command's output is read as it happens.
    Compact { timestamps: bool },
}

/// The stderr layout a configuration asks for. JSON carries its timestamps
/// whatever `timestamps` says.
pub open spec fn layout_of(format: LogFormat, timestamps: bool) -> Layout {
    match format {
        LogFormat::Json => Layout::Json,
        LogFormat::Pretty => Layout::Pretty { timestamps },
        LogFormat::Compact => Layout::Compact { timestamps },
    }
}

/// The stderr layout for `log`.
pub fn stderr_layout(log: &Log) -> (l: Layout)
    ensures
        l == layout_of(log.format, log.timestamps),
{
    match log.format {
        LogFormat::Json => Layout::Json,
        LogFormat::Pretty => Layout::Pretty { timestamps: log.timestamps },
        LogFormat::Compact => Layout::Compact { timestamps: log.timestamps },
    }
}

/// The directory that has to exist before the log file `file`, a path of
/// `style`, can be opened: its parent, unless that is empty (a file in the
/// working directory).
pub fn log_directory(style: PathStyle, file: &str) -> (d: Option<String>)
    ensures
        match parent(style, file@) {
            Some(p) => if p.len() > 0 {
                d matches Some(s) && s@ == p
            } else {
                d is None
            },
            None => d is None,
        },
{
    match parent_of(style, file) {
        Some(p) => if p.unicode_len() > 0 {
            Some(p)
        } else {
            None
        },
        None => None,
    }
}

} // verus!
