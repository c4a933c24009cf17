use vstd::prelude::*;
use crate::error::{ErrorView, IssueError};

verus! {

/// The input formats that have a reader.
#[derive(Debug, PartialEq, Eq, Structural, Clone, Copy)]
pub enum InputFormat {
    Csv,
}

/// The format named by a file extension, if a reader exists for it.
pub open spec fn format_of(ext: Seq<char>) -> Option<InputFormat> {
    if ext == "csv"@ {
        Some(InputFormat::Csv)
    } else {
        None
    }
}

impl InputFormat {
    /// The reader for the extension `ext`; any extension but `csv` (YAML included) is
    /// reported as unsupported.
    pub fn from_ext(ext: &str) -> (r: Result<InputFormat, IssueError>)
        ensures
            match format_of(ext@) {
                Some(f) => r == Ok::<InputFormat, IssueError>(f),
                None => r matches Err(e) && e@ == ErrorView::UnsupportedFormat { ext: ext@ },
            },
    {
        let given = ext.to_owned();
        if given == "csv".to_owned() {
            Ok(InputFormat::Csv)
        } else {
            Err(IssueError::UnsupportedFormat { ext: given })
        }
    }
}

/// How much diagnostic output a run prints.
#[derive(Debug, PartialEq, Eq, Structural, Clone, Copy)]
pub enum Verbosity {
    /// Progress and errors only.
    Normal,
    /// Also each parsed record and each command line.
    Debug,
    /// Everything.
    Trace,
}

/// The threshold chosen by the number of times the debug flag was given.
pub open spec fn verbosity_spec(count: u8) -> Verbosity {
    if count == 0 {
        Verbosity::Normal
    } else if count == 1 {
        Verbosity::Debug
    } else {
        Verbosity::Trace
    }
}

impl Verbosity {
    /// The threshold for `count` debug flags: none gives `Normal`, one `Debug`, more
    /// `Trace`.
    pub fn from_count(count: u8) -> (r: Verbosity)
        ensures
            r == verbosity_spec(count),
    {
        if count == 0 {
            Verbosity::Normal
        } else if count == 1 {
            Verbosity::Debug
        } else {
            Verbosity::Trace
        }
    }
}

} // verus!
