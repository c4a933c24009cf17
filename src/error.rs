use vstd::prelude::*;

verus! {

/// What can stop a run. `row` counts the records of the input file from 0, the header
/// record being 0 and the first issue row 1.
#[derive(Debug)]
pub enum IssueError {
    /// The input file could not be opened or read.
    FileError { reason: String },
    /// A record could not be read, or lacks a mandatory column (`missing_column`).
    ParseError { row: usize, missing_column: Option<String> },
    /// No reader exists for the requested file extension.
    UnsupportedFormat { ext: String },
    /// The tracker command for a row exited unsuccessfully.
    DispatchFailure { row: usize, detail: String },
}

/// The mathematical value of an [`IssueError`].
pub enum ErrorView {
    FileError { reason: Seq<char> },
    ParseError { row: int, missing_column: Option<Seq<char>> },
    UnsupportedFormat { ext: Seq<char> },
    DispatchFailure { row: int, detail: Seq<char> },
}

impl View for IssueError {
    type V = ErrorView;

    open spec fn view(&self) -> ErrorView {
        match self {
            IssueError::FileError { reason } => ErrorView::FileError { reason: reason@ },
            IssueError::ParseError { row, missing_column } => ErrorView::ParseError {
                row: *row as int,
                missing_column: missing_column.deep_view(),
            },
            IssueError::UnsupportedFormat { ext } => ErrorView::UnsupportedFormat { ext: ext@ },
            IssueError::DispatchFailure { row, detail } => ErrorView::DispatchFailure {
                row: *row as int,
                detail: detail@,
            },
        }
    }
}

/// A copy of `o`, string by string.
fn copy_text(o: &Option<String>) -> (r: Option<String>)
    ensures
        r.deep_view() == o.deep_view(),
{
    match o {
        Some(s) => Some(s.clone()),
        None => None,
    }
}

impl IssueError {
    /// A copy of this error.
    pub fn duplicate(&self) -> (r: IssueError)
        ensures
            r@ == self@,
    {
        match self {
            IssueError::FileError { reason } => IssueError::FileError { reason: reason.clone() },
            IssueError::ParseError { row, missing_column } => IssueError::ParseError {
                row: *row,
                missing_column: copy_text(missing_column),
            },
            IssueError::UnsupportedFormat { ext } => IssueError::UnsupportedFormat {
                ext: ext.clone(),
            },
            IssueError::DispatchFailure { row, detail } => IssueError::DispatchFailure {
                row: *row,
                detail: detail.clone(),
            },
        }
    }
}

} // verus!
