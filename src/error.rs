use vstd::prelude::*;
use vstd::string::*;

use crate::cli::{Label, Report, ReportView, Reportable};
use crate::text::{debug_quoted, quote};

verus! {

/// What can go wrong while running a command.
#[derive(Clone, Debug, PartialEq, Eq)]
pub enum Error {
    DirCreationFailed { path: String, source: String },
    DirChangeFailed { path: String, source: String },
}

/// The message of the report for an error.
pub open spec fn error_message(e: Error) -> Seq<char> {
    match e {
        Error::DirCreationFailed { path, .. } => "Failed to create directory "@ + debug_quoted(path@),
        Error::DirChangeFailed { path, .. } => "Failed to change current directory "@
            + debug_quoted(path@),
    }
}

/// The details of the report for an error: what the system said.
pub open spec fn error_details(e: Error) -> Seq<char> {
    match e {
        Error::DirCreationFailed { source, .. } => source@,
        Error::DirChangeFailed { source, .. } => source@,
    }
}

impl Error {
    /// The report that shows this error to the user.
    pub fn to_report(&self) -> (r: Report)
        ensures
            r@.label == Label::Error,
            r@.msg == error_message(*self),
            r@.details == error_details(*self),
    {
        match self {
            Error::DirCreationFailed { path, source } => {
                let mut msg = String::from_str("Failed to create directory ");
                let q = quote(path.as_str());
                msg.append(q.as_str());
                Report::error(msg.as_str(), source.as_str())
            },
            Error::DirChangeFailed { path, source } => {
                let mut msg = String::from_str("Failed to change current directory ");
                let q = quote(path.as_str());
                msg.append(q.as_str());
                Report::error(msg.as_str(), source.as_str())
            },
        }
    }
}

impl Reportable for Error {
    open spec fn report_view(&self) -> ReportView {
        ReportView { label: Label::Error, msg: error_message(*self), details: error_details(*self) }
    }

    fn report(&self) -> (r: Report) {
        self.to_report()
    }
}

} // verus!
