use vstd::prelude::*;
use vstd::string::*;

use crate::path::NoHomeDir;
use crate::text::{debug_quoted, quote};

verus! {

/// The file under the install directory that names the installed commit.
pub const COMMIT_FILE_NAME: &'static str = "commit";

/// Why the installed commit could not be read.
#[derive(Clone, Debug, PartialEq, Eq)]
pub enum InstalledCommitMsgError {
    NoHomeDir(NoHomeDir),
    ReadFailed { path: String, source: String },
}

impl InstalledCommitMsgError {
    pub fn message(&self) -> (r: String)
        ensures
            r@ == match self {
                InstalledCommitMsgError::NoHomeDir(_) => "Failed to get user's home directory!"@,
                InstalledCommitMsgError::ReadFailed { path, source } => "Failed to read version info from "@
                    + debug_quoted(path@) + ": "@ + source@,
            },
    {
        match self {
            InstalledCommitMsgError::NoHomeDir(e) => e.message(),
            InstalledCommitMsgError::ReadFailed { path, source } => {
                let mut out = String::from_str("Failed to read version info from ");
                let q = quote(path.as_str());
                out.append(q.as_str());
                out.append(": ");
                out.append(source.as_str());
                out
            },
        }
    }
}

/// The line that names the installed commit.
pub open spec fn commit_line(msg: Seq<char>) -> Seq<char> {
    "Contains commits up to "@ + debug_quoted(msg)
}

pub fn format_commit_msg(msg: String) -> (r: String)
    ensures
        r@ == commit_line(msg@),
        !r@.contains('\n'),
{
    let mut out = String::from_str("Contains commits up to ");
    let q = quote(msg.as_str());
    out.append(q.as_str());
    proof {
        reveal_strlit("Contains commits up to ");
        let p = "Contains commits up to "@;
        assert forall|i: int| 0 <= i < out@.len() implies out@[i] != '\n' by {
            if i < p.len() {
                assert(out@[i] == p[i]);
            } else {
                assert(out@[i] == q@[i - p.len()]);
            }
        }
    }
    out
}

/// The long version text, given the short one and the outcome of reading
/// the installed commit.
pub open spec fn long_version(
    short: Seq<char>,
    installed: Result<Option<String>, InstalledCommitMsgError>,
) -> Seq<char> {
    match installed {
        Ok(Some(msg)) => short + seq!['\n'] + commit_line(msg@),
        _ => short,
    }
}

/// The long version text: the short version, followed by a line that names
/// the installed commit where one could be read.
pub fn version_long(short: &str, installed: Result<Option<String>, InstalledCommitMsgError>) -> (r:
    String)
    ensures
        r@ == long_version(short@, installed),
{
    match installed {
        Ok(Some(msg)) => {
            let mut out = String::from_str(short);
            out.append("\n");
            let line = format_commit_msg(msg);
            out.append(line.as_str());
            proof {
                reveal_strlit("\n");
            }
            assert("\n"@ =~= seq!['\n']);
            out
        },
        _ => String::from_str(short),
    }
}

} // verus!
