//! The error taxonomy of a single invocation.
//!
//! Every failure is terminal for the run and carries enough context to
//! render one actionable message; `message` builds that message.

use vstd::prelude::*;
use vstd::string::StringExecFns;

verus! {

/// The failures a single invocation can end in.
#[derive(Debug)]
pub enum Error {
    /// Fetch mode was entered without any target names; detected locally,
    /// before any request is made.
    NoTargets,
    /// The remote service answered 404 to a fetch: it does not recognize
    /// the requested set. The service does not say which name was at
    /// fault, so the whole comma-joined target string is carried.
    InvalidTarget(String),
    /// Any other non-success answer from the remote service, or a failure
    /// below HTTP (connection refused, timeout). `status` holds the HTTP
    /// status when a response was received at all.
    Http { status: Option<u16>, detail: String },
    /// The destination file already exists and overwriting was not forced.
    FileAlreadyExists { cwd: String },
    /// Any other local filesystem error met while checking for the
    /// destination or writing to it.
    ReadWrite(String),
}

/// The user-facing message of each error, character for character.
pub open spec fn message_of(e: Error) -> Seq<char> {
    match e {
        Error::NoTargets => "No targets specified, see available targets with `ig --list`"@,
        Error::InvalidTarget(s) => "Invalid target(s): "@ + s@
            + ", see available targets with `ig --list`"@,
        Error::Http { status: _, detail } => "HTTP error: "@ + detail@,
        Error::FileAlreadyExists { cwd } => "A .gitignore file already exists at "@ + cwd@
            + ", use `--force` to overwrite"@,
        Error::ReadWrite(d) => "Error reading or writing from file "@ + d@,
    }
}

impl Error {
    /// Renders the single, human-readable message for this error.
    pub fn message(&self) -> (r: String)
        ensures
            r@ == message_of(*self),
    {
        match self {
            Error::NoTargets => String::from_str(
                "No targets specified, see available targets with `ig --list`",
            ),
            Error::InvalidTarget(s) => String::from_str("Invalid target(s): ")
                .concat(s.as_str())
                .concat(", see available targets with `ig --list`"),
            Error::Http { status: _, detail } => String::from_str("HTTP error: ").concat(
                detail.as_str(),
            ),
            Error::FileAlreadyExists { cwd } => String::from_str(
                "A .gitignore file already exists at ",
            ).concat(cwd.as_str()).concat(", use `--force` to overwrite"),
            Error::ReadWrite(d) => String::from_str("Error reading or writing from file ").concat(
                d.as_str(),
            ),
        }
    }
}

} // verus!
