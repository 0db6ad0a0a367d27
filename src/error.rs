//! Failures that the library reports to its caller.
use vstd::prelude::*;
use crate::text::joined;

verus! {

/// A failure of one operation, with a human-readable detail.
#[derive(Debug, Clone, PartialEq, Eq)]
pub enum CommandError {
    /// A folder or file could not be read, or the resolver could not be started.
    Io(String),
    /// An audio container could not be parsed.
    Lofty(String),
    /// The folder picker was cancelled or failed.
    Dialog(String),
    /// The resolver program is not installed.
    NotFound(String),
    /// The resolver ran and failed without usable output.
    ProcessFailed(String),
    /// An unexpected internal failure.
    Unknown(String),
}

/// The prefix that names each kind of failure in its message.
pub open spec fn kind_label(e: CommandError) -> Seq<char> {
    match e {
        CommandError::Io(_) => "IO Error: "@,
        CommandError::Lofty(_) => "Lofty Metadata Error: "@,
        CommandError::Dialog(_) => "Dialog Error: "@,
        CommandError::NotFound(_) => "Not Found: "@,
        CommandError::ProcessFailed(_) => "Process Failed: "@,
        CommandError::Unknown(_) => "Unknown Error: "@,
    }
}

/// The detail that a failure carries.
pub open spec fn detail(e: CommandError) -> Seq<char> {
    match e {
        CommandError::Io(m) => m@,
        CommandError::Lofty(m) => m@,
        CommandError::Dialog(m) => m@,
        CommandError::NotFound(m) => m@,
        CommandError::ProcessFailed(m) => m@,
        CommandError::Unknown(m) => m@,
    }
}

impl CommandError {
    /// The message shown to the user: the kind's label, then the detail.
    pub fn message(&self) -> (r: String)
        ensures
            r@ == kind_label(*self) + detail(*self),
    {
        match self {
            CommandError::Io(m) => joined("IO Error: ", m.as_str()),
            CommandError::Lofty(m) => joined("Lofty Metadata Error: ", m.as_str()),
            CommandError::Dialog(m) => joined("Dialog Error: ", m.as_str()),
            CommandError::NotFound(m) => joined("Not Found: ", m.as_str()),
            CommandError::ProcessFailed(m) => joined("Process Failed: ", m.as_str()),
            CommandError::Unknown(m) => joined("Unknown Error: ", m.as_str()),
        }
    }
}

} // verus!
