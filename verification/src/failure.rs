//! The ways in which a bootstrap can fail, and the lines that the host's
//! log is given.

use vstd::prelude::*;
use crate::text::concatenate;

verus! {

/// Why no server was registered. Every failure ends the bootstrap; none is retried.
#[derive(Clone, Copy, Debug, PartialEq, Eq, Structural)]
pub enum Failure {
    /// The archive could not be downloaded.
    Network,
    /// A file or directory could not be read, written or created.
    Filesystem,
    /// The payload is not a readable gzip stream or not a readable tar archive.
    Archive,
    /// The location of the server's executable could not be made into a URI.
    Location,
}

impl Failure {
    /// What the failure is called in the log.
    pub open spec fn text(self) -> Seq<char> {
        match self {
            Failure::Network => "the server archive could not be downloaded"@,
            Failure::Filesystem => "a file or directory could not be read or written"@,
            Failure::Archive => "the server archive could not be unpacked"@,
            Failure::Location => "the location of the server is not a valid URI"@,
        }
    }

    /// What the failure is called in the log.
    pub fn message(&self) -> (r: String)
        ensures
            r@ == self.text(),
    {
        match self {
            Failure::Network => "the server archive could not be downloaded".to_owned(),
            Failure::Filesystem => "a file or directory could not be read or written".to_owned(),
            Failure::Archive => "the server archive could not be unpacked".to_owned(),
            Failure::Location => "the location of the server is not a valid URI".to_owned(),
        }
    }
}

/// The log line for a failed bootstrap.
pub fn failure_line(failure: Failure) -> (r: String)
    ensures
        r@ == "plugin returned with error: "@ + failure.text(),
{
    let message = failure.message();
    concatenate("plugin returned with error: ", message.as_str())
}

/// The log line for a server that is about to be registered at `location`.
pub fn starting_line(location: &str) -> (r: String)
    ensures
        r@ == "Starting java lsp server: "@ + location@,
{
    concatenate("Starting java lsp server: ", location)
}

} // verus!
