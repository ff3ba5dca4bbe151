//! Failures of single downloads and of local input and output.

use vstd::prelude::*;
use vstd::string::*;

verus! {

/// Why one download was given up. The batch it belongs to goes on.
#[derive(Debug, Clone, PartialEq, Eq)]
pub enum DownloadError {
    /// No URL template is configured under the selected server's name.
    UnknownServer,
    /// The URL template cannot be filled in.
    Template,
    /// The file name that the server announced is not valid text.
    FileName,
    /// The transfer broke off.
    Transfer(String),
    /// The file could not be created or written.
    Write(String),
}

/// A directory could not be listed.
#[derive(Debug, Clone, PartialEq, Eq)]
pub struct IoError {
    pub cause: String,
}

/// The text of a download failure.
pub open spec fn message_of(e: DownloadError) -> Seq<char> {
    match e {
        DownloadError::UnknownServer => "no URL template for the selected server"@,
        DownloadError::Template => "the URL template cannot be filled in"@,
        DownloadError::FileName => "the announced file name is not valid text"@,
        DownloadError::Transfer(cause) => "transfer failed: "@ + cause@,
        DownloadError::Write(cause) => "write failed: "@ + cause@,
    }
}

impl DownloadError {
    /// The failure as one line of text.
    pub fn message(&self) -> (text: String)
        ensures
            text@ == message_of(*self),
    {
        match self {
            DownloadError::UnknownServer => String::from_str(
                "no URL template for the selected server",
            ),
            DownloadError::Template => String::from_str("the URL template cannot be filled in"),
            DownloadError::FileName => String::from_str(
                "the announced file name is not valid text",
            ),
            DownloadError::Transfer(cause) => {
                let mut text = String::from_str("transfer failed: ");
                text.append(cause.as_str());
                text
            },
            DownloadError::Write(cause) => {
                let mut text = String::from_str("write failed: ");
                text.append(cause.as_str());
                text
            },
        }
    }
}

} // verus!
