//! The ways in which an operation of this library fails.

use vstd::prelude::*;
use vstd::string::*;
use crate::version::Version;

verus! {

/// What went wrong, with the value that caused it.
#[derive(Debug)]
pub enum Error {
    /// The named template is not in the catalog that was searched.
    InvalidTemplate(String),
    /// An answer to a prompt is none of those that the prompt accepts.
    InvalidInput(String),
    /// The named catalog is neither `managed` nor `custom`.
    InvalidRepo(String),
    /// The running tool (first) is older than the manifest asks for (second).
    IncompatibleVersion(Version, Version),
    /// A remote request did not answer in time.
    Timeout,
    /// A remote request failed otherwise.
    Network(String),
    /// Reading or writing failed.
    IO(String),
}

impl Error {
    /// The one line that describes the error to the user.
    pub open spec fn message_text(self) -> Seq<char> {
        match self {
            Error::InvalidTemplate(name) => "The Template `"@ + name@ + "` is Invalid!"@,
            Error::InvalidInput(input) => "The input `"@ + input@ + "` is Invalid!"@,
            Error::InvalidRepo(repo) => "The repo `"@ + repo@
                + "` is invalid, only `managed` or `custom` is allowed!"@,
            Error::IncompatibleVersion(running, required) => "TexCreate `"@ + running.text()
                + "` is older than the minimum version `"@ + required.text() + "`!"@,
            Error::Timeout => "The request timed out!"@,
            Error::Network(reason) => "Network Error: "@ + reason@,
            Error::IO(reason) => "IO Error: "@ + reason@,
        }
    }

    /// Describes the error in one line that names the offending value.
    pub fn message(&self) -> (s: String)
        ensures
            s@ == self.message_text(),
    {
        match self {
            Error::InvalidTemplate(name) => {
                let mut s = String::from_str("The Template `");
                s.append(name.as_str());
                s.append("` is Invalid!");
                s
            },
            Error::InvalidInput(input) => {
                let mut s = String::from_str("The input `");
                s.append(input.as_str());
                s.append("` is Invalid!");
                s
            },
            Error::InvalidRepo(repo) => {
                let mut s = String::from_str("The repo `");
                s.append(repo.as_str());
                s.append("` is invalid, only `managed` or `custom` is allowed!");
                s
            },
            Error::IncompatibleVersion(running, required) => {
                let mut s = String::from_str("TexCreate `");
                let running_text = running.to_text();
                s.append(running_text.as_str());
                s.append("` is older than the minimum version `");
                let required_text = required.to_text();
                s.append(required_text.as_str());
                s.append("`!");
                s
            },
            Error::Timeout => String::from_str("The request timed out!"),
            Error::Network(reason) => {
                let mut s = String::from_str("Network Error: ");
                s.append(reason.as_str());
                s
            },
            Error::IO(reason) => {
                let mut s = String::from_str("IO Error: ");
                s.append(reason.as_str());
                s
            },
        }
    }
}

} // verus!
