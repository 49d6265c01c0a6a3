//! The ways in which the client's operations fail.

use vstd::prelude::*;
use crate::text::{decimal, decimal_string};

verus! {

/// A failure of the client, with the path, name or cause that it concerns.
#[derive(Debug, Clone, PartialEq, Eq)]
pub enum Error {
    /// The profile has no API key, neither of its own nor from the profiles it draws on.
    MissingCredential,
    /// The profile's chain of source profiles comes back to a profile already visited.
    CyclicProfileChain,
    /// The store holds no profile of this name.
    ProfileNotFound(String),
    /// A message record sets none of `system`, `assistant` and `user`.
    EmptyMessageRecord,
    /// The file at `path` could not be read.
    UnreadableFile { path: String, cause: String },
    /// The file at `path` could not be written.
    UnwritableFile { path: String, cause: String },
    /// The content of the file at `path` is not of the format that its kind asks for.
    UnparseableContent { path: String, cause: String },
    /// The remote service could not be reached.
    TransportFailed(String),
    /// The remote service answered with a status other than success.
    RequestFailed { status: u16, body: Option<String> },
    /// The user's home directory is not known.
    NoHomeDirectory,
    /// The message to send is empty.
    EmptyPrompt,
}

/// An [`Error`] with its texts as sequences of characters.
pub enum ErrorView {
    MissingCredential,
    CyclicProfileChain,
    ProfileNotFound(Seq<char>),
    EmptyMessageRecord,
    UnreadableFile { path: Seq<char>, cause: Seq<char> },
    UnwritableFile { path: Seq<char>, cause: Seq<char> },
    UnparseableContent { path: Seq<char>, cause: Seq<char> },
    TransportFailed(Seq<char>),
    RequestFailed { status: u16, body: Option<Seq<char>> },
    NoHomeDirectory,
    EmptyPrompt,
}

impl View for Error {
    type V = ErrorView;

    open spec fn view(&self) -> ErrorView {
        match *self {
            Error::MissingCredential => ErrorView::MissingCredential,
            Error::CyclicProfileChain => ErrorView::CyclicProfileChain,
            Error::ProfileNotFound(name) => ErrorView::ProfileNotFound(name@),
            Error::EmptyMessageRecord => ErrorView::EmptyMessageRecord,
            Error::UnreadableFile { path, cause } => ErrorView::UnreadableFile {
                path: path@,
                cause: cause@,
            },
            Error::UnwritableFile { path, cause } => ErrorView::UnwritableFile {
                path: path@,
                cause: cause@,
            },
            Error::UnparseableContent { path, cause } => ErrorView::UnparseableContent {
                path: path@,
                cause: cause@,
            },
            Error::TransportFailed(cause) => ErrorView::TransportFailed(cause@),
            Error::RequestFailed { status, body } => ErrorView::RequestFailed {
                status,
                body: match body {
                    Some(text) => Some(text@),
                    None => None,
                },
            },
            Error::NoHomeDirectory => ErrorView::NoHomeDirectory,
            Error::EmptyPrompt => ErrorView::EmptyPrompt,
        }
    }
}

/// The sentence that reports `e` to the user.
pub open spec fn report(e: ErrorView) -> Seq<char> {
    match e {
        ErrorView::MissingCredential => "no API key: the profile has none and its source profiles give none"@,
        ErrorView::CyclicProfileChain => "the chain of source profiles never ends"@,
        ErrorView::ProfileNotFound(name) => "Profile \""@ + name + "\" is not exists"@,
        ErrorView::EmptyMessageRecord => "no message"@,
        ErrorView::UnreadableFile { path, cause } => "failed to read text file: path="@ + path
            + ", err="@ + cause,
        ErrorView::UnwritableFile { path, cause } => "failed to write file: path="@ + path
            + ", err="@ + cause,
        ErrorView::UnparseableContent { path, cause } => "failed to deserialize: path="@ + path
            + ", err="@ + cause,
        ErrorView::TransportFailed(cause) => "failed to call chat completion: "@ + cause,
        ErrorView::RequestFailed { status, body } => match body {
            Some(text) => "failed to call chat completion: code="@ + decimal(status as nat)
                + ", body="@ + text,
            None => "failed to call chat completion: code="@ + decimal(status as nat),
        },
        ErrorView::NoHomeDirectory => "failed to resolve Home directory"@,
        ErrorView::EmptyPrompt => "Aborting prompt due to empty message"@,
    }
}

fn two_parts(head: &str, a: &str) -> (r: String)
    ensures
        r@ == head@ + a@,
{
    let mut r = String::from_str(head);
    r.append(a);
    r
}

fn four_parts(head: &str, a: &str, mid: &str, b: &str) -> (r: String)
    ensures
        r@ == head@ + a@ + mid@ + b@,
{
    let mut r = String::from_str(head);
    r.append(a);
    r.append(mid);
    r.append(b);
    r
}

impl Error {
    /// The sentence that reports this error to the user.
    pub fn message(&self) -> (r: String)
        ensures
            r@ == report(self@),
    {
        match self {
            Error::MissingCredential => String::from_str(
                "no API key: the profile has none and its source profiles give none",
            ),
            Error::CyclicProfileChain => String::from_str(
                "the chain of source profiles never ends",
            ),
            Error::ProfileNotFound(name) => {
                let mut r = two_parts("Profile \"", name.as_str());
                r.append("\" is not exists");
                r
            },
            Error::EmptyMessageRecord => String::from_str("no message"),
            Error::UnreadableFile { path, cause } => four_parts(
                "failed to read text file: path=",
                path.as_str(),
                ", err=",
                cause.as_str(),
            ),
            Error::UnwritableFile { path, cause } => four_parts(
                "failed to write file: path=",
                path.as_str(),
                ", err=",
                cause.as_str(),
            ),
            Error::UnparseableContent { path, cause } => four_parts(
                "failed to deserialize: path=",
                path.as_str(),
                ", err=",
                cause.as_str(),
            ),
            Error::TransportFailed(cause) => two_parts(
                "failed to call chat completion: ",
                cause.as_str(),
            ),
            Error::RequestFailed { status, body } => {
                let code = decimal_string(*status as u64);
                match body {
                    Some(text) => four_parts(
                        "failed to call chat completion: code=",
                        code.as_str(),
                        ", body=",
                        text.as_str(),
                    ),
                    None => two_parts("failed to call chat completion: code=", code.as_str()),
                }
            },
            Error::NoHomeDirectory => String::from_str("failed to resolve Home directory"),
            Error::EmptyPrompt => String::from_str("Aborting prompt due to empty message"),
        }
    }
}

} // verus!
