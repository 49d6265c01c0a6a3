//! What follows a request: how the outcome of the call is read, and how
//! an exchange is recorded as history.

use vstd::prelude::*;
use crate::api::{uses_history, with_history, ResponseChatCompletion, Role, Turn};
use crate::config::{copy_text, Profile};
use crate::error::{Error, ErrorView};
use crate::messages::{record_of, RawSavedMessage, Record};
use crate::text::{decimal, decimal_string};

verus! {

/// The value of the `Authorization` header for the API key `key`.
pub open spec fn bearer(key: Seq<char>) -> Seq<char> {
    "Bearer "@ + key
}

/// The value of the `Authorization` header for a resolved profile. A
/// profile without an API key has none.
pub fn authorization(profile: &Profile) -> (r: Result<String, Error>)
    ensures
        match profile@.api_key {
            Some(key) => r.is_ok() && r.unwrap()@ == bearer(key),
            None => r == Err::<String, Error>(Error::MissingCredential),
        },
{
    match &profile.api_key {
        Some(key) => {
            let mut header = String::from_str("Bearer ");
            header.append(key.as_str());
            Ok(header)
        },
        None => Err(Error::MissingCredential),
    }
}

/// How the call to the service ended.
#[derive(Debug, PartialEq, Eq)]
pub enum Outcome {
    /// The service answered with success.
    Answered(ResponseChatCompletion),
    /// The service answered with another status; the body is there where it could be read.
    Refused { status: u16, body: Option<String> },
    /// The service was not reached.
    Unreachable(String),
}

/// The file of one exchange in a profile's history.
#[derive(Debug, PartialEq, Eq)]
pub struct HistoryEntry {
    pub file_name: String,
    pub records: Vec<RawSavedMessage>,
}

/// The name of the history file of an exchange created at `created`: the
/// decimal numeral of the time, with the extension `.yaml`.
pub open spec fn history_file_name(created: u32) -> Seq<char> {
    decimal(created as nat) + ".yaml"@
}

/// The records of an exchange: the user's message, then the assistant's reply.
pub open spec fn history_records(message: Seq<char>, reply: Seq<char>) -> Seq<Record> {
    seq![
        record_of(Turn { role: Role::User, content: message }),
        record_of(Turn { role: Role::Assistant, content: reply }),
    ]
}

/// The history file that records the exchange of `message` and the first
/// reply of `response`.
pub fn history_entry(message: &str, response: &ResponseChatCompletion) -> (r: HistoryEntry)
    requires
        response.choices@.len() > 0,
    ensures
        r.file_name@ == history_file_name(response.created),
        r.records.deep_view() == history_records(
            message@,
            response.choices@[0].message.content@,
        ),
{
    let mut file_name = decimal_string(response.created as u64);
    file_name.append(".yaml");
    let mut records: Vec<RawSavedMessage> = Vec::new();
    records.push(
        RawSavedMessage { system: None, assistant: None, user: Some(String::from_str(message)) },
    );
    records.push(
        RawSavedMessage {
            system: None,
            assistant: Some(response.get_assistant_message()),
            user: None,
        },
    );
    assert(records.deep_view() =~= history_records(
        message@,
        response.choices@[0].message.content@,
    ));
    HistoryEntry { file_name, records }
}

/// What the client does once the call has ended.
#[derive(Debug, PartialEq, Eq)]
pub struct Settled {
    /// The assistant's reply, to be shown.
    pub reply: String,
    /// The history file to write; none where the profile keeps no history.
    pub history: Option<HistoryEntry>,
}

/// Reads the outcome of the call for the resolved profile `profile` and
/// the message `message` that was sent.
///
/// An answer gives the first reply, and the history file of the exchange
/// where the profile keeps history. A status other than success is a
/// `RequestFailed` with the status and the body; a call that did not reach
/// the service is a `TransportFailed` with its cause.
pub fn settle(profile: &Profile, message: &str, outcome: &Outcome) -> (r: Result<Settled, Error>)
    requires
        outcome matches Outcome::Answered(response) ==> response.choices@.len() > 0,
    ensures
        match *outcome {
            Outcome::Answered(response) => {
                &&& r.is_ok()
                &&& r.unwrap().reply@ == response.choices@[0].message.content@
                &&& r.unwrap().history.is_some() == with_history(profile@)
                &&& with_history(profile@) ==> {
                    &&& r.unwrap().history.unwrap().file_name@ == history_file_name(
                        response.created,
                    )
                    &&& r.unwrap().history.unwrap().records.deep_view() == history_records(
                        message@,
                        response.choices@[0].message.content@,
                    )
                }
            },
            Outcome::Refused { status, body } => r.is_err() && r.unwrap_err()@ == (
            ErrorView::RequestFailed { status, body: body.deep_view() }),
            Outcome::Unreachable(cause) => r.is_err() && r.unwrap_err()@
                == ErrorView::TransportFailed(cause@),
        },
{
    match outcome {
        Outcome::Answered(response) => {
            let history = if uses_history(profile) {
                Some(history_entry(message, response))
            } else {
                None
            };
            Ok(Settled { reply: response.get_assistant_message(), history })
        },
        Outcome::Refused { status, body } => Err(
            Error::RequestFailed { status: *status, body: copy_text(body) },
        ),
        Outcome::Unreachable(cause) => Err(Error::TransportFailed(cause.clone())),
    }
}

} // verus!
