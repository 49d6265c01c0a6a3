//! Saved messages: one turn of a conversation, and the record that holds it on disk.

use vstd::prelude::*;
use vstd::std_specs::convert::{FromSpec, FromSpecImpl, TryFromSpec, TryFromSpecImpl};
use crate::api::{Role, Turn};
use crate::error::Error;

verus! {

/// One turn of a conversation, kept in a file of pre-set messages or of history.
#[derive(Debug, PartialEq, Eq)]
pub enum SavedMessage {
    System(String),
    Assistant(String),
    User(String),
}

impl View for SavedMessage {
    type V = Turn;

    open spec fn view(&self) -> Turn {
        match *self {
            SavedMessage::System(text) => Turn { role: Role::System, content: text@ },
            SavedMessage::Assistant(text) => Turn { role: Role::Assistant, content: text@ },
            SavedMessage::User(text) => Turn { role: Role::User, content: text@ },
        }
    }
}

impl DeepView for SavedMessage {
    type V = Turn;

    open spec fn deep_view(&self) -> Turn {
        self@
    }
}

/// A saved message as it stands in a file: one text field for each role,
/// of which a well-formed record sets exactly one.
#[derive(Debug, PartialEq, Eq)]
pub struct RawSavedMessage {
    pub system: Option<String>,
    pub assistant: Option<String>,
    pub user: Option<String>,
}

/// A [`RawSavedMessage`] with its texts as sequences of characters.
pub struct Record {
    pub system: Option<Seq<char>>,
    pub assistant: Option<Seq<char>>,
    pub user: Option<Seq<char>>,
}

impl View for RawSavedMessage {
    type V = Record;

    open spec fn view(&self) -> Record {
        Record {
            system: self.system.deep_view(),
            assistant: self.assistant.deep_view(),
            user: self.user.deep_view(),
        }
    }
}

impl DeepView for RawSavedMessage {
    type V = Record;

    open spec fn deep_view(&self) -> Record {
        self@
    }
}

impl Clone for SavedMessage {
    fn clone(&self) -> (r: SavedMessage)
        ensures
            r == *self,
    {
        match self {
            SavedMessage::System(text) => SavedMessage::System(text.clone()),
            SavedMessage::Assistant(text) => SavedMessage::Assistant(text.clone()),
            SavedMessage::User(text) => SavedMessage::User(text.clone()),
        }
    }
}

impl Clone for RawSavedMessage {
    fn clone(&self) -> (r: RawSavedMessage)
        ensures
            r == *self,
    {
        RawSavedMessage {
            system: same_text(&self.system),
            assistant: same_text(&self.assistant),
            user: same_text(&self.user),
        }
    }
}

fn same_text(text: &Option<String>) -> (r: Option<String>)
    ensures
        r == *text,
{
    match text {
        Some(s) => Some(s.clone()),
        None => None,
    }
}

/// The record that holds the turn `t`: the field of its role set to its text,
/// the two others unset.
pub open spec fn record_of(t: Turn) -> Record {
    match t.role {
        Role::System => Record { system: Some(t.content), assistant: None, user: None },
        Role::Assistant => Record { system: None, assistant: Some(t.content), user: None },
        Role::User => Record { system: None, assistant: None, user: Some(t.content) },
    }
}

/// The turn that the record `r` holds: the first field that is set, looking at
/// `system`, then `assistant`, then `user`; none where no field is set.
pub open spec fn turn_of(r: Record) -> Option<Turn> {
    if let Some(text) = r.system {
        Some(Turn { role: Role::System, content: text })
    } else if let Some(text) = r.assistant {
        Some(Turn { role: Role::Assistant, content: text })
    } else if let Some(text) = r.user {
        Some(Turn { role: Role::User, content: text })
    } else {
        None
    }
}

impl From<SavedMessage> for RawSavedMessage {
    /// Writes a saved message as a record with the one field of its role.
    fn from(value: SavedMessage) -> (r: RawSavedMessage) {
        match value {
            SavedMessage::System(text) => RawSavedMessage {
                system: Some(text),
                assistant: None,
                user: None,
            },
            SavedMessage::Assistant(text) => RawSavedMessage {
                system: None,
                assistant: Some(text),
                user: None,
            },
            SavedMessage::User(text) => RawSavedMessage {
                system: None,
                assistant: None,
                user: Some(text),
            },
        }
    }
}

impl FromSpecImpl<SavedMessage> for RawSavedMessage {
    open spec fn obeys_from_spec() -> bool {
        true
    }

    open spec fn from_spec(value: SavedMessage) -> RawSavedMessage {
        match value {
            SavedMessage::System(text) => RawSavedMessage {
                system: Some(text),
                assistant: None,
                user: None,
            },
            SavedMessage::Assistant(text) => RawSavedMessage {
                system: None,
                assistant: Some(text),
                user: None,
            },
            SavedMessage::User(text) => RawSavedMessage {
                system: None,
                assistant: None,
                user: Some(text),
            },
        }
    }
}

impl TryFrom<RawSavedMessage> for SavedMessage {
    type Error = Error;

    /// Reads the message that a record holds; a record with no field set holds none.
    fn try_from(value: RawSavedMessage) -> (r: Result<SavedMessage, Error>) {
        if let Some(text) = value.system {
            Ok(SavedMessage::System(text))
        } else if let Some(text) = value.assistant {
            Ok(SavedMessage::Assistant(text))
        } else if let Some(text) = value.user {
            Ok(SavedMessage::User(text))
        } else {
            Err(Error::EmptyMessageRecord)
        }
    }
}

impl TryFromSpecImpl<RawSavedMessage> for SavedMessage {
    open spec fn obeys_try_from_spec() -> bool {
        true
    }

    open spec fn try_from_spec(value: RawSavedMessage) -> Result<SavedMessage, Error> {
        if let Some(text) = value.system {
            Ok(SavedMessage::System(text))
        } else if let Some(text) = value.assistant {
            Ok(SavedMessage::Assistant(text))
        } else if let Some(text) = value.user {
            Ok(SavedMessage::User(text))
        } else {
            Err(Error::EmptyMessageRecord)
        }
    }
}

/// The record that `from` makes of the message `m`.
pub open spec fn written(m: SavedMessage) -> RawSavedMessage {
    <RawSavedMessage as FromSpec<SavedMessage>>::from_spec(m)
}

/// The message that `try_from` reads in the record `r`, or its failure.
pub open spec fn read_back(r: RawSavedMessage) -> Result<SavedMessage, Error> {
    <SavedMessage as TryFromSpec<RawSavedMessage>>::try_from_spec(r)
}

/// Writing a message as a record gives the record of its turn.
pub proof fn lemma_from_is_record_of(m: SavedMessage)
    ensures
        written(m)@ == record_of(m@),
{
}

/// Reading a record gives the turn that it holds, and fails exactly where
/// the record sets no field.
pub proof fn lemma_try_from_is_turn_of(r: RawSavedMessage)
    ensures
        match read_back(r) {
            Ok(m) => turn_of(r@) == Some(m@),
            Err(e) => e == Error::EmptyMessageRecord && turn_of(r@).is_none(),
        },
        read_back(r).is_err() <==> r.system.is_none() && r.assistant.is_none()
            && r.user.is_none(),
{
}

/// A message written as a record and read back is the message that was written:
/// the same role and the same text.
pub proof fn lemma_record_round_trip(m: SavedMessage)
    ensures
        read_back(written(m)) == Ok::<SavedMessage, Error>(m),
        turn_of(record_of(m@)) == Some(m@),
{
}

} // verus!
