//! The request sent to the chat-completion service, the response that
//! comes back, and how a request is put together from a resolved profile.

use vstd::prelude::*;
use vstd::std_specs::convert::{FromSpec, FromSpecImpl};
use crate::config::{Fraction, Profile, ProfileView, DEFAULT_MODEL};
use crate::messages::SavedMessage;

verus! {

/// Who speaks in a turn of the conversation.
#[derive(Debug, Clone, Copy, PartialEq, Eq, Structural)]
pub enum Role {
    User,
    Assistant,
    System,
}

/// One turn of a conversation as a value: who speaks, and the text.
pub struct Turn {
    pub role: Role,
    pub content: Seq<char>,
}

/// One turn of the conversation as the service takes it.
#[derive(Debug, PartialEq, Eq)]
pub struct Message {
    pub role: Role,
    pub content: String,
}

impl View for Message {
    type V = Turn;

    open spec fn view(&self) -> Turn {
        Turn { role: self.role, content: self.content@ }
    }
}

impl DeepView for Message {
    type V = Turn;

    open spec fn deep_view(&self) -> Turn {
        self@
    }
}

impl Clone for Message {
    fn clone(&self) -> (r: Message)
        ensures
            r@ == self@,
    {
        Message { role: self.role, content: self.content.clone() }
    }
}

impl<'a> From<&'a SavedMessage> for Message {
    /// The turn of a saved message, as the service takes it.
    fn from(value: &'a SavedMessage) -> (r: Message) {
        match value {
            SavedMessage::System(text) => Message { role: Role::System, content: text.clone() },
            SavedMessage::Assistant(text) => Message {
                role: Role::Assistant,
                content: text.clone(),
            },
            SavedMessage::User(text) => Message { role: Role::User, content: text.clone() },
        }
    }
}

impl<'a> FromSpecImpl<&'a SavedMessage> for Message {
    open spec fn obeys_from_spec() -> bool {
        true
    }

    open spec fn from_spec(value: &'a SavedMessage) -> Message {
        match *value {
            SavedMessage::System(text) => Message { role: Role::System, content: text },
            SavedMessage::Assistant(text) => Message { role: Role::Assistant, content: text },
            SavedMessage::User(text) => Message { role: Role::User, content: text },
        }
    }
}

/// A saved message and the message made of it are the same turn.
pub proof fn lemma_message_keeps_turn(m: &SavedMessage)
    ensures
        <Message as FromSpec<&SavedMessage>>::from_spec(m)@ == m@,
{
}

/// What is sent to the service: the model, the conversation, and the
/// sampling parameters that the profile sets.
#[derive(Debug, PartialEq, Eq)]
pub struct RequestChatCompletion {
    pub model: String,
    pub messages: Vec<Message>,
    pub temperature: Option<Fraction>,
    pub top_p: Option<Fraction>,
    pub max_tokens: Option<u64>,
    pub presence_penalty: Option<Fraction>,
    pub frequency_penalty: Option<Fraction>,
    pub user: Option<String>,
}

/// A [`RequestChatCompletion`] with its texts as sequences of characters.
pub struct RequestView {
    pub model: Seq<char>,
    pub messages: Seq<Turn>,
    pub temperature: Option<Fraction>,
    pub top_p: Option<Fraction>,
    pub max_tokens: Option<u64>,
    pub presence_penalty: Option<Fraction>,
    pub frequency_penalty: Option<Fraction>,
    pub user: Option<Seq<char>>,
}

impl View for RequestChatCompletion {
    type V = RequestView;

    open spec fn view(&self) -> RequestView {
        RequestView {
            model: self.model@,
            messages: self.messages.deep_view(),
            temperature: self.temperature,
            top_p: self.top_p,
            max_tokens: self.max_tokens,
            presence_penalty: self.presence_penalty,
            frequency_penalty: self.frequency_penalty,
            user: self.user.deep_view(),
        }
    }
}

/// The count of tokens that an exchange took.
#[derive(Debug, Clone, Copy, PartialEq, Eq, Structural)]
pub struct TokenUsage {
    pub prompt_tokens: u32,
    pub completion_tokens: u32,
    pub total_tokens: u32,
}

/// One of the replies that the service offers.
#[derive(Debug, PartialEq, Eq)]
pub struct Choice {
    pub message: Message,
    pub finish_reason: String,
    pub index: u32,
}

/// What the service answers.
#[derive(Debug, PartialEq, Eq)]
pub struct ResponseChatCompletion {
    pub id: String,
    pub object: String,
    pub created: u32,
    pub model: String,
    pub usage: Option<TokenUsage>,
    pub choices: Vec<Choice>,
}

impl ResponseChatCompletion {
    /// The text of the first reply.
    pub fn get_assistant_message(&self) -> (r: String)
        requires
            self.choices@.len() > 0,
        ensures
            r@ == self.choices@[0].message.content@,
    {
        self.choices[0].message.content.clone()
    }

    /// The text of the first reply, if the service gave any.
    pub fn first_reply(&self) -> (r: Option<String>)
        ensures
            r.deep_view() == (if self.choices@.len() > 0 {
                Some(self.choices@[0].message.content@)
            } else {
                None
            }),
    {
        if self.choices.len() > 0 {
            Some(self.get_assistant_message())
        } else {
            None
        }
    }
}

/// History is part of the conversation unless the profile switches it off.
pub open spec fn with_history(p: ProfileView) -> bool {
    p.use_history != Some(false)
}

/// The conversation that is sent: the pre-set messages, then the history
/// where the profile uses it, then the new message as the user's turn.
pub open spec fn conversation(
    p: ProfileView,
    pre_messages: Seq<Turn>,
    histories: Seq<Turn>,
    message: Seq<char>,
) -> Seq<Turn> {
    pre_messages + (if with_history(p) {
        histories
    } else {
        Seq::empty()
    }) + seq![Turn { role: Role::User, content: message }]
}

/// The request for the resolved profile `p`: its model or the default one,
/// the conversation, the sampling parameters as the profile has them, and
/// as the user's identity the one it names or else its own name.
pub open spec fn request_for(
    p: ProfileView,
    pre_messages: Seq<Turn>,
    histories: Seq<Turn>,
    message: Seq<char>,
) -> RequestView {
    RequestView {
        model: match p.model {
            Some(model) => model,
            None => DEFAULT_MODEL@,
        },
        messages: conversation(p, pre_messages, histories, message),
        temperature: p.temperature,
        top_p: p.top_p,
        max_tokens: p.max_tokens,
        presence_penalty: p.presence_penalty,
        frequency_penalty: p.frequency_penalty,
        user: Some(
            match p.user {
                Some(user) => user,
                None => p.name,
            },
        ),
    }
}

/// Whether the profile takes history into the conversation and records
/// the exchange.
pub fn uses_history(profile: &Profile) -> (r: bool)
    ensures
        r == with_history(profile@),
{
    match profile.use_history {
        Some(flag) => flag,
        None => true,
    }
}

fn push_turns(out: &mut Vec<Message>, from: &Vec<SavedMessage>)
    ensures
        final(out).deep_view() == old(out).deep_view() + from.deep_view(),
{
    let ghost before = out.deep_view();
    let mut i: usize = 0;
    while i < from.len()
        invariant
            i <= from.len(),
            out.deep_view() == before + from.deep_view().subrange(0, i as int),
        decreases from.len() - i,
    {
        let ghost so_far = out.deep_view();
        let m = Message::from(&from[i]);
        assert(m@ == from@[i as int]@);
        out.push(m);
        assert(out.deep_view() =~= so_far.push(from@[i as int]@));
        assert(from.deep_view().subrange(0, i + 1) =~= from.deep_view().subrange(0, i as int).push(
            from@[i as int]@,
        ));
        i += 1;
    }
    assert(from.deep_view().subrange(0, i as int) =~= from.deep_view());
}

/// Puts the request together for a resolved profile.
///
/// The history is left out where the profile switches it off, whatever
/// `histories` holds.
pub fn compose_request(
    profile: &Profile,
    pre_messages: &Vec<SavedMessage>,
    histories: &Vec<SavedMessage>,
    message: &str,
) -> (r: RequestChatCompletion)
    ensures
        r@ == request_for(
            profile@,
            pre_messages.deep_view(),
            histories.deep_view(),
            message@,
        ),
{
    let mut messages: Vec<Message> = Vec::new();
    assert(messages.deep_view() =~= Seq::<Turn>::empty());
    push_turns(&mut messages, pre_messages);
    if uses_history(profile) {
        push_turns(&mut messages, histories);
    }
    messages.push(Message { role: Role::User, content: String::from_str(message) });
    assert(messages.deep_view() =~= conversation(
        profile@,
        pre_messages.deep_view(),
        histories.deep_view(),
        message@,
    ));
    RequestChatCompletion {
        model: match &profile.model {
            Some(model) => model.clone(),
            None => String::from_str(DEFAULT_MODEL),
        },
        messages,
        temperature: profile.temperature,
        top_p: profile.top_p,
        max_tokens: profile.max_tokens,
        presence_penalty: profile.presence_penalty,
        frequency_penalty: profile.frequency_penalty,
        user: match &profile.user {
            Some(user) => Some(user.clone()),
            None => Some(profile.name.clone()),
        },
    }
}

/// A profile that switches history off gets a conversation of the pre-set
/// messages and the new message alone, whatever the history holds.
pub proof fn lemma_history_off(
    p: ProfileView,
    pre_messages: Seq<Turn>,
    histories: Seq<Turn>,
    message: Seq<char>,
)
    requires
        p.use_history == Some(false),
    ensures
        conversation(p, pre_messages, histories, message) == pre_messages.push(
            Turn { role: Role::User, content: message },
        ),
        request_for(p, pre_messages, histories, message) == request_for(
            p,
            pre_messages,
            Seq::empty(),
            message,
        ),
{
    assert(conversation(p, pre_messages, histories, message) =~= pre_messages.push(
        Turn { role: Role::User, content: message },
    ));
}

} // verus!
