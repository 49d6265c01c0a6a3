use chatgpt_cli::api::{
    compose_request, uses_history, Choice, Message, RequestChatCompletion, ResponseChatCompletion,
    Role, TokenUsage,
};
use chatgpt_cli::config::{Fraction, Profile, DEFAULT_MODEL};
use chatgpt_cli::error::Error;
use chatgpt_cli::exchange::{authorization, history_entry, settle, HistoryEntry, Outcome, Settled};
use chatgpt_cli::messages::{RawSavedMessage, SavedMessage};

fn profile(name: &str) -> Profile {
    Profile {
        name: name.to_string(),
        source_profile: None,
        api_key: Some("sk-test".to_string()),
        organization_id: None,
        use_history: None,
        model: None,
        temperature: None,
        top_p: None,
        max_tokens: None,
        presence_penalty: None,
        frequency_penalty: None,
        user: None,
    }
}

fn response(created: u32, replies: &[&str]) -> ResponseChatCompletion {
    ResponseChatCompletion {
        id: "chatcmpl-1".to_string(),
        object: "chat.completion".to_string(),
        created,
        model: "gpt-3.5-turbo".to_string(),
        usage: Some(TokenUsage { prompt_tokens: 1, completion_tokens: 2, total_tokens: 3 }),
        choices: replies
            .iter()
            .enumerate()
            .map(|(i, text)| Choice {
                message: Message { role: Role::Assistant, content: text.to_string() },
                finish_reason: "stop".to_string(),
                index: i as u32,
            })
            .collect(),
    }
}

fn pre() -> Vec<SavedMessage> {
    vec![SavedMessage::System("be brief".to_string())]
}

fn past() -> Vec<SavedMessage> {
    vec![SavedMessage::User("old".to_string()), SavedMessage::Assistant("older".to_string())]
}

fn turn(role: Role, text: &str) -> Message {
    Message { role, content: text.to_string() }
}

#[test]
fn request_defaults_model_and_user() {
    let p = profile("default");
    let r = compose_request(&p, &pre(), &past(), "new");
    assert_eq!(
        r,
        RequestChatCompletion {
            model: "gpt-3.5-turbo".to_string(),
            messages: vec![
                turn(Role::System, "be brief"),
                turn(Role::User, "old"),
                turn(Role::Assistant, "older"),
                turn(Role::User, "new"),
            ],
            temperature: None,
            top_p: None,
            max_tokens: None,
            presence_penalty: None,
            frequency_penalty: None,
            user: Some("default".to_string()),
        }
    );
    assert_eq!(DEFAULT_MODEL, "gpt-3.5-turbo");
}

#[test]
fn request_passes_the_profile_settings_through() {
    let mut p = profile("work");
    p.model = Some("gpt-4".to_string());
    p.temperature = Some(Fraction { bits: 0.7f32.to_bits() });
    p.top_p = Some(Fraction { bits: 0.9f32.to_bits() });
    p.max_tokens = Some(256);
    p.presence_penalty = Some(Fraction { bits: 0.1f32.to_bits() });
    p.frequency_penalty = Some(Fraction { bits: 0.2f32.to_bits() });
    p.user = Some("alice".to_string());
    let r = compose_request(&p, &Vec::new(), &Vec::new(), "hello");
    assert_eq!(r.model, "gpt-4");
    assert_eq!(r.messages, vec![turn(Role::User, "hello")]);
    assert_eq!(r.temperature.map(|f| f32::from_bits(f.bits)), Some(0.7));
    assert_eq!(r.top_p.map(|f| f32::from_bits(f.bits)), Some(0.9));
    assert_eq!(r.max_tokens, Some(256));
    assert_eq!(r.presence_penalty.map(|f| f32::from_bits(f.bits)), Some(0.1));
    assert_eq!(r.frequency_penalty.map(|f| f32::from_bits(f.bits)), Some(0.2));
    assert_eq!(r.user, Some("alice".to_string()));
}

#[test]
fn history_switched_off_leaves_history_out() {
    let mut p = profile("default");
    p.use_history = Some(false);
    assert!(!uses_history(&p));
    let r = compose_request(&p, &pre(), &past(), "new");
    assert_eq!(r.messages, vec![turn(Role::System, "be brief"), turn(Role::User, "new")]);
    let none = compose_request(&p, &pre(), &Vec::new(), "new");
    assert_eq!(r, none);
}

#[test]
fn history_is_used_when_set_or_left_open() {
    let mut p = profile("default");
    assert!(uses_history(&p));
    p.use_history = Some(true);
    assert!(uses_history(&p));
    let r = compose_request(&p, &pre(), &past(), "new");
    assert_eq!(r.messages.len(), 4);
    assert_eq!(r.messages[3], turn(Role::User, "new"));
}

#[test]
fn first_reply_is_the_assistant_message() {
    let r = response(1, &["first", "second"]);
    assert_eq!(r.get_assistant_message(), "first");
    assert_eq!(r.first_reply(), Some("first".to_string()));
    assert_eq!(response(1, &[]).first_reply(), None);
}

#[test]
fn history_file_is_named_by_the_creation_time() {
    let entry = history_entry("what is up?", &response(1700000000, &["not much"]));
    assert_eq!(
        entry,
        HistoryEntry {
            file_name: "1700000000.yaml".to_string(),
            records: vec![
                RawSavedMessage {
                    system: None,
                    assistant: None,
                    user: Some("what is up?".to_string())
                },
                RawSavedMessage {
                    system: None,
                    assistant: Some("not much".to_string()),
                    user: None
                },
            ],
        }
    );
}

#[test]
fn history_file_names_at_the_ends_of_the_range() {
    assert_eq!(history_entry("m", &response(0, &["r"])).file_name, "0.yaml");
    assert_eq!(history_entry("m", &response(u32::MAX, &["r"])).file_name, "4294967295.yaml");
}

#[test]
fn answer_settles_with_reply_and_history() {
    let p = profile("default");
    let outcome = Outcome::Answered(response(1700000000, &["hello there"]));
    let settled = settle(&p, "hi", &outcome).unwrap();
    assert_eq!(settled.reply, "hello there");
    let entry = settled.history.unwrap();
    assert_eq!(entry.file_name, "1700000000.yaml");
    assert_eq!(entry.records.len(), 2);
    assert_eq!(entry.records[0].user, Some("hi".to_string()));
    assert_eq!(entry.records[1].assistant, Some("hello there".to_string()));
}

#[test]
fn answer_without_history_writes_no_file() {
    let mut p = profile("default");
    p.use_history = Some(false);
    let outcome = Outcome::Answered(response(1700000000, &["hello there"]));
    assert_eq!(
        settle(&p, "hi", &outcome),
        Ok(Settled { reply: "hello there".to_string(), history: None })
    );
}

#[test]
fn refusal_carries_status_and_body() {
    let p = profile("default");
    let outcome = Outcome::Refused { status: 429, body: Some("slow down".to_string()) };
    assert_eq!(
        settle(&p, "hi", &outcome),
        Err(Error::RequestFailed { status: 429, body: Some("slow down".to_string()) })
    );
    let outcome = Outcome::Refused { status: 500, body: None };
    assert_eq!(settle(&p, "hi", &outcome), Err(Error::RequestFailed { status: 500, body: None }));
}

#[test]
fn unreachable_service_is_a_transport_failure() {
    let p = profile("default");
    let outcome = Outcome::Unreachable("dns".to_string());
    assert_eq!(settle(&p, "hi", &outcome), Err(Error::TransportFailed("dns".to_string())));
}

#[test]
fn authorization_is_a_bearer_token() {
    let mut p = profile("default");
    assert_eq!(authorization(&p), Ok("Bearer sk-test".to_string()));
    p.api_key = None;
    assert_eq!(authorization(&p), Err(Error::MissingCredential));
}
