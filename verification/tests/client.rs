use cgpt::client::{receive, reply, request, ChatRequest, Exchange, ENDPOINT, MODEL, TEMPERATURE_TENTHS};
use cgpt::config::{Configuration, CONFIGURATION_FILE, CONVERSATIONS, DEFAULT_CHAT};
use cgpt::error::Failure;
use cgpt::types::{Message, MessageChoice, MessageResponse, Role, Usage};

fn message(role: Role, content: &str) -> Message {
    Message { role, content: content.to_string() }
}

fn response(replies: &[&str]) -> MessageResponse {
    let mut choices = Vec::new();
    for (index, text) in replies.iter().enumerate() {
        choices.push(MessageChoice {
            index: index as u32,
            message: message(Role::Assistant, text),
            finish_reason: "stop".to_string(),
        });
    }
    MessageResponse {
        id: "chatcmpl-7".to_string(),
        object: "chat.completion".to_string(),
        created: 1_700_000_123,
        choices,
        usage: Usage { completion_tokens: 2, prompt_tokens: 9, total_tokens: 11 },
    }
}

#[test]
fn fixed_request_parameters() {
    assert_eq!(MODEL, "gpt-3.5-turbo");
    assert_eq!(ENDPOINT, "https://api.openai.com/v1/chat/completions");
    assert_eq!(TEMPERATURE_TENTHS, 5);
    assert_eq!(f64::from(TEMPERATURE_TENTHS) / 10.0, 0.5);
}

#[test]
fn request_appends_the_new_message() {
    let history = vec![message(Role::User, "A"), message(Role::Assistant, "B")];
    let sent = request(&history, &message(Role::User, "C"));
    assert_eq!(
        sent,
        ChatRequest {
            model: "gpt-3.5-turbo".to_string(),
            messages: vec![
                message(Role::User, "A"),
                message(Role::Assistant, "B"),
                message(Role::User, "C"),
            ],
            temperature_tenths: 5,
        }
    );
    assert_eq!(history.len(), 2);
}

#[test]
fn request_keeps_duplicates_and_order() {
    let history = vec![message(Role::User, "A"), message(Role::User, "A")];
    let sent = request(&history, &message(Role::User, "A"));
    assert_eq!(sent.messages, vec![message(Role::User, "A"); 3]);
}

#[test]
fn request_on_empty_history() {
    let sent = request(&Vec::new(), &message(Role::User, "Hello"));
    assert_eq!(sent.messages, vec![message(Role::User, "Hello")]);
}

#[test]
fn receive_tells_the_failures_apart() {
    assert_eq!(receive(Exchange::Unreachable), Err(Failure::Network));
    assert_eq!(receive(Exchange::Undecodable), Err(Failure::Decode));
    assert_eq!(receive(Exchange::Decoded(response(&[]))), Err(Failure::EmptyResponse));
}

#[test]
fn receive_hands_the_response_on() {
    assert_eq!(receive(Exchange::Decoded(response(&["Hi", "Ho"]))), Ok(response(&["Hi", "Ho"])));
}

#[test]
fn reply_is_the_first_choice() {
    assert_eq!(reply(Exchange::Decoded(response(&["one"]))), Ok(message(Role::Assistant, "one")));
    assert_eq!(
        reply(Exchange::Decoded(response(&["one", "two", "three"]))),
        Ok(message(Role::Assistant, "one"))
    );
}

#[test]
fn reply_fails_as_the_exchange_did() {
    assert_eq!(reply(Exchange::Unreachable), Err(Failure::Network));
    assert_eq!(reply(Exchange::Undecodable), Err(Failure::Decode));
    assert_eq!(reply(Exchange::Decoded(response(&[]))), Err(Failure::EmptyResponse));
}

#[test]
fn default_configuration() {
    assert_eq!(CONFIGURATION_FILE, ".config/cgpt/.cf");
    assert_eq!(CONVERSATIONS, ".config/cgpt/conversations");
    assert_eq!(DEFAULT_CHAT, "chat");
    assert_eq!(
        Configuration::defaults("/home/u"),
        Configuration {
            save_path: "/home/u/.config/cgpt/conversations".to_string(),
            current_chat: "chat".to_string(),
        }
    );
}

#[test]
fn checkout_keeps_the_directory() {
    let before = Configuration { save_path: "/data".to_string(), current_chat: "chat".to_string() };
    assert_eq!(
        before.checkout("work".to_string()),
        Configuration { save_path: "/data".to_string(), current_chat: "work".to_string() }
    );
}
