use cgpt::error::Failure;
use cgpt::types::{Message, MessageChoice, MessageResponse, Role, Usage};

fn choice(index: u32, role: Role, content: &str) -> MessageChoice {
    MessageChoice {
        index,
        message: Message { role, content: content.to_string() },
        finish_reason: "stop".to_string(),
    }
}

fn response(choices: Vec<MessageChoice>) -> MessageResponse {
    MessageResponse {
        id: "chatcmpl-1".to_string(),
        object: "chat.completion".to_string(),
        created: 1_700_000_000,
        choices,
        usage: Usage { completion_tokens: 3, prompt_tokens: 5, total_tokens: 8 },
    }
}

#[test]
fn into_keeps_the_order_of_the_choices() {
    let r = response(vec![
        choice(0, Role::Assistant, "first"),
        choice(1, Role::Assistant, "second"),
        choice(2, Role::User, "third"),
    ]);
    let messages: Vec<Message> = r.into();
    assert_eq!(
        messages,
        vec![
            Message { role: Role::Assistant, content: "first".to_string() },
            Message { role: Role::Assistant, content: "second".to_string() },
            Message { role: Role::User, content: "third".to_string() },
        ]
    );
}

#[test]
fn try_into_takes_the_first_choice() {
    let r = response(vec![choice(0, Role::Assistant, "Hi there"), choice(1, Role::Assistant, "Hello")]);
    let first: Result<Message, Failure> = r.try_into();
    assert_eq!(first, Ok(Message { role: Role::Assistant, content: "Hi there".to_string() }));
}

#[test]
fn try_into_fails_on_no_choice() {
    let first: Result<Message, Failure> = response(vec![]).try_into();
    assert_eq!(first, Err(Failure::EmptyResponse));
}
