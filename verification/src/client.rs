use crate::error::Failure;
use crate::types::{
    conversation_view, outcome_view, Message, MessageResponse, MessageResponseView, MessageView,
};
use vstd::prelude::*;

verus! {

/// The model that every request asks for.
pub const MODEL: &'static str = "gpt-3.5-turbo";

/// The address that every request is posted to.
pub const ENDPOINT: &'static str = "https://api.openai.com/v1/chat/completions";

/// The sampling temperature of every request, in tenths: one half.
pub const TEMPERATURE_TENTHS: u32 = 5;

/// One request to the completion service.
#[derive(Debug, PartialEq, Eq)]
pub struct ChatRequest {
    pub model: String,
    pub messages: Vec<Message>,
    pub temperature_tenths: u32,
}

/// What a [`ChatRequest`] is to the contracts.
pub ghost struct ChatRequestView {
    pub model: Seq<char>,
    pub messages: Seq<MessageView>,
    pub temperature_tenths: u32,
}

impl View for ChatRequest {
    type V = ChatRequestView;

    open spec fn view(&self) -> ChatRequestView {
        ChatRequestView {
            model: self.model@,
            messages: conversation_view(self.messages),
            temperature_tenths: self.temperature_tenths,
        }
    }
}

/// The request that sends `conversation`: all of its messages in their order,
/// for the fixed model at the fixed temperature.
pub open spec fn spec_request(conversation: Seq<MessageView>) -> ChatRequestView {
    ChatRequestView {
        model: MODEL@,
        messages: conversation,
        temperature_tenths: TEMPERATURE_TENTHS,
    }
}

/// Returns the request that sends `history` followed by `new_message`.
pub fn request(history: &Vec<Message>, new_message: &Message) -> (request: ChatRequest)
    ensures
        request@ == spec_request(conversation_view(*history).push(new_message@)),
{
    let mut messages = history.clone();
    assert(messages@ =~= history@);
    messages.push(new_message.clone());
    assert(conversation_view(messages) =~= conversation_view(*history).push(new_message@));
    ChatRequest { model: MODEL.to_owned(), messages, temperature_tenths: TEMPERATURE_TENTHS }
}

/// What came of posting a request.
#[derive(Debug, PartialEq, Eq)]
pub enum Exchange {
    /// No answer came: the connection failed or timed out.
    Unreachable,
    /// An answer came whose body is no completion response.
    Undecodable,
    /// The response that came.
    Decoded(MessageResponse),
}

/// What an [`Exchange`] is to the contracts.
pub ghost enum ExchangeView {
    Unreachable,
    Undecodable,
    Decoded(MessageResponseView),
}

impl View for Exchange {
    type V = ExchangeView;

    open spec fn view(&self) -> ExchangeView {
        match self {
            Exchange::Unreachable => ExchangeView::Unreachable,
            Exchange::Undecodable => ExchangeView::Undecodable,
            Exchange::Decoded(response) => ExchangeView::Decoded(response@),
        }
    }
}

/// The response that an exchange brought, or the failure that it ended in. A
/// response without choices is a failure.
pub open spec fn spec_receive(exchange: ExchangeView) -> Result<MessageResponseView, Failure> {
    match exchange {
        ExchangeView::Unreachable => Err(Failure::Network),
        ExchangeView::Undecodable => Err(Failure::Decode),
        ExchangeView::Decoded(response) => if response.choices.len() == 0 {
            Err(Failure::EmptyResponse)
        } else {
            Ok(response)
        },
    }
}

/// The message that an exchange adds to the conversation: that of the first
/// choice of the response.
pub open spec fn spec_reply(exchange: ExchangeView) -> Result<MessageView, Failure> {
    match spec_receive(exchange) {
        Ok(response) => Ok(response.choices[0].message),
        Err(failure) => Err(failure),
    }
}

/// The model of a response that may have failed to come.
pub open spec fn received_view(received: Result<MessageResponse, Failure>) -> Result<
    MessageResponseView,
    Failure,
> {
    match received {
        Ok(response) => Ok(response@),
        Err(failure) => Err(failure),
    }
}

/// Returns the response that `exchange` brought, or the failure that it ended
/// in.
pub fn receive(exchange: Exchange) -> (received: Result<MessageResponse, Failure>)
    ensures
        received_view(received) == spec_receive(exchange@),
{
    match exchange {
        Exchange::Unreachable => Err(Failure::Network),
        Exchange::Undecodable => Err(Failure::Decode),
        Exchange::Decoded(response) => {
            if response.choices.len() == 0 {
                Err(Failure::EmptyResponse)
            } else {
                Ok(response)
            }
        },
    }
}

/// Returns the message that `exchange` adds to the conversation, or the
/// failure that it ended in.
pub fn reply(exchange: Exchange) -> (reply: Result<Message, Failure>)
    ensures
        outcome_view(reply) == spec_reply(exchange@),
{
    match receive(exchange) {
        Ok(response) => response.try_into(),
        Err(failure) => Err(failure),
    }
}

} // verus!
