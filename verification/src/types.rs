use crate::error::Failure;
use vstd::prelude::*;

verus! {

/// Who authored a message.
#[derive(Debug, Clone, Copy, PartialEq, Eq, PartialOrd, Ord, Structural)]
pub enum Role {
    System,
    User,
    Assistant,
}

impl Role {
    /// The lowercase name under which a role travels in text form.
    pub open spec fn spec_name(self) -> Seq<char> {
        match self {
            Role::System => "system"@,
            Role::User => "user"@,
            Role::Assistant => "assistant"@,
        }
    }

    /// Returns the lowercase name of the role.
    pub fn name(&self) -> (name: &'static str)
        ensures
            name@ == self.spec_name(),
    {
        match self {
            Role::System => "system",
            Role::User => "user",
            Role::Assistant => "assistant",
        }
    }

    /// The role that goes by `name`, if there is one.
    pub open spec fn spec_from_name(name: Seq<char>) -> Option<Role> {
        if name == Role::System.spec_name() {
            Some(Role::System)
        } else if name == Role::User.spec_name() {
            Some(Role::User)
        } else if name == Role::Assistant.spec_name() {
            Some(Role::Assistant)
        } else {
            None
        }
    }

    /// Returns the role that goes by `name`; `None` where `name` is no role's
    /// lowercase name.
    pub fn from_name(name: &str) -> (role: Option<Role>)
        ensures
            role == Role::spec_from_name(name@),
            role matches Some(found) ==> found.spec_name() == name@,
            role is None ==> forall|other: Role| other.spec_name() != name@,
    {
        let given = name.to_owned();
        if given == Role::System.name().to_owned() {
            Some(Role::System)
        } else if given == Role::User.name().to_owned() {
            Some(Role::User)
        } else if given == Role::Assistant.name().to_owned() {
            Some(Role::Assistant)
        } else {
            None
        }
    }
}

/// Every role is found again by its own name: no two roles share one.
pub proof fn law_role_names_round_trip(role: Role)
    ensures
        Role::spec_from_name(role.spec_name()) == Some(role),
{
    reveal_strlit("system");
    reveal_strlit("user");
    reveal_strlit("assistant");
    assert(Role::System.spec_name().len() == 6);
    assert(Role::User.spec_name().len() == 4);
    assert(Role::Assistant.spec_name().len() == 9);
}

/// A name that is found belongs to the role that was found.
pub proof fn law_role_found_by_its_name(name: Seq<char>, role: Role)
    requires
        Role::spec_from_name(name) == Some(role),
    ensures
        role.spec_name() == name,
{
}

/// One turn of a conversation.
#[derive(Debug, Eq)]
pub struct Message {
    pub role: Role,
    pub content: String,
}

/// What a [`Message`] is to the contracts: its role and the characters of its text.
pub ghost struct MessageView {
    pub role: Role,
    pub content: Seq<char>,
}

impl View for Message {
    type V = MessageView;

    open spec fn view(&self) -> MessageView {
        MessageView { role: self.role, content: self.content@ }
    }
}

impl Clone for Message {
    fn clone(&self) -> (copy: Message)
        ensures
            copy == *self,
    {
        Message { role: self.role, content: self.content.clone() }
    }
}

impl PartialEq for Message {
    fn eq(&self, other: &Message) -> (same: bool) {
        self.role == other.role && self.content == other.content
    }
}

impl vstd::std_specs::cmp::PartialEqSpecImpl for Message {
    open spec fn obeys_eq_spec() -> bool {
        true
    }

    open spec fn eq_spec(&self, other: &Message) -> bool {
        self@ == other@
    }
}

/// The models of the messages of `messages`, in the same order.
pub open spec fn message_views(messages: Seq<Message>) -> Seq<MessageView> {
    messages.map_values(|m: Message| m@)
}

/// The models of the messages that `messages` holds, in the same order.
pub open spec fn conversation_view(messages: Vec<Message>) -> Seq<MessageView> {
    message_views(messages@)
}

/// The model of a message that may have failed to come.
pub open spec fn outcome_view(outcome: Result<Message, Failure>) -> Result<MessageView, Failure> {
    match outcome {
        Ok(message) => Ok(message@),
        Err(failure) => Err(failure),
    }
}

/// Token counts that the service reports.
#[derive(Debug, Clone, Copy, PartialEq, Eq, Structural)]
pub struct Usage {
    pub completion_tokens: u32,
    pub prompt_tokens: u32,
    pub total_tokens: u32,
}

/// One candidate completion.
#[derive(Debug, PartialEq, Eq)]
pub struct MessageChoice {
    pub index: u32,
    pub message: Message,
    pub finish_reason: String,
}

/// What a [`MessageChoice`] is to the contracts.
pub ghost struct MessageChoiceView {
    pub index: u32,
    pub message: MessageView,
    pub finish_reason: Seq<char>,
}

impl View for MessageChoice {
    type V = MessageChoiceView;

    open spec fn view(&self) -> MessageChoiceView {
        MessageChoiceView {
            index: self.index,
            message: self.message@,
            finish_reason: self.finish_reason@,
        }
    }
}

/// The reply of the service, as it came.
#[derive(Debug, PartialEq, Eq)]
pub struct MessageResponse {
    pub id: String,
    pub object: String,
    pub created: u64,
    pub choices: Vec<MessageChoice>,
    pub usage: Usage,
}

/// What a [`MessageResponse`] is to the contracts: its fields, with the
/// choices in the order in which they came.
pub ghost struct MessageResponseView {
    pub id: Seq<char>,
    pub object: Seq<char>,
    pub created: u64,
    pub choices: Seq<MessageChoiceView>,
    pub usage: Usage,
}

impl MessageResponseView {
    /// The messages of the choices, in the order of the choices.
    pub open spec fn messages(self) -> Seq<MessageView> {
        self.choices.map_values(|c: MessageChoiceView| c.message)
    }

    /// The message of the first choice, where there is one.
    pub open spec fn first_message(self) -> Result<MessageView, Failure> {
        if self.choices.len() == 0 {
            Err(Failure::EmptyResponse)
        } else {
            Ok(self.choices[0].message)
        }
    }
}

impl View for MessageResponse {
    type V = MessageResponseView;

    open spec fn view(&self) -> MessageResponseView {
        MessageResponseView {
            id: self.id@,
            object: self.object@,
            created: self.created,
            choices: self.choices@.map_values(|c: MessageChoice| c@),
            usage: self.usage,
        }
    }
}

impl MessageResponse {
    /// The messages of the choices themselves, in the order of the choices.
    pub open spec fn spec_messages(self) -> Seq<Message> {
        self.choices@.map_values(|c: MessageChoice| c.message)
    }

    /// The first choice's message itself, where there is one.
    pub open spec fn spec_first_message(self) -> Result<Message, Failure> {
        if self.choices@.len() == 0 {
            Err(Failure::EmptyResponse)
        } else {
            Ok(self.choices@[0].message)
        }
    }
}

impl Into<Vec<Message>> for MessageResponse {
    /// Gives the messages of all choices, in the order of the choices.
    fn into(self) -> (messages: Vec<Message>)
        ensures
            conversation_view(messages) == self@.messages(),
            messages@ == self.spec_messages(),
    {
        let ghost choices = self.choices@;
        let mut messages: Vec<Message> = Vec::new();
        for choice in it: self.choices
            invariant
                it.seq() == choices,
                messages@.len() == it.index(),
                forall|j: int| 0 <= j < it.index() ==> #[trigger] messages@[j] == choices[j].message,
        {
            messages.push(choice.message);
        }
        assert(messages@ =~= self.spec_messages());
        assert(conversation_view(messages) =~= self@.messages());
        messages
    }
}

/// The vector that `into` returns is new: no function of the response names
/// it. What it holds is stated by the `ensures` of `into`.
impl vstd::std_specs::convert::IntoSpecImpl<Vec<Message>> for MessageResponse {
    open spec fn obeys_into_spec() -> bool {
        false
    }

    open spec fn into_spec(self) -> Vec<Message> {
        arbitrary()
    }
}

impl TryInto<Message> for MessageResponse {
    type Error = Failure;

    /// Gives the message of the first choice; a response without choices is a failure.
    fn try_into(self) -> (first: Result<Message, Failure>)
        ensures
            outcome_view(first) == self@.first_message(),
    {
        let mut messages: Vec<Message> = self.into();
        assert(messages@.len() > 0 ==> messages@[0] == self.choices@[0].message);
        if messages.len() == 0 {
            Err(Failure::EmptyResponse)
        } else {
            Ok(messages.swap_remove(0))
        }
    }
}

impl vstd::std_specs::convert::TryIntoSpecImpl<Message> for MessageResponse {
    open spec fn obeys_try_into_spec() -> bool {
        true
    }

    open spec fn try_into_spec(self) -> Result<Message, Failure> {
        self.spec_first_message()
    }
}

} // verus!
