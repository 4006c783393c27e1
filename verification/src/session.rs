use crate::client::{reply, request, spec_reply, spec_request, ChatRequest, ChatRequestView, Exchange, ExchangeView};
use crate::config::{Configuration, ConfigurationView, CONFIGURATION_FILE};
use crate::error::Failure;
use crate::history::{join, load, spec_join, spec_load, ReadOutcome, ReadOutcomeView};
use crate::types::{conversation_view, Message, MessageView, Role};
use vstd::prelude::*;

verus! {

/// What the user asked for on the command line.
#[derive(Debug, PartialEq, Eq)]
pub enum Command {
    /// Continue a conversation with `text`: the one that goes by `id`, or the
    /// current one. With `no_save` the exchange is not added to its history.
    Message { text: String, id: Option<String>, no_save: bool },
    /// Send `text` on its own, after `prompt` as a system message if there is
    /// one. Nothing is read from a history and nothing is kept.
    Ask { text: String, prompt: Option<String> },
    /// Make `target` the current conversation.
    Checkout { target: String },
}

/// What a [`Command`] is to the contracts.
pub ghost enum CommandView {
    Message { text: Seq<char>, id: Option<Seq<char>>, no_save: bool },
    Ask { text: Seq<char>, prompt: Option<Seq<char>> },
    Checkout { target: Seq<char> },
}

impl View for Command {
    type V = CommandView;

    open spec fn view(&self) -> CommandView {
        match self {
            Command::Message { text, id, no_save } => CommandView::Message {
                text: text@,
                id: id.deep_view(),
                no_save: *no_save,
            },
            Command::Ask { text, prompt } => CommandView::Ask {
                text: text@,
                prompt: prompt.deep_view(),
            },
            Command::Checkout { target } => CommandView::Checkout { target: target@ },
        }
    }
}

/// What came of reading the stored configuration.
#[derive(Debug, PartialEq, Eq)]
pub enum Stored {
    /// The configuration that is stored.
    Found(Configuration),
    /// The file could not be read: the defaults hold.
    Missing,
    /// The file was read and is no configuration.
    Broken,
}

/// What a [`Stored`] is to the contracts.
pub ghost enum StoredView {
    Found(ConfigurationView),
    Missing,
    Broken,
}

impl View for Stored {
    type V = StoredView;

    open spec fn view(&self) -> StoredView {
        match self {
            Stored::Found(configuration) => StoredView::Found(configuration@),
            Stored::Missing => StoredView::Missing,
            Stored::Broken => StoredView::Broken,
        }
    }
}

/// What the caller reports after it has done what the session asked for.
#[derive(Debug, PartialEq, Eq)]
pub enum Event {
    /// The stored configuration was read.
    Configured(Stored),
    /// The stored history was read.
    HistoryRead(ReadOutcome),
    /// The request was posted.
    Exchanged(Exchange),
    /// The reply was shown to the user.
    Printed,
    /// The history was written, or (`false`) could not be written.
    Saved(bool),
    /// The configuration was written, or (`false`) could not be written.
    ConfigurationStored(bool),
}

/// What a [`Event`] is to the contracts.
pub ghost enum EventView {
    Configured(StoredView),
    HistoryRead(ReadOutcomeView),
    Exchanged(ExchangeView),
    Printed,
    Saved(bool),
    ConfigurationStored(bool),
}

impl View for Event {
    type V = EventView;

    open spec fn view(&self) -> EventView {
        match self {
            Event::Configured(stored) => EventView::Configured(stored@),
            Event::HistoryRead(outcome) => EventView::HistoryRead(outcome@),
            Event::Exchanged(exchange) => EventView::Exchanged(exchange@),
            Event::Printed => EventView::Printed,
            Event::Saved(written) => EventView::Saved(*written),
            Event::ConfigurationStored(written) => EventView::ConfigurationStored(*written),
        }
    }
}

/// What the session asks its caller to do next.
#[derive(Debug, PartialEq, Eq)]
pub enum Action {
    /// Read the configuration that is stored at `path`.
    ReadConfiguration { path: String },
    /// Read the history that is stored at `path`.
    ReadHistory { path: String },
    /// Post `request` to the service, authorised by `token`.
    Send { request: ChatRequest, token: String },
    /// Show `reply` to the user.
    Print { reply: Message },
    /// Replace what is stored at `path` by `conversation`.
    Save { path: String, conversation: Vec<Message> },
    /// Replace what is stored at `path` by `configuration`.
    StoreConfiguration { path: String, configuration: Configuration },
    /// End the run with `outcome`.
    Finish { outcome: Result<(), Failure> },
}

/// What a [`Action`] is to the contracts.
pub ghost enum ActionView {
    ReadConfiguration { path: Seq<char> },
    ReadHistory { path: Seq<char> },
    Send { request: ChatRequestView, token: Seq<char> },
    Print { reply: MessageView },
    Save { path: Seq<char>, conversation: Seq<MessageView> },
    StoreConfiguration { path: Seq<char>, configuration: ConfigurationView },
    Finish { outcome: Result<(), Failure> },
}

impl View for Action {
    type V = ActionView;

    open spec fn view(&self) -> ActionView {
        match self {
            Action::ReadConfiguration { path } => ActionView::ReadConfiguration { path: path@ },
            Action::ReadHistory { path } => ActionView::ReadHistory { path: path@ },
            Action::Send { request, token } => ActionView::Send {
                request: request@,
                token: token@,
            },
            Action::Print { reply } => ActionView::Print { reply: reply@ },
            Action::Save { path, conversation } => ActionView::Save {
                path: path@,
                conversation: conversation_view(*conversation),
            },
            Action::StoreConfiguration { path, configuration } => ActionView::StoreConfiguration {
                path: path@,
                configuration: configuration@,
            },
            Action::Finish { outcome } => ActionView::Finish { outcome: *outcome },
        }
    }
}

/// How far a run has come, and what it has to remember.
#[derive(Debug, PartialEq, Eq)]
pub enum Session {
    /// The stored configuration is being read.
    Configuring { command: Command, token: String, home: String },
    /// The stored history is being read. `target` is where the conversation
    /// goes afterwards, if it is to be kept.
    Loading { text: String, token: String, target: Option<String> },
    /// The request is on its way. `conversation` ends with the user's message.
    Sending { conversation: Vec<Message>, target: Option<String> },
    /// The reply is being shown. `conversation` ends with the reply.
    Printing { conversation: Vec<Message>, target: Option<String> },
    /// The history is being written.
    Saving,
    /// The configuration is being written.
    Switching,
    /// The run is over.
    Finished,
}

/// What a [`Session`] is to the contracts.
pub ghost enum SessionView {
    Configuring { command: CommandView, token: Seq<char>, home: Seq<char> },
    Loading { text: Seq<char>, token: Seq<char>, target: Option<Seq<char>> },
    Sending { conversation: Seq<MessageView>, target: Option<Seq<char>> },
    Printing { conversation: Seq<MessageView>, target: Option<Seq<char>> },
    Saving,
    Switching,
    Finished,
}

impl View for Session {
    type V = SessionView;

    open spec fn view(&self) -> SessionView {
        match self {
            Session::Configuring { command, token, home } => SessionView::Configuring {
                command: command@,
                token: token@,
                home: home@,
            },
            Session::Loading { text, token, target } => SessionView::Loading {
                text: text@,
                token: token@,
                target: target.deep_view(),
            },
            Session::Sending { conversation, target } => SessionView::Sending {
                conversation: conversation_view(*conversation),
                target: target.deep_view(),
            },
            Session::Printing { conversation, target } => SessionView::Printing {
                conversation: conversation_view(*conversation),
                target: target.deep_view(),
            },
            Session::Saving => SessionView::Saving,
            Session::Switching => SessionView::Switching,
            Session::Finished => SessionView::Finished,
        }
    }
}

/// The end of a run that failed.
pub open spec fn spec_fail(failure: Failure) -> (SessionView, ActionView) {
    (SessionView::Finished, ActionView::Finish { outcome: Err(failure) })
}

/// The end of a run whose last write went well or (`false`) did not.
pub open spec fn spec_written(written: bool) -> (SessionView, ActionView) {
    (
        SessionView::Finished,
        ActionView::Finish { outcome: if written { Ok(()) } else { Err(Failure::StorageWrite) } },
    )
}

/// The message that the user sends with `text`.
pub open spec fn spec_user(text: Seq<char>) -> MessageView {
    MessageView { role: Role::User, content: text }
}

/// What stands before the user's message where no history is read: the system
/// prompt, if one is given.
pub open spec fn spec_opening(prompt: Option<Seq<char>>) -> Seq<MessageView> {
    match prompt {
        Some(text) => seq![MessageView { role: Role::System, content: text }],
        None => Seq::empty(),
    }
}

/// The step that sends `text` after `history`: the request carries all of
/// `history` and then the user's message, and the session remembers the same.
pub open spec fn spec_send(
    history: Seq<MessageView>,
    text: Seq<char>,
    token: Seq<char>,
    target: Option<Seq<char>>,
) -> (SessionView, ActionView) {
    let conversation = history.push(spec_user(text));
    (
        SessionView::Sending { conversation, target },
        ActionView::Send { request: spec_request(conversation), token },
    )
}

/// Where the first action of a run reads the configuration from.
pub open spec fn spec_configuration_path(home: Seq<char>) -> Seq<char> {
    spec_join(home, CONFIGURATION_FILE@)
}

/// The first step of a run. Without credentials or a home directory it is
/// also the last.
pub open spec fn spec_start(
    command: CommandView,
    token: Option<Seq<char>>,
    home: Option<Seq<char>>,
) -> (SessionView, ActionView) {
    match (token, home) {
        (Some(token), Some(home)) => (
            SessionView::Configuring { command, token, home },
            ActionView::ReadConfiguration { path: spec_configuration_path(home) },
        ),
        _ => spec_fail(Failure::Config),
    }
}

/// The configuration that a run goes by: the stored one, or the defaults
/// where none could be read.
pub open spec fn spec_configuration(stored: StoredView, home: Seq<char>) -> Result<
    ConfigurationView,
    Failure,
> {
    match stored {
        StoredView::Found(configuration) => Ok(configuration),
        StoredView::Missing => Ok(ConfigurationView::defaults(home)),
        StoredView::Broken => Err(Failure::Config),
    }
}

/// The step that follows the reading of the configuration.
pub open spec fn spec_dispatch(
    command: CommandView,
    token: Seq<char>,
    home: Seq<char>,
    stored: StoredView,
) -> (SessionView, ActionView) {
    match spec_configuration(stored, home) {
        Err(failure) => spec_fail(failure),
        Ok(configuration) => match command {
            CommandView::Checkout { target } => (
                SessionView::Switching,
                ActionView::StoreConfiguration {
                    path: spec_configuration_path(home),
                    configuration: configuration.checkout(target),
                },
            ),
            CommandView::Message { text, id, no_save } => {
                let identifier = match id {
                    Some(id) => id,
                    None => configuration.current_chat,
                };
                let path = spec_join(configuration.save_path, identifier);
                (
                    SessionView::Loading {
                        text,
                        token,
                        target: if no_save { None } else { Some(path) },
                    },
                    ActionView::ReadHistory { path },
                )
            },
            CommandView::Ask { text, prompt } => spec_send(spec_opening(prompt), text, token, None),
        },
    }
}

/// The step that `event` brings about in `session`; `None` where `session`
/// does not wait for `event`.
pub open spec fn spec_step(session: SessionView, event: EventView) -> Option<
    (SessionView, ActionView),
> {
    match (session, event) {
        (SessionView::Configuring { command, token, home }, EventView::Configured(stored)) => Some(
            spec_dispatch(command, token, home, stored),
        ),
        (SessionView::Loading { text, token, target }, EventView::HistoryRead(outcome)) => Some(
            match spec_load(outcome) {
                Ok(history) => spec_send(history, text, token, target),
                Err(failure) => spec_fail(failure),
            },
        ),
        (SessionView::Sending { conversation, target }, EventView::Exchanged(exchange)) => Some(
            match spec_reply(exchange) {
                Ok(reply) => (
                    SessionView::Printing { conversation: conversation.push(reply), target },
                    ActionView::Print { reply },
                ),
                Err(failure) => spec_fail(failure),
            },
        ),
        (SessionView::Printing { conversation, target }, EventView::Printed) => Some(
            match target {
                Some(path) => (SessionView::Saving, ActionView::Save { path, conversation }),
                None => spec_written(true),
            },
        ),
        (SessionView::Saving, EventView::Saved(written)) => Some(spec_written(written)),
        (SessionView::Switching, EventView::ConfigurationStored(written)) => Some(
            spec_written(written),
        ),
        _ => None,
    }
}

/// The model of a step.
pub open spec fn step_view(step: (Session, Action)) -> (SessionView, ActionView) {
    (step.0@, step.1@)
}

/// The model of a step that may have been refused.
pub open spec fn next_view(next: Option<(Session, Action)>) -> Option<(SessionView, ActionView)> {
    match next {
        Some(step) => Some(step_view(step)),
        None => None,
    }
}

fn fail(failure: Failure) -> (step: (Session, Action))
    ensures
        step_view(step) == spec_fail(failure),
{
    (Session::Finished, Action::Finish { outcome: Err(failure) })
}

fn written(ok: bool) -> (step: (Session, Action))
    ensures
        step_view(step) == spec_written(ok),
{
    let outcome = if ok {
        Ok(())
    } else {
        Err(Failure::StorageWrite)
    };
    (Session::Finished, Action::Finish { outcome })
}

fn opening(prompt: Option<String>) -> (history: Vec<Message>)
    ensures
        conversation_view(history) == spec_opening(prompt.deep_view()),
{
    let mut history: Vec<Message> = Vec::new();
    match prompt {
        Some(text) => {
            history.push(Message { role: Role::System, content: text });
        },
        None => {},
    }
    assert(conversation_view(history) =~= spec_opening(prompt.deep_view()));
    history
}

fn send(history: Vec<Message>, text: String, token: String, target: Option<String>) -> (step: (
    Session,
    Action,
))
    ensures
        step_view(step) == spec_send(
            conversation_view(history),
            text@,
            token@,
            target.deep_view(),
        ),
{
    let user = Message { role: Role::User, content: text };
    let request = request(&history, &user);
    let mut conversation = history;
    conversation.push(user);
    assert(conversation_view(conversation) =~= conversation_view(history).push(spec_user(text@)));
    (Session::Sending { conversation, target }, Action::Send { request, token })
}

fn dispatch(command: Command, token: String, home: String, stored: Stored) -> (step: (
    Session,
    Action,
))
    ensures
        step_view(step) == spec_dispatch(command@, token@, home@, stored@),
{
    let configuration = match stored {
        Stored::Found(configuration) => configuration,
        Stored::Missing => Configuration::defaults(home.as_str()),
        Stored::Broken => {
            return fail(Failure::Config);
        },
    };
    match command {
        Command::Checkout { target } => (
            Session::Switching,
            Action::StoreConfiguration {
                path: join(home.as_str(), CONFIGURATION_FILE),
                configuration: configuration.checkout(target),
            },
        ),
        Command::Message { text, id, no_save } => {
            let identifier = match id {
                Some(id) => id,
                None => configuration.current_chat,
            };
            let path = join(configuration.save_path.as_str(), identifier.as_str());
            let target = if no_save {
                None
            } else {
                Some(path.clone())
            };
            (Session::Loading { text, token, target }, Action::ReadHistory { path })
        },
        Command::Ask { text, prompt } => send(opening(prompt), text, token, None),
    }
}

impl Session {
    /// Begins a run: returns the session and the first thing to do. `token`
    /// and `home` are what the environment holds of the credentials and of the
    /// home directory.
    pub fn start(command: Command, token: Option<String>, home: Option<String>) -> (step: (
        Session,
        Action,
    ))
        ensures
            step_view(step) == spec_start(command@, token.deep_view(), home.deep_view()),
    {
        match (token, home) {
            (Some(token), Some(home)) => {
                let path = join(home.as_str(), CONFIGURATION_FILE);
                (Session::Configuring { command, token, home }, Action::ReadConfiguration { path })
            },
            _ => fail(Failure::Config),
        }
    }

    /// Takes the run one step further: returns the session after `event` and
    /// the next thing to do, or `None` where the session does not wait for
    /// `event`.
    pub fn step(self, event: Event) -> (next: Option<(Session, Action)>)
        ensures
            next_view(next) == spec_step(self@, event@),
    {
        match (self, event) {
            (Session::Configuring { command, token, home }, Event::Configured(stored)) => Some(
                dispatch(command, token, home, stored),
            ),
            (Session::Loading { text, token, target }, Event::HistoryRead(outcome)) => Some(
                match load(outcome) {
                    Ok(history) => send(history, text, token, target),
                    Err(failure) => fail(failure),
                },
            ),
            (Session::Sending { conversation, target }, Event::Exchanged(exchange)) => Some(
                match reply(exchange) {
                    Ok(reply) => {
                        let ghost before = conversation_view(conversation);
                        let mut conversation = conversation;
                        let shown = reply.clone();
                        conversation.push(reply);
                        assert(conversation_view(conversation) =~= before.push(shown@));
                        (Session::Printing { conversation, target }, Action::Print { reply: shown })
                    },
                    Err(failure) => fail(failure),
                },
            ),
            (Session::Printing { conversation, target }, Event::Printed) => Some(
                match target {
                    Some(path) => (Session::Saving, Action::Save { path, conversation }),
                    None => written(true),
                },
            ),
            (Session::Saving, Event::Saved(ok)) => Some(written(ok)),
            (Session::Switching, Event::ConfigurationStored(ok)) => Some(written(ok)),
            _ => None,
        }
    }
}

} // verus!
