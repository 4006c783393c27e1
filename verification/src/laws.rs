use crate::client::{spec_reply, spec_request, ExchangeView};
use crate::error::Failure;
use crate::history::{spec_join, spec_load, ReadOutcomeView};
use crate::session::{
    spec_configuration, spec_configuration_path, spec_opening, spec_start, spec_step, spec_user,
    ActionView, CommandView, EventView, SessionView, StoredView,
};
use crate::types::{MessageView, Role};
use vstd::prelude::*;

verus! {

/// What `session` asks for as `events` come in: one action for each event,
/// up to the first event that the session does not wait for.
pub open spec fn run(session: SessionView, events: Seq<EventView>) -> Seq<ActionView>
    decreases events.len(),
{
    if events.len() == 0 {
        Seq::empty()
    } else {
        match spec_step(session, events[0]) {
            Some((next, action)) => seq![action] + run(next, events.drop_first()),
            None => Seq::empty(),
        }
    }
}

/// All that a run asks for, from its first action on.
pub open spec fn whole_run(
    command: CommandView,
    token: Option<Seq<char>>,
    home: Option<Seq<char>>,
    events: Seq<EventView>,
) -> Seq<ActionView> {
    let (session, first) = spec_start(command, token, home);
    seq![first] + run(session, events)
}

/// The steps that a session is from its end, at most.
pub open spec fn remaining(session: SessionView) -> nat {
    match session {
        SessionView::Configuring { .. } => 5,
        SessionView::Loading { .. } => 4,
        SessionView::Sending { .. } => 3,
        SessionView::Printing { .. } => 2,
        SessionView::Saving => 1,
        SessionView::Switching => 1,
        SessionView::Finished => 0,
    }
}

/// Whether `action` reads or writes a history.
pub open spec fn touches_history(action: ActionView) -> bool {
    action is ReadHistory || action is Save
}

proof fn lemma_run_first(session: SessionView, event: EventView, rest: Seq<EventView>)
    ensures
        run(session, seq![event] + rest) == match spec_step(session, event) {
            Some((next, action)) => seq![action] + run(next, rest),
            None => Seq::empty(),
        },
{
    let events = seq![event] + rest;
    assert(events[0] == event);
    assert(events.drop_first() =~= rest);
}

proof fn lemma_run_of_none(session: SessionView)
    ensures
        run(session, Seq::empty()) == Seq::<ActionView>::empty(),
{
}

proof fn lemma_finished_is_silent(events: Seq<EventView>)
    ensures
        run(SessionView::Finished, events) == Seq::<ActionView>::empty(),
{
}

/// Every step brings a session nearer to its end, so no run asks for more
/// than six actions.
pub proof fn law_runs_end(
    command: CommandView,
    token: Option<Seq<char>>,
    home: Option<Seq<char>>,
    events: Seq<EventView>,
)
    ensures
        whole_run(command, token, home, events).len() <= 6,
        forall|session: SessionView, event: EventView|
            (#[trigger] spec_step(session, event)) matches Some((next, _)) ==> remaining(next)
                < remaining(session),
{
    lemma_run_length(spec_start(command, token, home).0, events);
}

proof fn lemma_run_length(session: SessionView, events: Seq<EventView>)
    ensures
        run(session, events).len() <= remaining(session),
    decreases events.len(),
{
    if events.len() > 0 {
        match spec_step(session, events[0]) {
            Some((next, action)) => {
                lemma_run_length(next, events.drop_first());
            },
            None => {},
        }
    }
}

proof fn lemma_finish_is_last(session: SessionView, events: Seq<EventView>, i: int)
    requires
        0 <= i < run(session, events).len(),
        run(session, events)[i] is Finish,
    ensures
        i == run(session, events).len() - 1,
    decreases events.len(),
{
    match spec_step(session, events[0]) {
        Some((next, action)) => {
            let rest = run(next, events.drop_first());
            if i == 0 {
                assert(next == SessionView::Finished);
                lemma_finished_is_silent(events.drop_first());
            } else {
                assert(run(session, events)[i] == rest[i - 1]);
                lemma_finish_is_last(next, events.drop_first(), i - 1);
            }
        },
        None => {},
    }
}

/// Once a run has asked to finish it asks for nothing more.
pub proof fn law_finish_is_final(
    command: CommandView,
    token: Option<Seq<char>>,
    home: Option<Seq<char>>,
    events: Seq<EventView>,
    i: int,
)
    requires
        0 <= i < whole_run(command, token, home, events).len(),
        whole_run(command, token, home, events)[i] is Finish,
    ensures
        i == whole_run(command, token, home, events).len() - 1,
{
    let (session, first) = spec_start(command, token, home);
    if i == 0 {
        assert(session == SessionView::Finished);
        lemma_finished_is_silent(events);
    } else {
        assert(whole_run(command, token, home, events)[i] == run(session, events)[i - 1]);
        lemma_finish_is_last(session, events, i - 1);
    }
}

/// Without credentials, or without a home directory, a run ends at once with
/// a configuration failure: nothing is read, written or sent.
pub proof fn law_nothing_without_credentials(
    command: CommandView,
    token: Option<Seq<char>>,
    home: Option<Seq<char>>,
    events: Seq<EventView>,
)
    requires
        token is None || home is None,
    ensures
        whole_run(command, token, home, events) == seq![
            ActionView::Finish { outcome: Err(Failure::Config) },
        ],
{
    lemma_finished_is_silent(events);
}

/// Whether `session` can neither read nor write a history any more.
pub open spec fn detached(session: SessionView) -> bool {
    match session {
        SessionView::Configuring { command, .. } => command is Ask,
        SessionView::Sending { target, .. } => target is None,
        SessionView::Printing { target, .. } => target is None,
        SessionView::Finished => true,
        _ => false,
    }
}

proof fn lemma_detached_stays(session: SessionView, events: Seq<EventView>)
    requires
        detached(session),
    ensures
        forall|i: int|
            0 <= i < run(session, events).len() ==> !touches_history(
                #[trigger] run(session, events)[i],
            ),
    decreases events.len(),
{
    if events.len() > 0 {
        match spec_step(session, events[0]) {
            Some((next, action)) => {
                let rest = run(next, events.drop_first());
                lemma_detached_stays(next, events.drop_first());
                assert forall|i: int| 0 <= i < run(session, events).len() implies !touches_history(
                    #[trigger] run(session, events)[i],
                ) by {
                    if i > 0 {
                        assert(run(session, events)[i] == rest[i - 1]);
                    }
                }
            },
            None => {},
        }
    }
}

/// A message that is sent on its own leaves the histories alone: whatever
/// comes in, the run neither reads nor writes one.
pub proof fn law_ask_keeps_nothing(
    text: Seq<char>,
    prompt: Option<Seq<char>>,
    token: Option<Seq<char>>,
    home: Option<Seq<char>>,
    events: Seq<EventView>,
)
    ensures
        forall|i: int|
            0 <= i < whole_run(CommandView::Ask { text, prompt }, token, home, events).len()
                ==> !touches_history(
                #[trigger] whole_run(CommandView::Ask { text, prompt }, token, home, events)[i],
            ),
{
    let command = CommandView::Ask { text, prompt };
    let (session, first) = spec_start(command, token, home);
    lemma_detached_stays(session, events);
    assert forall|i: int| 0 <= i < whole_run(command, token, home, events).len() implies
        !touches_history(#[trigger] whole_run(command, token, home, events)[i]) by {
        if i > 0 {
            assert(whole_run(command, token, home, events)[i] == run(session, events)[i - 1]);
        }
    }
}

/// Whether `session` will not write a history any more.
pub open spec fn unkept(session: SessionView) -> bool {
    match session {
        SessionView::Configuring { command, .. } => match command {
            CommandView::Message { no_save, .. } => no_save,
            _ => true,
        },
        SessionView::Loading { target, .. } => target is None,
        SessionView::Sending { target, .. } => target is None,
        SessionView::Printing { target, .. } => target is None,
        SessionView::Saving => false,
        SessionView::Switching => true,
        SessionView::Finished => true,
    }
}

proof fn lemma_unkept_stays(session: SessionView, events: Seq<EventView>)
    requires
        unkept(session),
    ensures
        forall|i: int|
            0 <= i < run(session, events).len() ==> !(#[trigger] run(session, events)[i] is Save),
    decreases events.len(),
{
    if events.len() > 0 {
        match spec_step(session, events[0]) {
            Some((next, action)) => {
                let rest = run(next, events.drop_first());
                lemma_unkept_stays(next, events.drop_first());
                assert forall|i: int| 0 <= i < run(session, events).len() implies !(
                #[trigger] run(session, events)[i] is Save) by {
                    if i > 0 {
                        assert(run(session, events)[i] == rest[i - 1]);
                    }
                }
            },
            None => {},
        }
    }
}

/// Only a message that continues a conversation, and does not forbid it, has
/// its history written: no other run asks for a save.
pub proof fn law_saves_only_on_request(
    command: CommandView,
    token: Option<Seq<char>>,
    home: Option<Seq<char>>,
    events: Seq<EventView>,
)
    requires
        !(command matches CommandView::Message { no_save, .. } && !no_save),
    ensures
        forall|i: int|
            0 <= i < whole_run(command, token, home, events).len() ==> !(#[trigger] whole_run(
                command,
                token,
                home,
                events,
            )[i] is Save),
{
    let (session, first) = spec_start(command, token, home);
    lemma_unkept_stays(session, events);
    assert forall|i: int| 0 <= i < whole_run(command, token, home, events).len() implies !(
    #[trigger] whole_run(command, token, home, events)[i] is Save) by {
        if i > 0 {
            assert(whole_run(command, token, home, events)[i] == run(session, events)[i - 1]);
        }
    }
}

proof fn lemma_save_follows(session: SessionView, events: Seq<EventView>, i: int)
    requires
        0 <= i < run(session, events).len(),
        run(session, events)[i] is Save,
    ensures
        ({
            let actions = run(session, events);
            let saved = actions[i]->Save_conversation;
            let path = actions[i]->Save_path;
            &&& i == 0 ==> session == (SessionView::Printing {
                conversation: saved,
                target: Some(path),
            })
            &&& i == 1 ==> {
                &&& session matches SessionView::Sending { conversation, target }
                &&& target == Some(path)
                &&& actions[0] matches ActionView::Print { reply }
                &&& saved == conversation.push(reply)
            }
            &&& i >= 2 ==> {
                &&& saved.len() >= 2
                &&& actions[i - 1] == (ActionView::Print { reply: saved.last() })
                &&& actions[i - 2] matches ActionView::Send { request, .. }
                &&& request == spec_request(saved.drop_last())
                &&& request.messages.last().role == Role::User
            }
        }),
    decreases events.len(),
{
    match spec_step(session, events[0]) {
        Some((next, action)) => {
            let actions = run(session, events);
            let rest = run(next, events.drop_first());
            if i > 0 {
                assert(actions[i] == rest[i - 1]);
                lemma_save_follows(next, events.drop_first(), i - 1);
                let saved = actions[i]->Save_conversation;
                if i == 1 {
                } else if i == 2 {
                    assert(actions[1] == rest[0]);
                    let conversation = next->Sending_conversation;
                    assert(saved.drop_last() =~= conversation);
                } else {
                    assert(actions[i - 1] == rest[i - 2]);
                    assert(actions[i - 2] == rest[i - 3]);
                }
            }
        },
        None => {},
    }
}

/// What is saved is what was sent and then the reply that was shown: a save
/// comes directly after the reply was handed out for printing, which comes
/// directly after the request; the request carried the saved conversation
/// but for its last message, ending with the user's message, and that last
/// message is the reply.
pub proof fn law_saved_is_sent_then_reply(
    command: CommandView,
    token: Option<Seq<char>>,
    home: Option<Seq<char>>,
    events: Seq<EventView>,
    i: int,
)
    requires
        0 <= i < whole_run(command, token, home, events).len(),
        whole_run(command, token, home, events)[i] is Save,
    ensures
        ({
            let actions = whole_run(command, token, home, events);
            let saved = actions[i]->Save_conversation;
            &&& i >= 2
            &&& saved.len() >= 2
            &&& actions[i - 1] == (ActionView::Print { reply: saved.last() })
            &&& actions[i - 2] matches ActionView::Send { request, .. }
            &&& request == spec_request(saved.drop_last())
            &&& request.messages.last().role == Role::User
        }),
{
    let (session, first) = spec_start(command, token, home);
    let actions = whole_run(command, token, home, events);
    let inner = run(session, events);
    assert(i > 0);
    assert(actions[i] == inner[i - 1]);
    lemma_save_follows(session, events, i - 1);
    if i >= 3 {
        assert(actions[i - 1] == inner[i - 2]);
        assert(actions[i - 2] == inner[i - 3]);
    }
}

/// A message that continues a conversation: the history is read from where
/// the conversation is kept, the request carries the history and then the
/// user's message, the reply is shown, and what is then written is the
/// history, the user's message and the reply, in that order. A write that
/// fails is the run's failure; the reply has been shown by then.
pub proof fn law_message_run(
    text: Seq<char>,
    id: Option<Seq<char>>,
    token: Seq<char>,
    home: Seq<char>,
    stored: StoredView,
    outcome: ReadOutcomeView,
    exchange: ExchangeView,
    written: bool,
)
    requires
        spec_configuration(stored, home) is Ok,
        spec_load(outcome) is Ok,
        spec_reply(exchange) is Ok,
    ensures
        ({
            let configuration = spec_configuration(stored, home)->Ok_0;
            let history = spec_load(outcome)->Ok_0;
            let reply = spec_reply(exchange)->Ok_0;
            let identifier = if id is Some {
                id->Some_0
            } else {
                configuration.current_chat
            };
            let path = spec_join(configuration.save_path, identifier);
            whole_run(
                CommandView::Message { text, id, no_save: false },
                Some(token),
                Some(home),
                seq![
                    EventView::Configured(stored),
                    EventView::HistoryRead(outcome),
                    EventView::Exchanged(exchange),
                    EventView::Printed,
                    EventView::Saved(written),
                ],
            ) == seq![
                ActionView::ReadConfiguration { path: spec_configuration_path(home) },
                ActionView::ReadHistory { path },
                ActionView::Send {
                    request: spec_request(history.push(spec_user(text))),
                    token,
                },
                ActionView::Print { reply },
                ActionView::Save {
                    path,
                    conversation: history.push(spec_user(text)).push(reply),
                },
                ActionView::Finish {
                    outcome: if written {
                        Ok(())
                    } else {
                        Err(Failure::StorageWrite)
                    },
                },
            ]
        }),
{
    let command = CommandView::Message { text, id, no_save: false };
    let (s0, a0) = spec_start(command, Some(token), Some(home));
    let e1 = EventView::Configured(stored);
    let e2 = EventView::HistoryRead(outcome);
    let e3 = EventView::Exchanged(exchange);
    let e4 = EventView::Printed;
    let e5 = EventView::Saved(written);
    let (s1, a1) = spec_step(s0, e1).unwrap();
    let (s2, a2) = spec_step(s1, e2).unwrap();
    let (s3, a3) = spec_step(s2, e3).unwrap();
    let (s4, a4) = spec_step(s3, e4).unwrap();
    let (s5, a5) = spec_step(s4, e5).unwrap();
    lemma_run_first(s0, e1, seq![e2, e3, e4, e5]);
    lemma_run_first(s1, e2, seq![e3, e4, e5]);
    lemma_run_first(s2, e3, seq![e4, e5]);
    lemma_run_first(s3, e4, seq![e5]);
    lemma_run_first(s4, e5, Seq::empty());
    lemma_run_of_none(s5);
    assert(seq![e1] + seq![e2, e3, e4, e5] =~= seq![e1, e2, e3, e4, e5]);
    assert(seq![e2] + seq![e3, e4, e5] =~= seq![e2, e3, e4, e5]);
    assert(seq![e3] + seq![e4, e5] =~= seq![e3, e4, e5]);
    assert(seq![e4] + seq![e5] =~= seq![e4, e5]);
    assert(seq![e5] + Seq::empty() =~= seq![e5]);
    assert(whole_run(command, Some(token), Some(home), seq![e1, e2, e3, e4, e5]) =~= seq![
        a0,
        a1,
        a2,
        a3,
        a4,
        a5,
    ]);
}

/// A message that is sent on its own: the request carries the system prompt,
/// if there is one, and then the user's message; the reply is shown and the
/// run ends.
pub proof fn law_ask_run(
    text: Seq<char>,
    prompt: Option<Seq<char>>,
    token: Seq<char>,
    home: Seq<char>,
    stored: StoredView,
    exchange: ExchangeView,
)
    requires
        spec_configuration(stored, home) is Ok,
        spec_reply(exchange) is Ok,
    ensures
        whole_run(
            CommandView::Ask { text, prompt },
            Some(token),
            Some(home),
            seq![EventView::Configured(stored), EventView::Exchanged(exchange), EventView::Printed],
        ) == seq![
            ActionView::ReadConfiguration { path: spec_configuration_path(home) },
            ActionView::Send {
                request: spec_request(spec_opening(prompt).push(spec_user(text))),
                token,
            },
            ActionView::Print { reply: spec_reply(exchange)->Ok_0 },
            ActionView::Finish { outcome: Ok(()) },
        ],
{
    let command = CommandView::Ask { text, prompt };
    let (s0, a0) = spec_start(command, Some(token), Some(home));
    let e1 = EventView::Configured(stored);
    let e2 = EventView::Exchanged(exchange);
    let e3 = EventView::Printed;
    let (s1, a1) = spec_step(s0, e1).unwrap();
    let (s2, a2) = spec_step(s1, e2).unwrap();
    let (s3, a3) = spec_step(s2, e3).unwrap();
    lemma_run_first(s0, e1, seq![e2, e3]);
    lemma_run_first(s1, e2, seq![e3]);
    lemma_run_first(s2, e3, Seq::empty());
    lemma_run_of_none(s3);
    assert(seq![e1] + seq![e2, e3] =~= seq![e1, e2, e3]);
    assert(seq![e2] + seq![e3] =~= seq![e2, e3]);
    assert(seq![e3] + Seq::empty() =~= seq![e3]);
    assert(whole_run(command, Some(token), Some(home), seq![e1, e2, e3]) =~= seq![a0, a1, a2, a3]);
}

/// An exchange that fails ends the run with its failure, whatever is
/// reported afterwards: nothing is shown and nothing is written.
pub proof fn law_failed_exchange_ends_run(
    conversation: Seq<MessageView>,
    target: Option<Seq<char>>,
    exchange: ExchangeView,
    later: Seq<EventView>,
)
    requires
        spec_reply(exchange) is Err,
    ensures
        run(
            SessionView::Sending { conversation, target },
            seq![EventView::Exchanged(exchange)] + later,
        ) == seq![ActionView::Finish { outcome: Err(spec_reply(exchange)->Err_0) }],
{
    let session = SessionView::Sending { conversation, target };
    lemma_run_first(session, EventView::Exchanged(exchange), later);
    lemma_finished_is_silent(later);
}

/// A history that is there and cannot be understood ends the run before
/// anything is sent; one that is not there lets the run go on from an empty
/// conversation.
pub proof fn law_history_as_found(
    text: Seq<char>,
    token: Seq<char>,
    target: Option<Seq<char>>,
    later: Seq<EventView>,
)
    ensures
        run(
            SessionView::Loading { text, token, target },
            seq![EventView::HistoryRead(ReadOutcomeView::Corrupt)] + later,
        ) == seq![ActionView::Finish { outcome: Err(Failure::StorageCorrupt) }],
        spec_step(
            SessionView::Loading { text, token, target },
            EventView::HistoryRead(ReadOutcomeView::Absent),
        ) == Some(
            (
                SessionView::Sending { conversation: seq![spec_user(text)], target },
                ActionView::Send { request: spec_request(seq![spec_user(text)]), token },
            ),
        ),
{
    let session = SessionView::Loading { text, token, target };
    lemma_run_first(session, EventView::HistoryRead(ReadOutcomeView::Corrupt), later);
    lemma_finished_is_silent(later);
    assert(Seq::<MessageView>::empty().push(spec_user(text)) =~= seq![spec_user(text)]);
}

/// What one run saves, the next run continues: where the store hands back
/// the conversation that was written, a later message to the same
/// conversation reads it from the location it was written to, and sends it
/// whole and in its order before the new message.
pub proof fn law_saved_history_resumes(
    first: Seq<char>,
    second: Seq<char>,
    id: Option<Seq<char>>,
    token: Seq<char>,
    home: Seq<char>,
    stored: StoredView,
    outcome: ReadOutcomeView,
    exchange: ExchangeView,
    later: Seq<EventView>,
)
    requires
        spec_configuration(stored, home) is Ok,
        spec_load(outcome) is Ok,
        spec_reply(exchange) is Ok,
    ensures
        ({
            let earlier = whole_run(
                CommandView::Message { text: first, id, no_save: false },
                Some(token),
                Some(home),
                seq![
                    EventView::Configured(stored),
                    EventView::HistoryRead(outcome),
                    EventView::Exchanged(exchange),
                    EventView::Printed,
                    EventView::Saved(true),
                ],
            );
            let saved = earlier[4]->Save_conversation;
            let resumed = whole_run(
                CommandView::Message { text: second, id, no_save: false },
                Some(token),
                Some(home),
                seq![
                    EventView::Configured(stored),
                    EventView::HistoryRead(ReadOutcomeView::Messages(saved)),
                ] + later,
            );
            &&& earlier.len() == 6
            &&& earlier[4] is Save
            &&& resumed.len() >= 3
            &&& resumed[1] == (ActionView::ReadHistory { path: earlier[4]->Save_path })
            &&& resumed[2] == (ActionView::Send {
                request: spec_request(saved.push(spec_user(second))),
                token,
            })
            &&& spec_load(ReadOutcomeView::Messages(saved)) == Ok::<Seq<MessageView>, Failure>(saved)
        }),
{
    law_message_run(first, id, token, home, stored, outcome, exchange, true);
    let command = CommandView::Message { text: second, id, no_save: false };
    let (s0, a0) = spec_start(command, Some(token), Some(home));
    let history = spec_load(outcome)->Ok_0;
    let saved = history.push(spec_user(first)).push(spec_reply(exchange)->Ok_0);
    let e1 = EventView::Configured(stored);
    let e2 = EventView::HistoryRead(ReadOutcomeView::Messages(saved));
    let (s1, a1) = spec_step(s0, e1).unwrap();
    let (s2, a2) = spec_step(s1, e2).unwrap();
    lemma_run_first(s0, e1, seq![e2] + later);
    lemma_run_first(s1, e2, later);
    assert(seq![e1] + (seq![e2] + later) =~= seq![e1, e2] + later);
}

} // verus!
