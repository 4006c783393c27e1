use crate::error::Failure;
use crate::types::{conversation_view, Message, MessageView};
use vstd::prelude::*;
use vstd::string::*;

verus! {

/// Where `name` lies under `base`: an absolute `name` stands for itself;
/// otherwise `name` follows `base`, with one `/` between them unless `base` is
/// empty or brings its own.
pub open spec fn spec_join(base: Seq<char>, name: Seq<char>) -> Seq<char> {
    if name.len() > 0 && name[0] == '/' {
        name
    } else if base.len() > 0 && base.last() != '/' {
        base + seq!['/'] + name
    } else {
        base + name
    }
}

/// Returns the location of `name` under the directory `base`.
pub fn join(base: &str, name: &str) -> (path: String)
    ensures
        path@ == spec_join(base@, name@),
{
    if name.unicode_len() > 0 && name.get_char(0) == '/' {
        return name.to_owned();
    }
    let mut path = base.to_owned();
    let length = base.unicode_len();
    if length > 0 && base.get_char(length - 1) != '/' {
        proof {
            reveal_strlit("/");
        }
        path.append("/");
        assert(path@ == base@ + seq!['/']);
    }
    path.append(name);
    path
}

/// The location of the history that goes by `identifier`; without an
/// identifier there is none, and nothing is kept.
pub open spec fn spec_locate(directory: Seq<char>, identifier: Option<Seq<char>>) -> Option<
    Seq<char>,
> {
    match identifier {
        Some(id) => Some(spec_join(directory, id)),
        None => None,
    }
}

/// Returns the location of the history that goes by `identifier` under
/// `directory`.
pub fn locate(directory: &str, identifier: Option<&str>) -> (location: Option<String>)
    ensures
        location.deep_view() == spec_locate(directory@, identifier.deep_view()),
{
    match identifier {
        Some(id) => Some(join(directory, id)),
        None => None,
    }
}

/// What came of reading a stored history.
#[derive(Debug, PartialEq, Eq)]
pub enum ReadOutcome {
    /// Nothing could be read: there is no such file, or it may not be read.
    Absent,
    /// Something was read, and it is no list of messages.
    Corrupt,
    /// The messages that were stored, in their order.
    Messages(Vec<Message>),
}

/// What a [`ReadOutcome`] is to the contracts.
pub ghost enum ReadOutcomeView {
    Absent,
    Corrupt,
    Messages(Seq<MessageView>),
}

impl View for ReadOutcome {
    type V = ReadOutcomeView;

    open spec fn view(&self) -> ReadOutcomeView {
        match self {
            ReadOutcome::Absent => ReadOutcomeView::Absent,
            ReadOutcome::Corrupt => ReadOutcomeView::Corrupt,
            ReadOutcome::Messages(messages) => ReadOutcomeView::Messages(
                conversation_view(*messages),
            ),
        }
    }
}

/// The conversation that a run starts from: what was stored, nothing where
/// nothing could be read, and a failure where the stored history is corrupt.
pub open spec fn spec_load(outcome: ReadOutcomeView) -> Result<Seq<MessageView>, Failure> {
    match outcome {
        ReadOutcomeView::Absent => Ok(Seq::empty()),
        ReadOutcomeView::Corrupt => Err(Failure::StorageCorrupt),
        ReadOutcomeView::Messages(messages) => Ok(messages),
    }
}

/// The model of a conversation that may have failed to load.
pub open spec fn loaded_view(loaded: Result<Vec<Message>, Failure>) -> Result<
    Seq<MessageView>,
    Failure,
> {
    match loaded {
        Ok(messages) => Ok(conversation_view(messages)),
        Err(failure) => Err(failure),
    }
}

/// Returns the conversation that a run starts from, given what came of
/// reading its stored history.
pub fn load(outcome: ReadOutcome) -> (loaded: Result<Vec<Message>, Failure>)
    ensures
        loaded_view(loaded) == spec_load(outcome@),
{
    match outcome {
        ReadOutcome::Absent => {
            let empty: Vec<Message> = Vec::new();
            assert(conversation_view(empty) =~= Seq::empty());
            Ok(empty)
        },
        ReadOutcome::Corrupt => Err(Failure::StorageCorrupt),
        ReadOutcome::Messages(messages) => Ok(messages),
    }
}

} // verus!
