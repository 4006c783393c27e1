use vstd::prelude::*;

verus! {

/// The ways in which a run can fail for good.
///
/// A history that is missing or cannot be read is no failure: the run goes on
/// with an empty conversation.
#[derive(Debug, Clone, Copy, PartialEq, Eq, Structural)]
pub enum Failure {
    /// The credentials or the home directory are missing, or the stored
    /// configuration cannot be used.
    Config,
    /// A stored history is there but is no list of messages.
    StorageCorrupt,
    /// The history or the configuration could not be written.
    StorageWrite,
    /// The service could not be reached, or the connection broke or timed out.
    Network,
    /// The service answered with something that is no completion response.
    Decode,
    /// The service answered with a response that offers no choice.
    EmptyResponse,
}

impl Failure {
    /// The sentence that tells the user what went wrong.
    pub open spec fn spec_describe(self) -> Seq<char> {
        match self {
            Failure::Config => "configuration error: credentials or home directory missing"@,
            Failure::StorageCorrupt => "storage error: the stored history is corrupt"@,
            Failure::StorageWrite => "storage error: the history could not be written"@,
            Failure::Network => "network error: the service could not be reached"@,
            Failure::Decode => "decode error: the response is malformed"@,
            Failure::EmptyResponse => "empty response: the service offered no choice"@,
        }
    }

    /// Returns the sentence that tells the user what went wrong.
    pub fn describe(&self) -> (text: &'static str)
        ensures
            text@ == self.spec_describe(),
    {
        match self {
            Failure::Config => "configuration error: credentials or home directory missing",
            Failure::StorageCorrupt => "storage error: the stored history is corrupt",
            Failure::StorageWrite => "storage error: the history could not be written",
            Failure::Network => "network error: the service could not be reached",
            Failure::Decode => "decode error: the response is malformed",
            Failure::EmptyResponse => "empty response: the service offered no choice",
        }
    }
}

/// The status with which the process ends: zero for success, one for a failure.
pub open spec fn spec_exit_code(outcome: Result<(), Failure>) -> u8 {
    if outcome is Ok {
        0
    } else {
        1
    }
}

/// Returns the status with which the process ends after `outcome`.
pub fn exit_code(outcome: Result<(), Failure>) -> (code: u8)
    ensures
        code == spec_exit_code(outcome),
        code == 0 <==> outcome is Ok,
{
    match outcome {
        Ok(_) => 0,
        Err(_) => 1,
    }
}

/// No two kinds of failure are told to the user in the same words.
pub proof fn law_descriptions_distinguish(a: Failure, b: Failure)
    requires
        a != b,
    ensures
        a.spec_describe() != b.spec_describe(),
{
    reveal_strlit("configuration error: credentials or home directory missing");
    reveal_strlit("storage error: the stored history is corrupt");
    reveal_strlit("storage error: the history could not be written");
    reveal_strlit("network error: the service could not be reached");
    reveal_strlit("decode error: the response is malformed");
    reveal_strlit("empty response: the service offered no choice");
    let x = a.spec_describe();
    let y = b.spec_describe();
    if x == y {
        assert(x.len() == y.len());
        assert(x[0] == y[0]);
        assert(x[15] == y[15]);
        assert(x[35] == y[35]);
    }
}

} // verus!
