//! The failures that a write or a read can end in.

use vstd::prelude::*;

verus! {

/// The message of the failure that an event out of turn stands for.
pub open spec fn out_of_turn() -> Seq<char> {
    "event out of turn"@
}

/// The message of the failure that an event out of turn stands for.
pub fn out_of_turn_message() -> (message: String)
    ensures
        message@ == out_of_turn(),
{
    String::from_str("event out of turn")
}

/// The mathematical value of a [`WriteError`]: its kind and its message.
pub enum WriteFailure {
    Staging(Seq<char>),
    Execution(Seq<char>),
    Commit(Seq<char>),
}

impl WriteFailure {
    /// The message that the failure carries.
    pub open spec fn detail(self) -> Seq<char> {
        match self {
            WriteFailure::Staging(m) => m,
            WriteFailure::Execution(m) => m,
            WriteFailure::Commit(m) => m,
        }
    }
}

/// Why a write did not produce a new file at the destination.
#[derive(Debug, PartialEq, Eq)]
pub enum WriteError {
    /// The staging file could not be cleaned up, created or measured.
    Staging(String),
    /// The dump did not apply in full.
    Execution(String),
    /// The populated staging file could not be renamed onto the destination.
    Commit(String),
}

impl View for WriteError {
    type V = WriteFailure;

    open spec fn view(&self) -> WriteFailure {
        match self {
            WriteError::Staging(m) => WriteFailure::Staging(m@),
            WriteError::Execution(m) => WriteFailure::Execution(m@),
            WriteError::Commit(m) => WriteFailure::Commit(m@),
        }
    }
}

impl WriteError {
    /// The message of the underlying failure, as it is shown to the caller.
    pub fn detail(&self) -> (text: &str)
        ensures
            text@ == self@.detail(),
    {
        match self {
            WriteError::Staging(m) => m.as_str(),
            WriteError::Execution(m) => m.as_str(),
            WriteError::Commit(m) => m.as_str(),
        }
    }
}

/// The mathematical value of a [`ReadError`]: its kind and its message.
pub enum ReadFailure {
    NotFound(Seq<char>),
    Format(Seq<char>),
    Introspection(Seq<char>),
}

impl ReadFailure {
    /// The message that the failure carries.
    pub open spec fn detail(self) -> Seq<char> {
        match self {
            ReadFailure::NotFound(m) => m,
            ReadFailure::Format(m) => m,
            ReadFailure::Introspection(m) => m,
        }
    }
}

/// Why a read did not produce a dump.
#[derive(Debug, PartialEq, Eq)]
pub enum ReadError {
    /// The source file does not exist.
    NotFound(String),
    /// The source file is not a database.
    Format(String),
    /// The database could not be read through to the end.
    Introspection(String),
}

impl View for ReadError {
    type V = ReadFailure;

    open spec fn view(&self) -> ReadFailure {
        match self {
            ReadError::NotFound(m) => ReadFailure::NotFound(m@),
            ReadError::Format(m) => ReadFailure::Format(m@),
            ReadError::Introspection(m) => ReadFailure::Introspection(m@),
        }
    }
}

impl ReadError {
    /// The message of the underlying failure, as it is shown to the caller.
    pub fn detail(&self) -> (text: &str)
        ensures
            text@ == self@.detail(),
    {
        match self {
            ReadError::NotFound(m) => m.as_str(),
            ReadError::Format(m) => m.as_str(),
            ReadError::Introspection(m) => m.as_str(),
        }
    }
}

} // verus!
