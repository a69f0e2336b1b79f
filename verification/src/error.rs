//! Errors returned by the runtime and its builders.
use vstd::prelude::*;
use vstd::string::StringExecFns;

verus! {

/// `String::from(&str)`: the std documentation says it converts a `&str`
/// into a `String` holding the same text.
pub assume_specification<'a>[ <String as From<&'a str>>::from ](s: &str) -> (r: String)
    ensures
        r@ == s@,
;

/// Why the output of a task cannot be taken.
#[derive(Debug, Clone, Copy, PartialEq, Eq, Structural)]
pub enum JoinError {
    /// The output for the task was already taken
    AlreadyTaken,
    /// The task was cancelled and output will never arrive
    Cancelled,
}

impl JoinError {
    /// The text this error displays as.
    pub open spec fn message_spec(self) -> Seq<char> {
        match self {
            JoinError::AlreadyTaken => "AlreadyTaken"@,
            JoinError::Cancelled => "Cancelled"@,
        }
    }

    /// The text this error displays as.
    pub fn message(&self) -> (r: String)
        ensures
            r@ == self.message_spec(),
    {
        match self {
            JoinError::AlreadyTaken => "AlreadyTaken".to_owned(),
            JoinError::Cancelled => "Cancelled".to_owned(),
        }
    }
}

/// A blocking wait ended before the runtime stopped.
#[derive(Debug, Clone, Copy, PartialEq, Eq, Structural)]
pub struct TimedOut;

impl TimedOut {
    /// The text this error displays as.
    pub fn message(&self) -> (r: String)
        ensures
            r@ == "TimedOut"@,
    {
        "TimedOut".to_owned()
    }
}

/// A builder was missing a required setting.
#[derive(Debug)]
pub struct BuilderError {
    reason: String,
}

impl BuilderError {
    /// Why the build failed.
    pub closed spec fn reason_spec(&self) -> Seq<char> {
        self.reason@
    }

    pub fn new<I: Into<String>>(reason: I) -> (r: Self)
        ensures
            exists|s: String| #[trigger] call_ensures(I::into, (reason,), s) && r.reason_spec() == s@,
    {
        let ghost given = reason;
        let text: String = reason.into();
        assert(call_ensures(I::into, (given,), text));
        BuilderError { reason: text }
    }

    /// A builder error whose reason is the given text.
    pub(crate) fn from_string(reason: String) -> (r: Self)
        ensures
            r.reason_spec() == reason@,
    {
        BuilderError { reason }
    }

    /// A builder error with the given reason.
    pub(crate) fn from_reason(reason: &str) -> (r: Self)
        ensures
            r.reason_spec() == reason@,
    {
        BuilderError { reason: reason.to_owned() }
    }

    pub fn reason<'a>(&'a self) -> (r: &'a str)
        ensures
            r@ == self.reason_spec(),
    {
        self.reason.as_str()
    }

    /// The text this error displays as: `BuilderError: ` followed by the reason.
    pub fn message(&self) -> (r: String)
        ensures
            r@ == "BuilderError: "@ + self.reason_spec(),
    {
        let mut s = String::from_str("BuilderError: ");
        s.append(self.reason.as_str());
        s
    }
}

} // verus!
