//! What the outside world reports back: a kind worth deciding on, and words
//! worth repeating.
use vstd::prelude::*;

verus! {

/// `std::io::ErrorKind`, carried and never looked into.
#[verifier::external_type_specification]
#[verifier::external_body]
pub struct ExErrorKind(std::io::ErrorKind);

/// The failures that a decision here depends on. Any other is carried as the
/// host has it.
#[derive(Debug, Clone, Copy, PartialEq, Eq)]
pub enum ErrorKind {
    /// Nothing listens behind the socket.
    ConnectionRefused,
    /// There is nothing at the path.
    NotFound,
    /// The operation would have had to wait.
    WouldBlock,
    /// A deadline passed.
    TimedOut,
    /// A failure that is put in words alone.
    Other,
    /// A failure of any kind but those above.
    Host(std::io::ErrorKind),
}

/// A failed operation on the host, in the host's own words.
#[derive(Debug, PartialEq, Eq)]
pub struct IoError {
    /// What kind of failure it was.
    pub kind: ErrorKind,
    /// What the host said about it.
    pub message: String,
}

impl IoError {
    /// A failure of no kind in particular.
    pub fn other(message: String) -> (error: Self)
        ensures
            error == (IoError { kind: ErrorKind::Other, message }),
    {
        IoError { kind: ErrorKind::Other, message }
    }

    /// The failure as it is written in a journal line.
    pub fn to_string(&self) -> (text: String)
        ensures
            text@ == self.message@,
    {
        self.message.clone()
    }
}

impl Clone for IoError {
    fn clone(&self) -> (copy: Self)
        ensures
            copy == *self,
    {
        IoError { kind: self.kind, message: self.message.clone() }
    }
}

/// A failure that is put in words alone is of no other kind, and it is said in
/// those words.
pub proof fn a_failure_says_what_it_was_given(message: String, error: IoError, text: String)
    requires
        call_ensures(IoError::other, (message,), error),
        call_ensures(IoError::to_string, (&error,), text),
    ensures
        error.kind is Other,
        text@ == message@,
{
}

}
