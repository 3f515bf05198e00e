//! What came back from the server, and what it means for the caller.

use vstd::prelude::*;
use crate::error::Error;

verus! {

/// The outcome of sending one request, as the transport reports it.
pub enum Reply<T> {
    /// The request could not be delivered, or the reply could not be read.
    Unreachable,
    /// The server answered. `body` holds the decoded payload, or `None`
    /// where the body does not have the shape the operation expects.
    Answered { status: u16, body: Option<T> },
}

/// Whether an HTTP status reports success.
pub open spec fn is_success(status: u16) -> bool {
    200 <= status <= 299
}

impl<T> Reply<T> {
    /// The result this reply stands for.
    ///
    /// A status outside 200..=299 is an error whatever the body holds; a body
    /// that could not be decoded is an error although the status is a success.
    pub open spec fn outcome(self) -> Result<T, Error> {
        match self {
            Reply::Unreachable => Err(Error::Transport),
            Reply::Answered { status, body } => if !is_success(status) {
                Err(Error::Status(status))
            } else {
                match body {
                    Some(value) => Ok(value),
                    None => Err(Error::Decode),
                }
            },
        }
    }

    /// Turns the transport's report into the operation's result.
    pub fn conclude(self) -> (r: Result<T, Error>)
        ensures
            r == self.outcome(),
    {
        match self {
            Reply::Unreachable => Err(Error::Transport),
            Reply::Answered { status, body } => {
                if status < 200 || status > 299 {
                    Err(Error::Status(status))
                } else {
                    match body {
                        Some(value) => Ok(value),
                        None => Err(Error::Decode),
                    }
                }
            },
        }
    }
}

/// A status outside 200..=299 is reported as that status, whether or not
/// the body could be decoded: never as a result, and never as a decode
/// failure.
pub proof fn refusal_is_not_a_result<T>(status: u16, body: Option<T>)
    requires
        !is_success(status),
    ensures
        (Reply::Answered { status, body }).outcome() == Err::<T, Error>(Error::Status(status)),
{
}

/// A body that could not be decoded under a success status is reported as a
/// decode failure: never as a result.
pub proof fn unreadable_body_is_not_a_result<T>(status: u16)
    requires
        is_success(status),
    ensures
        (Reply::Answered { status, body: None::<T> }).outcome() == Err::<T, Error>(Error::Decode),
{
}

/// A reply is a result exactly when the server answered with a success
/// status and the body could be decoded, and the result is then that body.
pub proof fn result_needs_success_and_body<T>(reply: Reply<T>)
    ensures
        reply.outcome() is Ok <==> (reply matches Reply::Answered { status, body } && is_success(
            status,
        ) && body is Some),
        reply.outcome() matches Ok(value) ==> reply matches Reply::Answered { body, .. } && body
            == Some(value),
{
}

} // verus!
