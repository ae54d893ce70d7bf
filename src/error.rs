use vstd::prelude::*;
use vstd::string::*;

use crate::status::{status_text, Status, CODE_OK};

verus! {

/// A persistent reference to a host value, together with the execution
/// context under which that reference is valid.
#[derive(Debug, Clone, Copy, PartialEq, Eq, Structural)]
pub struct RetainedException {
    pub env: usize,
    pub reference: usize,
}

/// What an `Error` holds, as mathematical values.
pub struct ErrorModel {
    pub status: Status,
    pub reason: Seq<char>,
    pub retained: Option<RetainedException>,
}

/// The unified error value: a status and a message, or a retained host
/// exception that takes precedence over both when the error reaches the host.
///
/// The value is move-only: a retained reference has exactly one owner, and
/// `release` hands it out at most once.
#[derive(Debug)]
pub struct Error {
    pub status: Status,
    pub reason: String,
    retained: Option<RetainedException>,
}

impl View for Error {
    type V = ErrorModel;

    closed spec fn view(&self) -> ErrorModel {
        ErrorModel { status: self.status, reason: self.reason@, retained: self.retained }
    }
}

/// The model of an error that holds only a status and a message.
pub open spec fn self_contained(status: Status, reason: Seq<char>) -> ErrorModel {
    ErrorModel { status, reason, retained: None }
}

/// The model of an error built from a host value, given the status of the
/// call that tried to create a persistent reference to it.
pub open spec fn wrapped_model(env: usize, create_status: i32, reference: usize) -> ErrorModel {
    ErrorModel {
        status: Status::GenericFailure,
        reason: Seq::empty(),
        retained: if create_status == CODE_OK {
            Some(RetainedException { env, reference })
        } else {
            None
        },
    }
}

/// The text of an error as shown in diagnostics: the status name, followed
/// by a comma and the reason when the reason is not empty.
pub open spec fn display_text(m: ErrorModel) -> Seq<char> {
    if m.reason.len() == 0 {
        status_text(m.status)
    } else {
        status_text(m.status) + ", "@ + m.reason
    }
}

/// The model that remains once the retained reference has been handed out.
pub open spec fn released(m: ErrorModel) -> ErrorModel {
    ErrorModel { status: m.status, reason: m.reason, retained: None }
}

impl Error {
    /// An error with the given status and message.
    pub fn new(status: Status, reason: String) -> (r: Error)
        ensures
            r@ == self_contained(status, reason@),
    {
        Error { status, reason, retained: None }
    }

    /// An error with the given status and an empty message.
    pub fn from_status(status: Status) -> (r: Error)
        ensures
            r@ == self_contained(status, Seq::empty()),
    {
        Error { status, reason: String::new(), retained: None }
    }

    /// A generic failure with the given message.
    pub fn from_reason(reason: String) -> (r: Error)
        ensures
            r@ == self_contained(Status::GenericFailure, reason@),
    {
        Error { status: Status::GenericFailure, reason, retained: None }
    }

    /// Wraps a host value in an error, given the outcome of the runtime's
    /// create-reference call on it: on success the reference is retained, on
    /// failure nothing is retained and the error is a plain generic failure.
    pub fn from_host_value(env: usize, create_status: i32, reference: usize) -> (r: Error)
        ensures
            r@ == wrapped_model(env, create_status, reference),
    {
        let retained = if create_status == CODE_OK {
            Some(RetainedException { env, reference })
        } else {
            None
        };
        Error { status: Status::GenericFailure, reason: String::new(), retained }
    }

    /// The status of this error.
    pub fn status(&self) -> (r: Status)
        ensures
            r == self@.status,
    {
        self.status
    }

    /// The message of this error.
    pub fn reason(&self) -> (r: &String)
        ensures
            r@ == self@.reason,
    {
        &self.reason
    }

    /// The retained host reference, if any.
    pub fn retained(&self) -> (r: Option<RetainedException>)
        ensures
            r == self@.retained,
    {
        self.retained
    }

    /// Hands out the retained reference for the runtime's delete-reference
    /// call. The error keeps its status and message and retains nothing
    /// afterwards, so a second call returns `None`.
    pub fn release(&mut self) -> (r: Option<RetainedException>)
        ensures
            r == old(self)@.retained,
            final(self)@ == released(old(self)@),
    {
        let r = self.retained;
        self.retained = None;
        r
    }

    /// The diagnostic text of this error.
    pub fn to_display_string(&self) -> (r: String)
        ensures
            r@ == display_text(self@),
    {
        let name = self.status.as_str();
        if self.reason.as_str().is_empty() {
            proof {
                assert(self.reason@.len() == 0);
            }
            String::from_str(name)
        } else {
            let mut text = String::from_str(name);
            text.append(", ");
            text.append(self.reason.as_str());
            text
        }
    }
}

} // verus!
