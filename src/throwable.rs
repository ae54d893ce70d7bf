use vstd::prelude::*;
use vstd::string::*;

use crate::error::{wrapped_model, Error, ErrorModel, RetainedException};
use crate::status::{status_text, Status, CODE_OK};

verus! {

/// Which host constructor builds a new exception object.
#[derive(Debug, Clone, Copy, PartialEq, Eq, Structural)]
pub enum ThrowableKind {
    Generic,
    Type,
    Range,
    Syntax,
}

/// The host value that an error becomes at the boundary.
#[derive(Debug)]
pub enum Materialization {
    /// The retained host value itself: resolve this reference under its own context.
    Retained(RetainedException),
    /// A new exception object of `kind`, with `code` and `message` as its
    /// two host strings.
    Created { kind: ThrowableKind, code: String, message: String },
}

/// What the boundary does when an error is thrown.
#[derive(Debug)]
pub enum ThrowAction {
    /// An exception is already pending in the host: throw nothing.
    Skip,
    /// Throw this value.
    Throw(Materialization),
}

/// A materialization as mathematical values.
pub enum MaterializationModel {
    Retained(RetainedException),
    Created { kind: ThrowableKind, code: Seq<char>, message: Seq<char> },
}

/// A throw decision as mathematical values.
pub enum ThrowModel {
    Skip,
    Throw(MaterializationModel),
}

impl View for Materialization {
    type V = MaterializationModel;

    open spec fn view(&self) -> MaterializationModel {
        match self {
            Materialization::Retained(h) => MaterializationModel::Retained(*h),
            Materialization::Created { kind, code, message } => MaterializationModel::Created {
                kind: *kind,
                code: code@,
                message: message@,
            },
        }
    }
}

impl View for ThrowAction {
    type V = ThrowModel;

    open spec fn view(&self) -> ThrowModel {
        match self {
            ThrowAction::Skip => ThrowModel::Skip,
            ThrowAction::Throw(m) => ThrowModel::Throw(m@),
        }
    }
}

/// The host value of an error: the retained value itself when there is one,
/// otherwise a new object of `kind` built from the status name and reason.
pub open spec fn materialized(m: ErrorModel, kind: ThrowableKind) -> MaterializationModel {
    match m.retained {
        Some(h) => MaterializationModel::Retained(h),
        None => MaterializationModel::Created {
            kind,
            code: status_text(m.status),
            message: m.reason,
        },
    }
}

/// What throwing an error does: nothing while an exception is pending,
/// otherwise a throw of its host value.
pub open spec fn thrown(m: ErrorModel, kind: ThrowableKind) -> ThrowModel {
    if m.status == Status::PendingException {
        ThrowModel::Skip
    } else {
        ThrowModel::Throw(materialized(m, kind))
    }
}

/// Builds the host value of `error` as an exception of `kind`.
pub fn materialize(error: &Error, kind: ThrowableKind) -> (r: Materialization)
    ensures
        r@ == materialized(error@, kind),
{
    match error.retained() {
        Some(h) => Materialization::Retained(h),
        None => Materialization::Created {
            kind,
            code: String::from_str(error.status().as_str()),
            message: error.reason().clone(),
        },
    }
}

/// Decides how `error` is thrown as an exception of `kind`.
pub fn throw_action(error: &Error, kind: ThrowableKind) -> (r: ThrowAction)
    ensures
        r@ == thrown(error@, kind),
{
    if error.status() == Status::PendingException {
        ThrowAction::Skip
    } else {
        ThrowAction::Throw(materialize(error, kind))
    }
}

impl Error {
    /// The host value of this error when it is handed back as data: a
    /// generic exception unless a host value is retained.
    pub fn to_host_value(&self) -> (r: Materialization)
        ensures
            r@ == materialized(self@, ThrowableKind::Generic),
    {
        materialize(self, ThrowableKind::Generic)
    }
}

/// An error that reaches the host as a generic host error.
pub struct JsError(Error);

impl View for JsError {
    type V = ErrorModel;

    closed spec fn view(&self) -> ErrorModel {
        self.0@
    }
}

impl From<Error> for JsError {
    fn from(err: Error) -> (r: JsError)
        ensures
            r@ == err@,
    {
        JsError(err)
    }
}

impl vstd::std_specs::convert::FromSpecImpl<Error> for JsError {
    open spec fn obeys_from_spec() -> bool {
        true
    }

    closed spec fn from_spec(err: Error) -> JsError {
        JsError(err)
    }
}

impl JsError {
    /// The host value of the wrapped error.
    pub fn materialize(&self) -> (r: Materialization)
        ensures
            r@ == materialized(self@, ThrowableKind::Generic),
    {
        materialize(&self.0, ThrowableKind::Generic)
    }

    /// How the wrapped error is thrown.
    pub fn throw(&self) -> (r: ThrowAction)
        ensures
            r@ == thrown(self@, ThrowableKind::Generic),
    {
        throw_action(&self.0, ThrowableKind::Generic)
    }

    /// The wrapped error, for instance to release what it retains.
    pub fn into_error(self) -> (r: Error)
        ensures
            r@ == self@,
    {
        self.0
    }
}

/// An error that reaches the host as a host type error.
pub struct JsTypeError(Error);

impl View for JsTypeError {
    type V = ErrorModel;

    closed spec fn view(&self) -> ErrorModel {
        self.0@
    }
}

impl From<Error> for JsTypeError {
    fn from(err: Error) -> (r: JsTypeError)
        ensures
            r@ == err@,
    {
        JsTypeError(err)
    }
}

impl vstd::std_specs::convert::FromSpecImpl<Error> for JsTypeError {
    open spec fn obeys_from_spec() -> bool {
        true
    }

    closed spec fn from_spec(err: Error) -> JsTypeError {
        JsTypeError(err)
    }
}

impl JsTypeError {
    /// The host value of the wrapped error.
    pub fn materialize(&self) -> (r: Materialization)
        ensures
            r@ == materialized(self@, ThrowableKind::Type),
    {
        materialize(&self.0, ThrowableKind::Type)
    }

    /// How the wrapped error is thrown.
    pub fn throw(&self) -> (r: ThrowAction)
        ensures
            r@ == thrown(self@, ThrowableKind::Type),
    {
        throw_action(&self.0, ThrowableKind::Type)
    }

    /// The wrapped error, for instance to release what it retains.
    pub fn into_error(self) -> (r: Error)
        ensures
            r@ == self@,
    {
        self.0
    }
}

/// An error that reaches the host as a host range error.
pub struct JsRangeError(Error);

impl View for JsRangeError {
    type V = ErrorModel;

    closed spec fn view(&self) -> ErrorModel {
        self.0@
    }
}

impl From<Error> for JsRangeError {
    fn from(err: Error) -> (r: JsRangeError)
        ensures
            r@ == err@,
    {
        JsRangeError(err)
    }
}

impl vstd::std_specs::convert::FromSpecImpl<Error> for JsRangeError {
    open spec fn obeys_from_spec() -> bool {
        true
    }

    closed spec fn from_spec(err: Error) -> JsRangeError {
        JsRangeError(err)
    }
}

impl JsRangeError {
    /// The host value of the wrapped error.
    pub fn materialize(&self) -> (r: Materialization)
        ensures
            r@ == materialized(self@, ThrowableKind::Range),
    {
        materialize(&self.0, ThrowableKind::Range)
    }

    /// How the wrapped error is thrown.
    pub fn throw(&self) -> (r: ThrowAction)
        ensures
            r@ == thrown(self@, ThrowableKind::Range),
    {
        throw_action(&self.0, ThrowableKind::Range)
    }

    /// The wrapped error, for instance to release what it retains.
    pub fn into_error(self) -> (r: Error)
        ensures
            r@ == self@,
    {
        self.0
    }
}

/// An error that reaches the host as a host syntax error.
pub struct JsSyntaxError(Error);

impl View for JsSyntaxError {
    type V = ErrorModel;

    closed spec fn view(&self) -> ErrorModel {
        self.0@
    }
}

impl From<Error> for JsSyntaxError {
    fn from(err: Error) -> (r: JsSyntaxError)
        ensures
            r@ == err@,
    {
        JsSyntaxError(err)
    }
}

impl vstd::std_specs::convert::FromSpecImpl<Error> for JsSyntaxError {
    open spec fn obeys_from_spec() -> bool {
        true
    }

    closed spec fn from_spec(err: Error) -> JsSyntaxError {
        JsSyntaxError(err)
    }
}

impl JsSyntaxError {
    /// The host value of the wrapped error.
    pub fn materialize(&self) -> (r: Materialization)
        ensures
            r@ == materialized(self@, ThrowableKind::Syntax),
    {
        materialize(&self.0, ThrowableKind::Syntax)
    }

    /// How the wrapped error is thrown.
    pub fn throw(&self) -> (r: ThrowAction)
        ensures
            r@ == thrown(self@, ThrowableKind::Syntax),
    {
        throw_action(&self.0, ThrowableKind::Syntax)
    }

    /// The wrapped error, for instance to release what it retains.
    pub fn into_error(self) -> (r: Error)
        ensures
            r@ == self@,
    {
        self.0
    }
}

/// Identity preservation: an error that wraps a host value it could retain
/// materializes, and is thrown, as that very reference under its own
/// context, whichever kind of exception is asked for; no new object is built.
pub proof fn lemma_identity_preserved(env: usize, reference: usize, kind: ThrowableKind)
    ensures
        materialized(wrapped_model(env, CODE_OK, reference), kind)
            == MaterializationModel::Retained(RetainedException { env, reference }),
        thrown(wrapped_model(env, CODE_OK, reference), kind) == ThrowModel::Throw(
            MaterializationModel::Retained(RetainedException { env, reference }),
        ),
{
}

/// No re-throw on pending status: throwing an error whose status says that
/// an exception is already pending throws nothing.
pub proof fn lemma_no_rethrow_when_pending(m: ErrorModel, kind: ThrowableKind)
    requires
        m.status == Status::PendingException,
    ensures
        thrown(m, kind) == ThrowModel::Skip,
{
}

} // verus!
