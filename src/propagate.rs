use vstd::prelude::*;
use vstd::string::*;

use crate::error::{self_contained, Error, ErrorModel};
use crate::status::{status_of_code, Status, CODE_OK, CODE_PENDING_EXCEPTION};

verus! {

/// Turns a raw status into success, or into an error of that status with an
/// empty message.
pub fn check_status(code: i32) -> (r: Result<(), Error>)
    ensures
        code == CODE_OK ==> r is Ok,
        code != CODE_OK ==> r is Err && r->Err_0@ == self_contained(
            status_of_code(code),
            Seq::empty(),
        ),
{
    if code == CODE_OK {
        Ok(())
    } else {
        Err(Error::from_status(Status::from_code(code)))
    }
}

/// Turns a raw status into success, or into an error of that status with the
/// given message.
pub fn check_status_with(code: i32, reason: String) -> (r: Result<(), Error>)
    ensures
        code == CODE_OK ==> r is Ok,
        code != CODE_OK ==> r is Err && r->Err_0@ == self_contained(status_of_code(code), reason@),
{
    if code == CODE_OK {
        Ok(())
    } else {
        Err(Error::new(Status::from_code(code), reason))
    }
}

/// The outcome of checking a raw status for a pending host exception.
#[derive(Debug)]
pub enum PendingCheck {
    /// The call succeeded: carry on.
    Proceed,
    /// A host exception is pending: take it with the runtime's
    /// get-and-clear call, wrap it with `Error::from_host_value`, and return
    /// that error at once.
    TakePending,
    /// The call failed without a pending exception.
    Failed(Error),
}

/// A pending-exception check outcome as mathematical values.
pub enum PendingCheckModel {
    Proceed,
    TakePending,
    Failed(ErrorModel),
}

impl View for PendingCheck {
    type V = PendingCheckModel;

    open spec fn view(&self) -> PendingCheckModel {
        match self {
            PendingCheck::Proceed => PendingCheckModel::Proceed,
            PendingCheck::TakePending => PendingCheckModel::TakePending,
            PendingCheck::Failed(e) => PendingCheckModel::Failed(e@),
        }
    }
}

/// What the pending-exception check decides for a raw status and the
/// message of a plain failure.
pub open spec fn pending_check(code: i32, reason: Seq<char>) -> PendingCheckModel {
    if code == CODE_OK {
        PendingCheckModel::Proceed
    } else if code == CODE_PENDING_EXCEPTION {
        PendingCheckModel::TakePending
    } else {
        PendingCheckModel::Failed(self_contained(status_of_code(code), reason))
    }
}

/// Checks a raw status for a pending host exception; a plain failure gets
/// an empty message.
pub fn check_pending_exception(code: i32) -> (r: PendingCheck)
    ensures
        r@ == pending_check(code, Seq::empty()),
{
    check_pending_exception_with(code, String::new())
}

/// Checks a raw status for a pending host exception; a plain failure gets
/// the given message.
pub fn check_pending_exception_with(code: i32, reason: String) -> (r: PendingCheck)
    ensures
        r@ == pending_check(code, reason@),
{
    if code == CODE_OK {
        PendingCheck::Proceed
    } else if code == CODE_PENDING_EXCEPTION {
        PendingCheck::TakePending
    } else {
        PendingCheck::Failed(Error::new(Status::from_code(code), reason))
    }
}

/// Pending-exception short-circuit: a pending-exception status always asks
/// for the pending exception to be taken and returned at once, whatever the
/// message; a success status never touches it.
pub proof fn lemma_pending_short_circuit(reason: Seq<char>)
    ensures
        pending_check(CODE_PENDING_EXCEPTION, reason) == PendingCheckModel::TakePending,
        pending_check(CODE_OK, reason) == PendingCheckModel::Proceed,
{
}

} // verus!
