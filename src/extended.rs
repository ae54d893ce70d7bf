use vstd::prelude::*;

use crate::error::{self_contained, Error};
use crate::status::{status_of_code, Status};

verus! {

/// The host runtime's detailed report on the last failed call.
#[derive(Debug)]
pub struct ExtendedErrorInfo {
    pub message: String,
    /// Opaque engine data, carried as an address and never read.
    pub engine_reserved: usize,
    pub engine_error_code: u32,
    pub error_code: Status,
}

impl ExtendedErrorInfo {
    /// Builds the report from its raw parts. `message` is the runtime's
    /// message already decoded, or the text of the decoding failure, which
    /// becomes a generic failure.
    pub fn try_from_parts(
        message: Result<String, String>,
        engine_reserved: usize,
        engine_error_code: u32,
        error_code: i32,
    ) -> (r: Result<ExtendedErrorInfo, Error>)
        ensures
            message is Ok <==> r is Ok,
            message is Ok ==> {
                let info = r->Ok_0;
                &&& info.message@ == message->Ok_0@
                &&& info.engine_reserved == engine_reserved
                &&& info.engine_error_code == engine_error_code
                &&& info.error_code == status_of_code(error_code)
            },
            message is Err ==> r->Err_0@ == self_contained(Status::GenericFailure, message->Err_0@),
    {
        match message {
            Ok(message) => Ok(
                ExtendedErrorInfo {
                    message,
                    engine_reserved,
                    engine_error_code,
                    error_code: Status::from_code(error_code),
                },
            ),
            Err(text) => Err(Error::new(Status::GenericFailure, text)),
        }
    }
}

} // verus!
