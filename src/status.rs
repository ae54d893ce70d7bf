use vstd::prelude::*;

verus! {

/// Raw code of a successful native call.
pub const CODE_OK: i32 = 0;

/// Raw code that signals a pending host exception.
pub const CODE_PENDING_EXCEPTION: i32 = 10;

/// Largest raw code that the native ABI defines.
pub const CODE_LAST_DEFINED: i32 = 23;

/// Raw code reported for a status that the ABI does not define.
pub const CODE_UNKNOWN: i32 = 1024;

/// The outcome categories that a native call into the host runtime reports,
/// plus a catch-all for codes this library does not know.
#[derive(Debug, Clone, Copy, PartialEq, Eq, Structural)]
pub enum Status {
    Success,
    InvalidArg,
    ObjectExpected,
    StringExpected,
    NameExpected,
    FunctionExpected,
    NumberExpected,
    BooleanExpected,
    ArrayExpected,
    GenericFailure,
    PendingException,
    Cancelled,
    EscapeCalledTwice,
    HandleScopeMismatch,
    CallbackScopeMismatch,
    QueueFull,
    Closing,
    BigintExpected,
    DateExpected,
    ArrayBufferExpected,
    DetachableArraybufferExpected,
    WouldDeadlock,
    NoExternalBuffersAllowed,
    CannotRunJs,
    Unknown,
}

/// The status that a raw numeric code stands for.
pub open spec fn status_of_code(code: i32) -> Status {
    if code == 0 {
        Status::Success
    } else if code == 1 {
        Status::InvalidArg
    } else if code == 2 {
        Status::ObjectExpected
    } else if code == 3 {
        Status::StringExpected
    } else if code == 4 {
        Status::NameExpected
    } else if code == 5 {
        Status::FunctionExpected
    } else if code == 6 {
        Status::NumberExpected
    } else if code == 7 {
        Status::BooleanExpected
    } else if code == 8 {
        Status::ArrayExpected
    } else if code == 9 {
        Status::GenericFailure
    } else if code == 10 {
        Status::PendingException
    } else if code == 11 {
        Status::Cancelled
    } else if code == 12 {
        Status::EscapeCalledTwice
    } else if code == 13 {
        Status::HandleScopeMismatch
    } else if code == 14 {
        Status::CallbackScopeMismatch
    } else if code == 15 {
        Status::QueueFull
    } else if code == 16 {
        Status::Closing
    } else if code == 17 {
        Status::BigintExpected
    } else if code == 18 {
        Status::DateExpected
    } else if code == 19 {
        Status::ArrayBufferExpected
    } else if code == 20 {
        Status::DetachableArraybufferExpected
    } else if code == 21 {
        Status::WouldDeadlock
    } else if code == 22 {
        Status::NoExternalBuffersAllowed
    } else if code == 23 {
        Status::CannotRunJs
    } else {
        Status::Unknown
    }
}

/// The raw numeric code of a status.
pub open spec fn code_of_status(s: Status) -> i32 {
    match s {
        Status::Success => 0,
        Status::InvalidArg => 1,
        Status::ObjectExpected => 2,
        Status::StringExpected => 3,
        Status::NameExpected => 4,
        Status::FunctionExpected => 5,
        Status::NumberExpected => 6,
        Status::BooleanExpected => 7,
        Status::ArrayExpected => 8,
        Status::GenericFailure => 9,
        Status::PendingException => 10,
        Status::Cancelled => 11,
        Status::EscapeCalledTwice => 12,
        Status::HandleScopeMismatch => 13,
        Status::CallbackScopeMismatch => 14,
        Status::QueueFull => 15,
        Status::Closing => 16,
        Status::BigintExpected => 17,
        Status::DateExpected => 18,
        Status::ArrayBufferExpected => 19,
        Status::DetachableArraybufferExpected => 20,
        Status::WouldDeadlock => 21,
        Status::NoExternalBuffersAllowed => 22,
        Status::CannotRunJs => 23,
        Status::Unknown => CODE_UNKNOWN,
    }
}

/// The text under which a status is shown to the host.
pub open spec fn status_text(s: Status) -> Seq<char> {
    match s {
        Status::Success => "Ok"@,
        Status::InvalidArg => "InvalidArg"@,
        Status::ObjectExpected => "ObjectExpected"@,
        Status::StringExpected => "StringExpected"@,
        Status::NameExpected => "NameExpected"@,
        Status::FunctionExpected => "FunctionExpected"@,
        Status::NumberExpected => "NumberExpected"@,
        Status::BooleanExpected => "BooleanExpected"@,
        Status::ArrayExpected => "ArrayExpected"@,
        Status::GenericFailure => "GenericFailure"@,
        Status::PendingException => "PendingException"@,
        Status::Cancelled => "Cancelled"@,
        Status::EscapeCalledTwice => "EscapeCalledTwice"@,
        Status::HandleScopeMismatch => "HandleScopeMismatch"@,
        Status::CallbackScopeMismatch => "CallbackScopeMismatch"@,
        Status::QueueFull => "QueueFull"@,
        Status::Closing => "Closing"@,
        Status::BigintExpected => "BigintExpected"@,
        Status::DateExpected => "DateExpected"@,
        Status::ArrayBufferExpected => "ArrayBufferExpected"@,
        Status::DetachableArraybufferExpected => "DetachableArraybufferExpected"@,
        Status::WouldDeadlock => "WouldDeadlock"@,
        Status::NoExternalBuffersAllowed => "NoExternalBuffersAllowed"@,
        Status::CannotRunJs => "CannotRunJs"@,
        Status::Unknown => "Unknown"@,
    }
}

impl Status {
    /// Classifies a raw code; every code outside the defined range becomes `Unknown`.
    pub fn from_code(code: i32) -> (r: Status)
        ensures
            r == status_of_code(code),
    {
        match code {
            0 => Status::Success,
            1 => Status::InvalidArg,
            2 => Status::ObjectExpected,
            3 => Status::StringExpected,
            4 => Status::NameExpected,
            5 => Status::FunctionExpected,
            6 => Status::NumberExpected,
            7 => Status::BooleanExpected,
            8 => Status::ArrayExpected,
            9 => Status::GenericFailure,
            10 => Status::PendingException,
            11 => Status::Cancelled,
            12 => Status::EscapeCalledTwice,
            13 => Status::HandleScopeMismatch,
            14 => Status::CallbackScopeMismatch,
            15 => Status::QueueFull,
            16 => Status::Closing,
            17 => Status::BigintExpected,
            18 => Status::DateExpected,
            19 => Status::ArrayBufferExpected,
            20 => Status::DetachableArraybufferExpected,
            21 => Status::WouldDeadlock,
            22 => Status::NoExternalBuffersAllowed,
            23 => Status::CannotRunJs,
            _ => Status::Unknown,
        }
    }

    /// The raw code of this status; `Unknown` gives the sentinel code.
    pub fn code(self) -> (r: i32)
        ensures
            r == code_of_status(self),
    {
        match self {
            Status::Success => 0,
            Status::InvalidArg => 1,
            Status::ObjectExpected => 2,
            Status::StringExpected => 3,
            Status::NameExpected => 4,
            Status::FunctionExpected => 5,
            Status::NumberExpected => 6,
            Status::BooleanExpected => 7,
            Status::ArrayExpected => 8,
            Status::GenericFailure => 9,
            Status::PendingException => 10,
            Status::Cancelled => 11,
            Status::EscapeCalledTwice => 12,
            Status::HandleScopeMismatch => 13,
            Status::CallbackScopeMismatch => 14,
            Status::QueueFull => 15,
            Status::Closing => 16,
            Status::BigintExpected => 17,
            Status::DateExpected => 18,
            Status::ArrayBufferExpected => 19,
            Status::DetachableArraybufferExpected => 20,
            Status::WouldDeadlock => 21,
            Status::NoExternalBuffersAllowed => 22,
            Status::CannotRunJs => 23,
            Status::Unknown => CODE_UNKNOWN,
        }
    }

    /// The name under which this status is shown to the host.
    pub fn as_str(self) -> (r: &'static str)
        ensures
            r@ == status_text(self),
    {
        match self {
            Status::Success => "Ok",
            Status::InvalidArg => "InvalidArg",
            Status::ObjectExpected => "ObjectExpected",
            Status::StringExpected => "StringExpected",
            Status::NameExpected => "NameExpected",
            Status::FunctionExpected => "FunctionExpected",
            Status::NumberExpected => "NumberExpected",
            Status::BooleanExpected => "BooleanExpected",
            Status::ArrayExpected => "ArrayExpected",
            Status::GenericFailure => "GenericFailure",
            Status::PendingException => "PendingException",
            Status::Cancelled => "Cancelled",
            Status::EscapeCalledTwice => "EscapeCalledTwice",
            Status::HandleScopeMismatch => "HandleScopeMismatch",
            Status::CallbackScopeMismatch => "CallbackScopeMismatch",
            Status::QueueFull => "QueueFull",
            Status::Closing => "Closing",
            Status::BigintExpected => "BigintExpected",
            Status::DateExpected => "DateExpected",
            Status::ArrayBufferExpected => "ArrayBufferExpected",
            Status::DetachableArraybufferExpected => "DetachableArraybufferExpected",
            Status::WouldDeadlock => "WouldDeadlock",
            Status::NoExternalBuffersAllowed => "NoExternalBuffersAllowed",
            Status::CannotRunJs => "CannotRunJs",
            Status::Unknown => "Unknown",
        }
    }
}

/// Status round trip: a code inside the defined range comes back unchanged after
/// classification; any other code is classified as `Unknown`, which reports the
/// sentinel code; and a status comes back unchanged from its own code.
pub proof fn lemma_status_round_trip(code: i32, s: Status)
    ensures
        CODE_OK <= code <= CODE_LAST_DEFINED ==> code_of_status(status_of_code(code)) == code,
        !(CODE_OK <= code <= CODE_LAST_DEFINED) ==> status_of_code(code) == Status::Unknown
            && code_of_status(status_of_code(code)) == CODE_UNKNOWN,
        status_of_code(code_of_status(s)) == s,
{
}

} // verus!
