//! RPC status: a code and a message, as they travel back to a caller.

use crate::proto::{clone_payload, payload_view, Any, AnyView};
use vstd::prelude::*;

verus! {

/// The status codes of the RPC transport, in the order of their numbers.
#[derive(Clone, Copy, Debug, PartialEq, Eq, Hash, Structural)]
pub enum Code {
    Okay,
    Cancelled,
    Unknown,
    InvalidArgument,
    DeadlineExceeded,
    NotFound,
    AlreadyExists,
    PermissionDenied,
    ResourceExhausted,
    FailedPrecondition,
    Aborted,
    OutOfRange,
    Unimplemented,
    Internal,
    Unavailable,
    DataLoss,
    Unauthenticated,
}

/// The number that stands for `i` on the wire once it has been read as a
/// code: itself if it names a code, else the number of `Unknown`.
pub open spec fn known_code_number(i: int) -> int {
    if 0 <= i <= 16 {
        i
    } else {
        2
    }
}

impl Code {
    /// The number of this code on the wire.
    pub open spec fn number(self) -> int {
        match self {
            Code::Okay => 0,
            Code::Cancelled => 1,
            Code::Unknown => 2,
            Code::InvalidArgument => 3,
            Code::DeadlineExceeded => 4,
            Code::NotFound => 5,
            Code::AlreadyExists => 6,
            Code::PermissionDenied => 7,
            Code::ResourceExhausted => 8,
            Code::FailedPrecondition => 9,
            Code::Aborted => 10,
            Code::OutOfRange => 11,
            Code::Unimplemented => 12,
            Code::Internal => 13,
            Code::Unavailable => 14,
            Code::DataLoss => 15,
            Code::Unauthenticated => 16,
        }
    }

    /// The code whose number is `i`; `Unknown` if there is none.
    pub open spec fn of_number(i: int) -> Code {
        if i == 0 {
            Code::Okay
        } else if i == 1 {
            Code::Cancelled
        } else if i == 3 {
            Code::InvalidArgument
        } else if i == 4 {
            Code::DeadlineExceeded
        } else if i == 5 {
            Code::NotFound
        } else if i == 6 {
            Code::AlreadyExists
        } else if i == 7 {
            Code::PermissionDenied
        } else if i == 8 {
            Code::ResourceExhausted
        } else if i == 9 {
            Code::FailedPrecondition
        } else if i == 10 {
            Code::Aborted
        } else if i == 11 {
            Code::OutOfRange
        } else if i == 12 {
            Code::Unimplemented
        } else if i == 13 {
            Code::Internal
        } else if i == 14 {
            Code::Unavailable
        } else if i == 15 {
            Code::DataLoss
        } else if i == 16 {
            Code::Unauthenticated
        } else {
            Code::Unknown
        }
    }

    /// The code that `i` names; `Unknown` if it names none.
    pub fn from_i32(i: i32) -> (code: Code)
        ensures
            code == Code::of_number(i as int),
            code.number() == known_code_number(i as int),
    {
        match i {
            0 => Code::Okay,
            1 => Code::Cancelled,
            3 => Code::InvalidArgument,
            4 => Code::DeadlineExceeded,
            5 => Code::NotFound,
            6 => Code::AlreadyExists,
            7 => Code::PermissionDenied,
            8 => Code::ResourceExhausted,
            9 => Code::FailedPrecondition,
            10 => Code::Aborted,
            11 => Code::OutOfRange,
            12 => Code::Unimplemented,
            13 => Code::Internal,
            14 => Code::Unavailable,
            15 => Code::DataLoss,
            16 => Code::Unauthenticated,
            _ => Code::Unknown,
        }
    }

    /// The number of this code, for the wire.
    pub fn to_i32(self) -> (n: i32)
        ensures
            n as int == self.number(),
    {
        match self {
            Code::Okay => 0,
            Code::Cancelled => 1,
            Code::Unknown => 2,
            Code::InvalidArgument => 3,
            Code::DeadlineExceeded => 4,
            Code::NotFound => 5,
            Code::AlreadyExists => 6,
            Code::PermissionDenied => 7,
            Code::ResourceExhausted => 8,
            Code::FailedPrecondition => 9,
            Code::Aborted => 10,
            Code::OutOfRange => 11,
            Code::Unimplemented => 12,
            Code::Internal => 13,
            Code::Unavailable => 14,
            Code::DataLoss => 15,
            Code::Unauthenticated => 16,
        }
    }
}

/// Two codes with the same number are the same code.
pub proof fn lemma_code_by_number(a: Code, b: Code)
    requires
        a.number() == b.number(),
    ensures
        a == b,
{
}

/// Reading a code's number gives the code back, and reading any number
/// gives a code whose number is that number or the number of `Unknown`.
pub proof fn lemma_code_number_round_trip(code: Code, i: int)
    ensures
        Code::of_number(code.number()) == code,
        Code::of_number(i).number() == known_code_number(i),
{
}

/// The failure of one call: a code and a message for the caller, and,
/// where the one who failed gave any, details for a machine to read.
#[derive(Debug)]
pub struct Status {
    pub code: Code,
    pub message: String,
    pub details: Option<Any>,
}

/// What a `Status` says.
pub ghost struct StatusView {
    pub code: Code,
    pub message: Seq<char>,
    pub details: Option<AnyView>,
}

impl View for Status {
    type V = StatusView;

    open spec fn view(&self) -> StatusView {
        StatusView {
            code: self.code,
            message: self.message@,
            details: payload_view(self.details),
        }
    }
}

impl Clone for Status {
    fn clone(&self) -> (r: Self)
        ensures
            r@ == self@,
    {
        Status {
            code: self.code,
            message: self.message.clone(),
            details: clone_payload(&self.details),
        }
    }
}

impl Status {
    /// A status with this code and message, without details.
    pub fn new(code: Code, message: &str) -> (s: Status)
        ensures
            s@ == (StatusView { code, message: message@, details: None }),
    {
        Status { code, message: message.to_owned(), details: None }
    }

    /// A status with this code, message and details.
    pub fn with_details(code: Code, message: &str, details: Option<Any>) -> (s: Status)
        ensures
            s@ == (StatusView { code, message: message@, details: payload_view(details) }),
    {
        Status { code, message: message.to_owned(), details }
    }

    /// The caller may not do this.
    pub fn permission_denied(message: &str) -> (s: Status)
        ensures
            s@ == (StatusView { code: Code::PermissionDenied, message: message@, details: None }),
    {
        Status::new(Code::PermissionDenied, message)
    }

    /// The call was given up, here because its sequence number was stale.
    pub fn aborted(message: &str) -> (s: Status)
        ensures
            s@ == (StatusView { code: Code::Aborted, message: message@, details: None }),
    {
        Status::new(Code::Aborted, message)
    }

    /// The operation exists in the interface and does nothing yet.
    pub fn unimplemented(message: &str) -> (s: Status)
        ensures
            s@ == (StatusView { code: Code::Unimplemented, message: message@, details: None }),
    {
        Status::new(Code::Unimplemented, message)
    }

    /// The broker itself could not carry the call out.
    pub fn internal(message: &str) -> (s: Status)
        ensures
            s@ == (StatusView { code: Code::Internal, message: message@, details: None }),
    {
        Status::new(Code::Internal, message)
    }
}

} // verus!
