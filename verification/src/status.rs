//! Status codes of the RPC transport.

use vstd::prelude::*;

verus! {

/// The status code that ends an RPC, as gRPC numbers them.
#[derive(Clone, Copy, Debug, PartialEq, Eq, Hash, Structural)]
pub enum Code {
    Success,
    Cancelled,
    Unknown,
    InvalidArgument,
    DeadlineExceeded,
    NotFound,
    AlreadyExists,
    PermissionDenied,
    ResourceExhausted,
    FailedPrecondition,
    Aborted,
    OutOfRange,
    Unimplemented,
    Internal,
    Unavailable,
    DataLoss,
    Unauthenticated,
}

impl Code {
    /// The number that stands for this code on the wire.
    pub open spec fn number(self) -> int {
        match self {
            Code::Success => 0,
            Code::Cancelled => 1,
            Code::Unknown => 2,
            Code::InvalidArgument => 3,
            Code::DeadlineExceeded => 4,
            Code::NotFound => 5,
            Code::AlreadyExists => 6,
            Code::PermissionDenied => 7,
            Code::ResourceExhausted => 8,
            Code::FailedPrecondition => 9,
            Code::Aborted => 10,
            Code::OutOfRange => 11,
            Code::Unimplemented => 12,
            Code::Internal => 13,
            Code::Unavailable => 14,
            Code::DataLoss => 15,
            Code::Unauthenticated => 16,
        }
    }

    /// The code that a wire number stands for; a number outside `0..=16`
    /// stands for `Unknown`.
    pub open spec fn of_number(n: int) -> Code {
        if n == 0 {
            Code::Success
        } else if n == 1 {
            Code::Cancelled
        } else if n == 3 {
            Code::InvalidArgument
        } else if n == 4 {
            Code::DeadlineExceeded
        } else if n == 5 {
            Code::NotFound
        } else if n == 6 {
            Code::AlreadyExists
        } else if n == 7 {
            Code::PermissionDenied
        } else if n == 8 {
            Code::ResourceExhausted
        } else if n == 9 {
            Code::FailedPrecondition
        } else if n == 10 {
            Code::Aborted
        } else if n == 11 {
            Code::OutOfRange
        } else if n == 12 {
            Code::Unimplemented
        } else if n == 13 {
            Code::Internal
        } else if n == 14 {
            Code::Unavailable
        } else if n == 15 {
            Code::DataLoss
        } else if n == 16 {
            Code::Unauthenticated
        } else {
            Code::Unknown
        }
    }

    /// Reads a code from its wire number.
    pub fn from_i32(n: i32) -> (code: Code)
        ensures
            code == Code::of_number(n as int),
    {
        match n {
            0 => Code::Success,
            1 => Code::Cancelled,
            3 => Code::InvalidArgument,
            4 => Code::DeadlineExceeded,
            5 => Code::NotFound,
            6 => Code::AlreadyExists,
            7 => Code::PermissionDenied,
            8 => Code::ResourceExhausted,
            9 => Code::FailedPrecondition,
            10 => Code::Aborted,
            11 => Code::OutOfRange,
            12 => Code::Unimplemented,
            13 => Code::Internal,
            14 => Code::Unavailable,
            15 => Code::DataLoss,
            16 => Code::Unauthenticated,
            _ => Code::Unknown,
        }
    }

    /// Writes a code as its wire number.
    pub fn to_i32(self) -> (n: i32)
        ensures
            n == self.number(),
            0 <= n <= 16,
    {
        match self {
            Code::Success => 0,
            Code::Cancelled => 1,
            Code::Unknown => 2,
            Code::InvalidArgument => 3,
            Code::DeadlineExceeded => 4,
            Code::NotFound => 5,
            Code::AlreadyExists => 6,
            Code::PermissionDenied => 7,
            Code::ResourceExhausted => 8,
            Code::FailedPrecondition => 9,
            Code::Aborted => 10,
            Code::OutOfRange => 11,
            Code::Unimplemented => 12,
            Code::Internal => 13,
            Code::Unavailable => 14,
            Code::DataLoss => 15,
            Code::Unauthenticated => 16,
        }
    }
}

/// Reading the number that a code was written as gives the code back.
pub proof fn lemma_code_number_round_trip(code: Code)
    ensures
        Code::of_number(code.number()) == code,
{
}

/// Whether `code` is one of `codes`.
pub fn contains_code(codes: &Vec<Code>, code: Code) -> (found: bool)
    ensures
        found == codes@.contains(code),
{
    let mut i: usize = 0;
    while i < codes.len()
        invariant
            i <= codes.len(),
            forall|j: int| 0 <= j < i ==> codes@[j] != code,
        decreases codes.len() - i,
    {
        if codes[i] == code {
            return true;
        }
        i += 1;
    }
    false
}

} // verus!
