//! The outcome that an operation reports to its caller.

use vstd::prelude::*;

verus! {

/// How an operation ended.
#[derive(Clone, Copy, Debug, PartialEq, Eq, Structural)]
pub enum Status {
    /// The operation was carried out.
    Success,
    /// The operation could not be carried out on the target it named.
    BadRequest,
}

/// The HTTP status code that stands for `status`.
pub open spec fn code_of(status: Status) -> u16 {
    match status {
        Status::Success => 200,
        Status::BadRequest => 400,
    }
}

impl Status {
    /// The HTTP status code that stands for this outcome.
    pub fn code(self) -> (code: u16)
        ensures
            code == code_of(self),
    {
        match self {
            Status::Success => 200,
            Status::BadRequest => 400,
        }
    }
}

} // verus!
