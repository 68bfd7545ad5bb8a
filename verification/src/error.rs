use vstd::prelude::*;

verus! {

/// The contract's own error codes.
///
/// Each variant has a stable numeric code, given by [`Error::code`].
#[derive(Clone, Copy, Debug, PartialEq, Eq, Structural, PartialOrd, Ord)]
pub enum Error {
    NotInitialized,
    AlreadyInitialized,
    InsufficientBalance,
    InvalidAmount,
    NotWhitelisted,
    Paused,
    Unauthorized,
    NoSlotsAvailable,
    Overflow,
}

/// The numeric code of an error: the variants are numbered from 1 in
/// declaration order.
pub open spec fn error_code(e: Error) -> u32 {
    match e {
        Error::NotInitialized => 1,
        Error::AlreadyInitialized => 2,
        Error::InsufficientBalance => 3,
        Error::InvalidAmount => 4,
        Error::NotWhitelisted => 5,
        Error::Paused => 6,
        Error::Unauthorized => 7,
        Error::NoSlotsAvailable => 8,
        Error::Overflow => 9,
    }
}

impl Error {
    /// The stable numeric code of this error.
    pub fn code(&self) -> (c: u32)
        ensures
            c == error_code(*self),
    {
        match self {
            Error::NotInitialized => 1,
            Error::AlreadyInitialized => 2,
            Error::InsufficientBalance => 3,
            Error::InvalidAmount => 4,
            Error::NotWhitelisted => 5,
            Error::Paused => 6,
            Error::Unauthorized => 7,
            Error::NoSlotsAvailable => 8,
            Error::Overflow => 9,
        }
    }
}

/// Why a state-changing call was refused.
///
/// `Contract` carries one of the contract's own errors; `NotAuthorized` is
/// the host's refusal when the address whose authorization the call needs
/// has not given it.
#[derive(Clone, Copy, Debug, PartialEq, Eq, Structural)]
pub enum Failure {
    Contract(Error),
    NotAuthorized,
}

} // verus!
