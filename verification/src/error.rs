//! Failures that the library reports to its callers.

use vstd::prelude::*;

verus! {

/// A recoverable failure, handed back to the immediate caller.
#[derive(Clone, Copy, Debug, PartialEq, Eq, Structural)]
pub enum Error {
    /// The sector size, in bytes, is not a whole number of nodes.
    InvalidInput { sector_bytes: u64 },
    /// A byte string does not denote a value of the domain.
    Decoding,
    /// A proof scheme refused the parameters handed to its setup.
    Setup,
}

impl Error {
    /// The text shown for this failure.
    pub fn message(&self) -> (text: &'static str)
        ensures
            text@ == match *self {
                Error::InvalidInput { .. } => "sector_bytes must be a multiple of 32"@,
                Error::Decoding => "bytes do not encode a domain value"@,
                Error::Setup => "scheme setup failed"@,
            },
    {
        match self {
            Error::InvalidInput { .. } => "sector_bytes must be a multiple of 32",
            Error::Decoding => "bytes do not encode a domain value",
            Error::Setup => "scheme setup failed",
        }
    }
}

} // verus!
