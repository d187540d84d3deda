//! The shared error taxonomy of every component above the transport
//! boundary.

use vstd::prelude::*;

verus! {

/// Failure to pack a command into its buffer: the caller's command encoding
/// is invalid or the buffer is too small. Produced by command
/// implementations; carried here, not decoded.
#[derive(Copy, Clone, PartialEq, Eq, Structural, Debug)]
pub struct PackError;

/// A numeric operation-failure code reported by the controller. A carrier
/// only: the enumeration of its values is not decoded here.
#[derive(Copy, Clone, PartialEq, Eq, Structural, Debug)]
pub struct ErrorCode {
    code: u8,
}

impl ErrorCode {
    /// The raw controller-reported code.
    pub closed spec fn spec_code(self) -> u8 {
        self.code
    }

    /// Wrap a raw controller-reported code.
    pub fn new(code: u8) -> (r: ErrorCode)
        ensures
            r.spec_code() == code,
    {
        ErrorCode { code }
    }

    /// The raw controller-reported code.
    pub fn to_u8(self) -> (r: u8)
        ensures
            r == self.spec_code(),
    {
        self.code
    }
}

/// Everything that can go wrong above the transport boundary. Flat and
/// non-recoverable: each fallible operation surfaces one variant to its
/// caller rather than retrying.
#[derive(Copy, Clone, PartialEq, Eq, Structural, Debug)]
pub enum StreamError {
    /// A command failed to pack into its buffer.
    CommandError(PackError),
    /// A wire byte does not map to a known event code.
    BadOpcode,
    /// The underlying transport reported a failure.
    IOError,
    /// The controller reported an operation failure via its own error code.
    HCIError(ErrorCode),
}

} // verus!
