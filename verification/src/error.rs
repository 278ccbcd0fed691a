//! What can go wrong between the two sides of the protocol.

use vstd::prelude::*;

verus! {

/// A condition that neither side can recover from: the two sides no longer
/// agree on the protocol, and going on would publish numbers that mean
/// nothing.  Whoever receives one is expected to stop the process.
#[derive(Clone, Copy, Debug, PartialEq, Eq, Structural)]
pub enum Fatal {
    /// A command other than the recognized one, or a reply without its
    /// payload.
    ProtocolViolation,
    /// A payload that does not encode a record.
    Encoding,
}

/// Why a query for statistics did not yield a record.
#[derive(Clone, Copy, Debug, PartialEq, Eq, Structural)]
pub enum Error {
    /// The privileged read failed with this error code.
    Os(i32),
    /// The channel failed to carry the request or the reply; the code is the
    /// one that the channel reported.
    Transport(i32),
    /// The two sides disagree about the protocol.
    Fatal(Fatal),
}

impl Error {
    /// Whether the process has to stop on this error.
    pub open spec fn spec_is_fatal(&self) -> bool {
        *self is Fatal
    }

    /// Whether the process has to stop on this error.  A failed read and a
    /// failed transfer are reported to the caller; everything else is fatal.
    #[verifier::when_used_as_spec(spec_is_fatal)]
    pub fn is_fatal(&self) -> (fatal: bool)
        ensures
            fatal == self.spec_is_fatal(),
    {
        match self {
            Error::Fatal(_) => true,
            _ => false,
        }
    }
}

} // verus!
