//! Error classes the dispatch engine replies with.

use vstd::prelude::*;

verus! {

/// The class of error a rejected or failed request is answered with.
///
/// Each class corresponds to one kernel error code; a backend failure is
/// passed through verbatim as the code the backend signalled.
#[derive(Clone, Copy, Debug, PartialEq, Eq, Structural)]
pub enum Errno {
    /// Ordering violation: an operation outside the session lifecycle.
    Io,
    /// The session's access-control policy denies the caller.
    Access,
    /// The operation is not implemented by this engine.
    NotImplemented,
    /// An Init claimed a protocol version below the supported minimum.
    Proto,
    /// An error code signalled by a backend capability, passed through.
    Backend(i32),
}

impl Errno {
    /// The kernel error code this class is encoded as on the wire.
    pub open spec fn spec_code(self) -> i32 {
        match self {
            Errno::Io => 5,
            Errno::Access => 13,
            Errno::NotImplemented => 38,
            Errno::Proto => 71,
            Errno::Backend(code) => code,
        }
    }

    /// The kernel error code this class is encoded as on the wire.
    #[verifier::when_used_as_spec(spec_code)]
    pub fn code(self) -> (r: i32)
        ensures
            r == self.spec_code(),
    {
        match self {
            Errno::Io => 5,
            Errno::Access => 13,
            Errno::NotImplemented => 38,
            Errno::Proto => 71,
            Errno::Backend(code) => code,
        }
    }
}

} // verus!
