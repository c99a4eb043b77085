use vstd::prelude::*;

verus! {

/// A failed invocation, tagged with the stage at which it failed.
#[derive(Clone, Copy, Debug, PartialEq, Eq, Structural)]
pub enum InvokeError {
    /// The module identifier does not name a readable, valid binary.
    Resolution,
    /// The sandbox could not be constructed.
    Environment,
    /// The module's imports cannot be satisfied by the registered
    /// system-interface surface.
    Link,
    /// No zero-argument, zero-result entry procedure exists.
    EntryPointNotFound,
    /// The guest raised a runtime fault during execution.
    GuestTrap,
    /// The guest exhausted its execution budget.
    GuestTimeout,
    /// The captured output is not valid text.
    Decode,
}

impl InvokeError {
    /// True exactly for the failures that the caller addressed wrongly,
    /// as opposed to failures of the execution itself.
    pub fn is_client_error(&self) -> (r: bool)
        ensures
            r == (*self == InvokeError::Resolution),
    {
        matches!(self, InvokeError::Resolution)
    }

    /// The HTTP status code under which a dispatcher reports this failure.
    pub open spec fn spec_status(self) -> u16 {
        if self == InvokeError::Resolution {
            404
        } else {
            500
        }
    }

    /// Status code of this failure: client-addressable resolution failures
    /// are distinguished from server-side execution failures, and no
    /// failure maps to the success status.
    pub fn status(&self) -> (s: u16)
        ensures
            s == self.spec_status(),
            s != 200,
    {
        if self.is_client_error() {
            404
        } else {
            500
        }
    }

    /// The text under which this failure is reported.
    pub open spec fn spec_describe(self) -> Seq<char> {
        match self {
            InvokeError::Resolution => "module not found"@,
            InvokeError::Environment => "sandbox construction failed"@,
            InvokeError::Link => "module imports cannot be satisfied"@,
            InvokeError::EntryPointNotFound => "no entry point"@,
            InvokeError::GuestTrap => "guest trapped"@,
            InvokeError::GuestTimeout => "execution budget exhausted"@,
            InvokeError::Decode => "output is not valid text"@,
        }
    }

    /// Report this failure as text.
    pub fn describe(&self) -> (m: &'static str)
        ensures
            m@ == self.spec_describe(),
    {
        match self {
            InvokeError::Resolution => "module not found",
            InvokeError::Environment => "sandbox construction failed",
            InvokeError::Link => "module imports cannot be satisfied",
            InvokeError::EntryPointNotFound => "no entry point",
            InvokeError::GuestTrap => "guest trapped",
            InvokeError::GuestTimeout => "execution budget exhausted",
            InvokeError::Decode => "output is not valid text",
        }
    }
}

} // verus!
