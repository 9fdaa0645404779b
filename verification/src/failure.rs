//! The error taxonomy of the bridge.
//!
//! A failure is either setup-fatal (no reader will ever work), recoverable
//! within the polling cycle (one insertion's resolution is abandoned and
//! detection resumes), or a protocol-invariant violation (a resolved
//! response whose trailing status word is not `90 00`, which must never be
//! turned into an identifier).

use vstd::prelude::*;

verus! {

/// A failure of one detection/resolution cycle or of the whole setup.
#[derive(Clone, Copy, Debug, PartialEq, Eq, Structural)]
pub enum Failure {
    /// The reader subsystem reported no connected readers: setup-fatal.
    NoReaders,
    /// Connecting to a present card failed for a reason other than absence.
    Connect,
    /// An APDU exchange failed in transit.
    Transmit,
    /// Querying the presence status of a connected card failed.
    Status,
    /// A resolved response did not end in the success status word `90 00`.
    ProtocolViolation,
}

impl Failure {
    /// The process cannot do useful work once this failure is seen.
    pub open spec fn is_setup_fatal(self) -> bool {
        self is NoReaders
    }

    /// The current cycle is abandoned, detection resumes after a backoff.
    pub open spec fn is_cycle_recoverable(self) -> bool {
        self is Connect || self is Transmit || self is Status
    }

    /// The hard invariant of resolution was broken; no identifier may be
    /// derived from the offending response.
    pub open spec fn is_invariant_violation(self) -> bool {
        self is ProtocolViolation
    }

    /// True exactly when the supervision loop must not retry: the failure
    /// is setup-fatal or an invariant violation.
    pub fn is_fatal(&self) -> (b: bool)
        ensures
            b == (self.is_setup_fatal() || self.is_invariant_violation()),
    {
        match self {
            Failure::NoReaders => true,
            Failure::ProtocolViolation => true,
            Failure::Connect => false,
            Failure::Transmit => false,
            Failure::Status => false,
        }
    }

    /// A short diagnostic text for logging.
    pub fn text(&self) -> (r: &'static str)
        ensures
            self is NoReaders ==> r@ == "no readers are connected"@,
            self is Connect ==> r@ == "failed to connect to card"@,
            self is Transmit ==> r@ == "failed to transmit command to card"@,
            self is Status ==> r@ == "failed to get card status"@,
            self is ProtocolViolation ==> r@ == "response did not end in the success status word"@,
    {
        match self {
            Failure::NoReaders => "no readers are connected",
            Failure::Connect => "failed to connect to card",
            Failure::Transmit => "failed to transmit command to card",
            Failure::Status => "failed to get card status",
            Failure::ProtocolViolation => "response did not end in the success status word",
        }
    }
}

} // verus!
