//! What can go wrong with a probe or a session.

use vstd::prelude::*;

verus! {

/// The failures that the engine tells apart.
#[derive(Clone, Copy, Debug, PartialEq, Eq, Structural)]
pub enum ProbeError {
    /// No datagram came within the read timeout. In a session this is how a
    /// probe is lost, and nothing more.
    TimedOut,
    /// No query could be built for the host name.
    MalformedMessage,
    /// The transport delivered a datagram without a single byte.
    UnexpectedEof,
    /// The transport failed otherwise.
    Io,
    /// The relay could not be set up.
    Proxy,
    /// Destination and relay belong to different IP families.
    AddressFamilyMismatch,
}

impl ProbeError {
    /// Every failure but a timeout ends a session.
    pub open spec fn spec_ends_session(self) -> bool {
        !(self is TimedOut)
    }

    /// Whether a session that meets this failure has to end.
    pub fn ends_session(&self) -> (fatal: bool)
        ensures
            fatal == self.spec_ends_session(),
    {
        match self {
            ProbeError::TimedOut => false,
            _ => true,
        }
    }
}

} // verus!
