//! One probe on its own: a query goes out, and what comes in is judged until
//! the reply is there or the transport gives up.

use vstd::prelude::*;
use vstd::string::StringSliceAdditionalSpecFns;
use crate::codec::{decode_id, encode_query, query_image, reply_id, QUERY_OVERHEAD};
use crate::endpoint::Endpoint;
use crate::error::ProbeError;

verus! {

/// What a receive on the transport came back with.
#[derive(Clone, Copy, Debug)]
pub enum Arrival<'a> {
    /// A datagram, and the address it came from.
    Datagram { from: Endpoint, payload: &'a [u8] },
    /// No datagram: the wait timed out, or the transport failed.
    Failure(ProbeError),
}

/// What to do after a receive.
#[derive(Clone, Copy, Debug, PartialEq, Eq, Structural)]
pub enum PingStep {
    /// The reply is there: it had `size` bytes and came `elapsed`
    /// microseconds after the query.
    Done { size: usize, elapsed: u64 },
    /// What came was not the reply: receive again.
    Again,
    /// The probe failed.
    Fail(ProbeError),
}

/// The time from `started` to `now`, and nothing where the clock went back.
pub open spec fn elapsed_between(started: u64, now: u64) -> u64 {
    if now >= started {
        (now - started) as u64
    } else {
        0
    }
}

/// The time from `started` to `now`.
pub fn elapsed(started: u64, now: u64) -> (span: u64)
    ensures
        span == elapsed_between(started, now),
{
    if now >= started {
        now - started
    } else {
        0
    }
}

/// A single probe under way.
#[derive(Clone, Copy, Debug, PartialEq, Eq, Structural)]
pub struct Ping {
    /// Where the query goes to.
    pub destination: Endpoint,
    /// The identifier of the query.
    pub id: u16,
    /// When the query was sent, in microseconds.
    pub started: u64,
}

impl Ping {
    /// The verdict on a datagram of `size` bytes from `from` in which the
    /// parser found the identifier `reply`, or none.
    ///
    /// An empty datagram fails the probe. The reply is a datagram from the
    /// destination that carries the probe's identifier. Anything else is
    /// passed over.
    pub open spec fn judged(self, from: Endpoint, size: usize, reply: Option<u16>, now: u64) -> PingStep {
        if size == 0 {
            PingStep::Fail(ProbeError::UnexpectedEof)
        } else if from == self.destination && reply == Some(self.id) {
            PingStep::Done { size, elapsed: elapsed_between(self.started, now) }
        } else {
            PingStep::Again
        }
    }

    /// The step after a receive: a datagram is parsed and judged, a failure
    /// of the transport fails the probe at once.
    pub open spec fn stepped(self, arrival: Arrival, now: u64) -> PingStep {
        match arrival {
            Arrival::Datagram { from, payload } => self.judged(
                from,
                payload@.len() as usize,
                reply_id(payload@),
                now,
            ),
            Arrival::Failure(error) => PingStep::Fail(error),
        }
    }

    pub fn new(destination: Endpoint, id: u16, started: u64) -> (ping: Ping)
        ensures
            ping == (Ping { destination, id, started }),
    {
        Ping { destination, id, started }
    }

    /// The query to send: for the record kind of the destination's family,
    /// under the probe's identifier.
    pub fn query(&self, iterate: bool, host: &str) -> (query: Result<Vec<u8>, ProbeError>)
        ensures
            match query_image(
                self.id,
                iterate,
                host.spec_bytes(),
                self.destination.spec_record_kind(),
            ) {
                Some(image) => query matches Ok(bytes) && bytes@ == image && bytes@.len()
                    == host.spec_bytes().len() + QUERY_OVERHEAD,
                None => query == Err::<Vec<u8>, ProbeError>(ProbeError::MalformedMessage),
            },
    {
        encode_query(self.id, iterate, host, self.destination.record_kind())
    }

    /// Judges a datagram of which the identifier has been read already.
    pub fn judge(&self, from: &Endpoint, size: usize, reply: Option<u16>, now: u64) -> (step:
        PingStep)
        ensures
            step == self.judged(*from, size, reply, now),
    {
        if size == 0 {
            return PingStep::Fail(ProbeError::UnexpectedEof);
        }
        let matched = match reply {
            Some(found) => found == self.id,
            None => false,
        };
        if *from == self.destination && matched {
            PingStep::Done { size, elapsed: elapsed(self.started, now) }
        } else {
            PingStep::Again
        }
    }

    /// Decides what follows a receive.
    pub fn on_arrival(&self, arrival: &Arrival, now: u64) -> (step: PingStep)
        ensures
            step == self.stepped(*arrival, now),
    {
        match arrival {
            Arrival::Datagram { from, payload } => {
                let reply = match decode_id(payload) {
                    Ok(found) => Some(found),
                    Err(_) => None,
                };
                self.judge(from, payload.len(), reply, now)
            },
            Arrival::Failure(error) => PingStep::Fail(*error),
        }
    }
}

} // verus!
