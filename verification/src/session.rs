//! A probing session: the state that sender and receiver share, and what
//! each of them does with it.
//!
//! The sender asks for the next probe, sends it and says so; the receiver
//! hands in what it received. Either may find the session stopped, by the
//! caller or by the probe limit, and then leaves its loop. The session does
//! no waiting and no sending of its own.

use vstd::prelude::*;
use vstd::utf8::encode_utf8;
use crate::codec::{decode_id, query_image, reply_id, HostName, QUERY_OVERHEAD};
use crate::endpoint::Endpoint;
use crate::error::ProbeError;
use crate::probe::{elapsed, elapsed_between, Arrival};
use crate::stats::{wrapped, Report, Statistics};
use crate::table::CorrelationTable;

verus! {

/// A probe to send.
#[derive(Debug)]
pub struct Probe {
    /// The identifier the reply will carry.
    pub id: u16,
    /// The query, ready for the wire.
    pub query: Vec<u8>,
}

/// What the caller prints for one answered probe.
#[derive(Clone, Copy, Debug, PartialEq, Eq, Structural)]
pub struct ProbeLine {
    /// The size of the reply in bytes.
    pub size: usize,
    /// Where the reply came from.
    pub from: Endpoint,
    pub id: u16,
    /// Microseconds between query and reply.
    pub elapsed: u64,
    /// Probes still without a reply once this one is counted, if any.
    pub in_flight: Option<u64>,
}

/// What the receiver does after a receive.
#[derive(Clone, Copy, Debug, PartialEq, Eq, Structural)]
pub enum ReceiverStep {
    /// A probe was answered.
    Reply(ProbeLine),
    /// Nothing to report.
    Continue,
    /// The transport failed and the session is over.
    Abort(ProbeError),
}

/// The state of a session.
pub struct Session {
    destination: Endpoint,
    host: HostName,
    iterate: bool,
    limit: u64,
    last_id: u16,
    pending: CorrelationTable,
    stats: Statistics,
    stopped: bool,
}

/// What a [`Session`] holds.
pub ghost struct SessionView {
    /// Where queries go to, and where replies have to come from.
    pub destination: Endpoint,
    /// The host name that every query asks for.
    pub host: Seq<char>,
    /// The query flag that the caller chose.
    pub iterate: bool,
    /// The number of probes after which the session stops; zero for none.
    pub limit: u64,
    /// The identifier of the latest probe, zero before the first.
    pub last_id: u16,
    /// The probes that wait for a reply, with the time each was sent at.
    pub pending: Map<u16, u64>,
    pub stats: Statistics,
    /// Whether the session is over.
    pub stopped: bool,
}

impl SessionView {
    /// The state a session starts in.
    pub open spec fn initial(destination: Endpoint, host: Seq<char>, iterate: bool, limit: u64) -> SessionView {
        SessionView {
            destination,
            host,
            iterate,
            limit,
            last_id: 0,
            pending: Map::empty(),
            stats: Statistics::spec_new(),
            stopped: false,
        }
    }

    /// The identifier of the next probe: one more than the latest, and zero
    /// after the largest.
    pub open spec fn next_id(self) -> u16 {
        if self.last_id == u16::MAX {
            0
        } else {
            (self.last_id + 1) as u16
        }
    }

    /// The query that goes out under `id`.
    pub open spec fn query(self, id: u16) -> Option<Seq<u8>> {
        query_image(id, self.iterate, encode_utf8(self.host), self.destination.spec_record_kind())
    }

    /// The state after the sender asked for a probe at `now`: the next
    /// identifier is taken and noted as pending since `now`. A stopped
    /// session stays as it is.
    pub open spec fn begun(self, now: u64) -> SessionView {
        if self.stopped {
            self
        } else {
            SessionView {
                last_id: self.next_id(),
                pending: self.pending.insert(self.next_id(), now),
                ..self
            }
        }
    }

    /// The state after the sender has sent a probe, or has tried to: the
    /// probe is counted, and with the last probe of a limited session the
    /// session stops.
    pub open spec fn sent(self) -> SessionView {
        SessionView {
            stats: self.stats.after_send(),
            stopped: self.stopped || (self.limit != 0 && self.stats.after_send().sent
                == self.limit),
            ..self
        }
    }

    /// A datagram from `from`, in which the parser found the identifier
    /// `reply`, answers a pending probe.
    pub open spec fn accepts(self, from: Endpoint, reply: Option<u16>) -> bool {
        &&& from == self.destination
        &&& reply matches Some(id)
        &&& self.pending.contains_key(id)
    }

    /// The latency of the probe that `reply` answers at `now`.
    pub open spec fn latency(self, reply: Option<u16>, now: u64) -> u64 {
        elapsed_between(self.pending[reply->0], now)
    }

    /// The state after a datagram: a reply to a pending probe is counted and
    /// its entry leaves the table; any other datagram changes nothing.
    pub open spec fn replied(self, from: Endpoint, reply: Option<u16>, now: u64) -> SessionView {
        if self.accepts(from, reply) {
            SessionView {
                pending: self.pending.remove(reply->0),
                stats: self.stats.after_reply(self.latency(reply, now)),
                ..self
            }
        } else {
            self
        }
    }

    /// The line to print for a datagram of `size` bytes, if it answers a
    /// probe.
    pub open spec fn line(self, from: Endpoint, size: usize, reply: Option<u16>, now: u64) -> Option<
        ProbeLine,
    > {
        if self.accepts(from, reply) {
            Some(
                ProbeLine {
                    size,
                    from,
                    id: reply->0,
                    elapsed: self.latency(reply, now),
                    in_flight: self.replied(from, reply, now).stats.spec_in_flight(),
                },
            )
        } else {
            None
        }
    }

    /// The state after a receive that failed. A timeout changes nothing; any
    /// other failure stops the session.
    pub open spec fn failed(self, error: ProbeError) -> SessionView {
        SessionView { stopped: self.stopped || error.spec_ends_session(), ..self }
    }

    /// The state after a receive.
    pub open spec fn received(self, arrival: Arrival, now: u64) -> SessionView {
        match arrival {
            Arrival::Datagram { from, payload } => self.replied(from, reply_id(payload@), now),
            Arrival::Failure(error) => self.failed(error),
        }
    }

    /// What the receiver does after a receive.
    pub open spec fn receiver_step(self, arrival: Arrival, now: u64) -> ReceiverStep {
        match arrival {
            Arrival::Datagram { from, payload } => match self.line(
                from,
                payload@.len() as usize,
                reply_id(payload@),
                now,
            ) {
                Some(line) => ReceiverStep::Reply(line),
                None => ReceiverStep::Continue,
            },
            Arrival::Failure(error) => if error.spec_ends_session() {
                ReceiverStep::Abort(error)
            } else {
                ReceiverStep::Continue
            },
        }
    }

    /// The state after the caller called the session off.
    pub open spec fn cancelled(self) -> SessionView {
        SessionView { stopped: true, ..self }
    }
}

impl View for Session {
    type V = SessionView;

    closed spec fn view(&self) -> SessionView {
        SessionView {
            destination: self.destination,
            host: self.host@,
            iterate: self.iterate,
            limit: self.limit,
            last_id: self.last_id,
            pending: self.pending@,
            stats: self.stats,
            stopped: self.stopped,
        }
    }
}

impl Session {
    /// Starts a session of probes to `destination` that ask for `host`, at
    /// most `limit` of them, or without end where `limit` is zero.
    pub fn new(destination: Endpoint, host: HostName, iterate: bool, limit: u64) -> (session:
        Session)
        ensures
            session@ == SessionView::initial(destination, host@, iterate, limit),
    {
        Session {
            destination,
            host,
            iterate,
            limit,
            last_id: 0,
            pending: CorrelationTable::new(),
            stats: Statistics::new(),
            stopped: false,
        }
    }

    pub fn destination(&self) -> (destination: Endpoint)
        ensures
            destination == self@.destination,
    {
        self.destination
    }

    pub fn statistics(&self) -> (stats: Statistics)
        ensures
            stats == self@.stats,
    {
        self.stats
    }

    /// The number of probes that wait for a reply.
    pub fn pending(&self) -> (count: usize)
        ensures
            count == self@.pending.len(),
    {
        self.pending.len()
    }

    /// Whether the session is over. Sender and receiver ask this after every
    /// step and leave their loops when it is.
    pub fn is_stopped(&self) -> (stopped: bool)
        ensures
            stopped == self@.stopped,
    {
        self.stopped
    }

    /// The size of every query of the session, in bytes.
    pub fn query_len(&self) -> (len: usize)
        ensures
            len == encode_utf8(self@.host).len() + QUERY_OVERHEAD,
    {
        self.host.query_len()
    }

    /// Calls the session off. Probes that are out may still be answered.
    pub fn cancel(&mut self)
        ensures
            final(self)@ == old(self)@.cancelled(),
    {
        self.stopped = true;
    }

    /// The sender's first half: takes the next identifier, notes the probe
    /// as pending since `now` and hands out the query to send. A stopped
    /// session hands out nothing.
    pub fn begin_probe(&mut self, now: u64) -> (probe: Option<Probe>)
        ensures
            final(self)@ == old(self)@.begun(now),
            match probe {
                Some(p) => !old(self)@.stopped && p.id == old(self)@.next_id() && Some(p.query@)
                    == old(self)@.query(p.id),
                None => old(self)@.stopped,
            },
    {
        if self.stopped {
            return None;
        }
        let id = self.last_id.wrapping_add(1);
        self.last_id = id;
        self.pending.record(id, now);
        let query = self.host.query(id, self.iterate, self.destination.record_kind());
        Some(Probe { id, query })
    }

    /// The sender's second half, after the send, whether it succeeded or
    /// not: counts the probe, and stops the session with the last probe of a
    /// limited session. Says whether the session goes on.
    pub fn probe_sent(&mut self) -> (goes_on: bool)
        ensures
            final(self)@ == old(self)@.sent(),
            goes_on == !final(self)@.stopped,
    {
        self.stats.record_sent();
        if self.limit != 0 && self.stats.sent == self.limit {
            self.stopped = true;
        }
        !self.stopped
    }

    /// Takes in a datagram of which the identifier has been read already.
    pub fn on_reply(&mut self, from: &Endpoint, size: usize, reply: Option<u16>, now: u64) -> (line:
        Option<ProbeLine>)
        ensures
            final(self)@ == old(self)@.replied(*from, reply, now),
            line == old(self)@.line(*from, size, reply, now),
    {
        if *from != self.destination {
            return None;
        }
        let id = match reply {
            Some(id) => id,
            None => {
                return None;
            },
        };
        match self.pending.take(id) {
            Some(sent_at) => {
                let latency = elapsed(sent_at, now);
                self.stats.record_reply(latency);
                Some(
                    ProbeLine {
                        size,
                        from: *from,
                        id,
                        elapsed: latency,
                        in_flight: self.stats.in_flight(),
                    },
                )
            },
            None => {
                assert(final(self)@.pending =~= old(self)@.pending);
                None
            },
        }
    }

    /// The receiver's step: takes in what a receive came back with and says
    /// what to do.
    pub fn on_arrival(&mut self, arrival: &Arrival, now: u64) -> (step: ReceiverStep)
        ensures
            final(self)@ == old(self)@.received(*arrival, now),
            step == old(self)@.receiver_step(*arrival, now),
    {
        match arrival {
            Arrival::Datagram { from, payload } => {
                let reply = match decode_id(payload) {
                    Ok(found) => Some(found),
                    Err(_) => None,
                };
                match self.on_reply(from, payload.len(), reply, now) {
                    Some(line) => ReceiverStep::Reply(line),
                    None => ReceiverStep::Continue,
                }
            },
            Arrival::Failure(error) => {
                if error.ends_session() {
                    self.stopped = true;
                    ReceiverStep::Abort(*error)
                } else {
                    ReceiverStep::Continue
                }
            },
        }
    }

    /// The final report. It holds latency figures exactly when a reply was
    /// received.
    pub fn report(&self) -> (report: Report)
        ensures
            report == self@.stats.spec_report(),
            report.latency is Some <==> self@.stats.received > 0,
    {
        self.stats.report()
    }
}

/// The read timeout to set on the transport for a configured timeout, where
/// zero stands for none: the receive then waits without end.
pub fn read_timeout(timeout: u64) -> (wait: Option<u64>)
    ensures
        wait == (if timeout == 0 {
            None
        } else {
            Some(timeout)
        }),
{
    if timeout == 0 {
        None
    } else {
        Some(timeout)
    }
}

/// How long the sender sleeps after a probe: the interval less the time the
/// probe took, and not at all where it took longer.
pub fn pause_after(interval: u64, spent: u64) -> (pause: u64)
    ensures
        pause == (if spent >= interval {
            0
        } else {
            interval - spent
        }),
{
    if spent >= interval {
        0
    } else {
        interval - spent
    }
}

/// In every state, a reply to a pending probe that comes from the
/// destination is counted once: the received count goes up by one, the sent
/// count stays, the entry leaves the table, and the same reply delivered
/// again changes nothing.
pub proof fn law_reply_counted_once(
    session: SessionView,
    from: Endpoint,
    reply: Option<u16>,
    now: u64,
    later: u64,
)
    requires
        session.accepts(from, reply),
    ensures
        session.replied(from, reply, now).stats.received == wrapped(session.stats.received + 1),
        session.replied(from, reply, now).stats.sent == session.stats.sent,
        session.replied(from, reply, now).pending == session.pending.remove(reply->0),
        !session.replied(from, reply, now).accepts(from, reply),
        session.replied(from, reply, now).replied(from, reply, later) == session.replied(
            from,
            reply,
            now,
        ),
{
}

/// In every state, a datagram from another address, one that the parser
/// rejects and one whose identifier is not pending change nothing and give
/// no line.
pub proof fn law_stray_datagram_ignored(
    session: SessionView,
    from: Endpoint,
    size: usize,
    reply: Option<u16>,
    now: u64,
)
    requires
        from != session.destination || reply is None || !session.pending.contains_key(reply->0),
    ensures
        session.replied(from, reply, now) == session,
        session.line(from, size, reply, now) is None,
{
}

/// A probe that was just begun is matched by its own reply, whatever was
/// pending before and whether or not the identifier has wrapped: the latency
/// is counted from the time this probe was begun at.
pub proof fn law_fresh_probe_matched(session: SessionView, sent_at: u64, now: u64)
    requires
        !session.stopped,
    ensures
        session.last_id == u16::MAX ==> session.next_id() == 0,
        session.begun(sent_at).last_id == session.next_id(),
        session.begun(sent_at).accepts(session.destination, Some(session.next_id())),
        session.begun(sent_at).latency(Some(session.next_id()), now) == elapsed_between(
            sent_at,
            now,
        ),
        session.begun(sent_at).replied(
            session.destination,
            Some(session.next_id()),
            now,
        ).stats.received == wrapped(session.stats.received + 1),
{
}

/// A session that is over stays over, and hands out no further probe.
pub proof fn law_stopped_stays_stopped(
    session: SessionView,
    arrival: Arrival,
    now: u64,
)
    requires
        session.stopped,
    ensures
        session.begun(now) == session,
        session.sent().stopped,
        session.received(arrival, now).stopped,
        session.cancelled().stopped,
{
}

} // verus!
