//! Whole sessions: what holds after any sequence of events, in whatever
//! order sender, receiver and caller took their turns.

use vstd::prelude::*;
use crate::endpoint::Endpoint;
use crate::error::ProbeError;
use crate::session::SessionView;
use crate::stats::{law_loss_within_bounds, wrapped, FULL_LOSS};
use crate::table::law_pending_bounded;

verus! {

/// One thing that happens to a session.
pub ghost enum Event {
    /// The sender asks for a probe at `now`.
    Begin { now: u64 },
    /// The sender has sent a probe, or has tried to.
    Sent,
    /// The receiver got a datagram from `from` at `now`, in which the parser
    /// found the identifier `reply`, or none.
    Datagram { from: Endpoint, reply: Option<u16>, now: u64 },
    /// A receive failed.
    Failure { error: ProbeError },
    /// The caller calls the session off.
    Cancel,
}

/// The state after one event.
pub open spec fn step(session: SessionView, event: Event) -> SessionView {
    match event {
        Event::Begin { now } => session.begun(now),
        Event::Sent => session.sent(),
        Event::Datagram { from, reply, now } => session.replied(from, reply, now),
        Event::Failure { error } => session.failed(error),
        Event::Cancel => session.cancelled(),
    }
}

/// The state after a sequence of events.
pub open spec fn run(start: SessionView, events: Seq<Event>) -> SessionView
    decreases events.len(),
{
    if events.len() == 0 {
        start
    } else {
        step(run(start, events.drop_last()), events.last())
    }
}

/// Whether an event hands out a probe in a state.
pub open spec fn hands_out(session: SessionView, event: Event) -> bool {
    event is Begin && !session.stopped
}

/// Whether an event is a reply that is matched to a probe in a state.
pub open spec fn answers(session: SessionView, event: Event) -> bool {
    event matches Event::Datagram { from, reply, .. } && session.accepts(from, reply)
}

/// The number of probes that were handed out in the course of the events.
pub open spec fn begun_in(start: SessionView, events: Seq<Event>) -> nat
    decreases events.len(),
{
    if events.len() == 0 {
        0
    } else {
        begun_in(start, events.drop_last()) + (if hands_out(
            run(start, events.drop_last()),
            events.last(),
        ) {
            1nat
        } else {
            0nat
        })
    }
}

/// The number of probes that were counted as sent in the course of the
/// events.
pub open spec fn sent_in(events: Seq<Event>) -> nat
    decreases events.len(),
{
    if events.len() == 0 {
        0
    } else {
        sent_in(events.drop_last()) + (if events.last() is Sent {
            1nat
        } else {
            0nat
        })
    }
}

/// The number of replies that were matched to a probe in the course of the
/// events.
pub open spec fn answered_in(start: SessionView, events: Seq<Event>) -> nat
    decreases events.len(),
{
    if events.len() == 0 {
        0
    } else {
        answered_in(start, events.drop_last()) + (if answers(
            run(start, events.drop_last()),
            events.last(),
        ) {
            1nat
        } else {
            0nat
        })
    }
}

/// Adding to a counter one by one is adding the sum.
proof fn lemma_wrapped_successor(base: int, count: int)
    requires
        base >= 0,
        count >= 0,
    ensures
        wrapped(wrapped(base + count) + 1) == wrapped(base + count + 1),
{
    let range = 0x1_0000_0000_0000_0000int;
    let sum = base + count;
    assert(wrapped(sum) == sum % range);
    assert(((sum % range) + 1) % range == (sum + 1) % range) by (nonlinear_arith)
        requires
            sum >= 0,
            range > 0,
    ;
}

/// What one event does to the counters and to the table.
proof fn lemma_step_account(state: SessionView, event: Event)
    ensures
        step(state, event).stats.sent == (if event is Sent {
            wrapped(state.stats.sent + 1)
        } else {
            state.stats.sent
        }),
        step(state, event).stats.received == (if answers(state, event) {
            wrapped(state.stats.received + 1)
        } else {
            state.stats.received
        }),
        step(state, event).pending.len() + (if answers(state, event) {
            1nat
        } else {
            0nat
        }) <= state.pending.len() + (if hands_out(state, event) {
            1nat
        } else {
            0nat
        }),
        step(state, event).destination == state.destination,
        step(state, event).host == state.host,
        step(state, event).iterate == state.iterate,
        step(state, event).limit == state.limit,
        state.stopped ==> step(state, event).stopped,
{
    law_pending_bounded(state.pending);
    match event {
        Event::Begin { now } => {
            if !state.stopped {
                assert(state.pending.insert(state.next_id(), now).dom()
                    =~= state.pending.dom().insert(state.next_id()));
            }
        },
        Event::Sent => {},
        Event::Datagram { from, reply, now } => {
            if state.accepts(from, reply) {
                assert(state.pending.remove(reply->0).dom() =~= state.pending.dom().remove(
                    reply->0,
                ));
            }
        },
        Event::Failure { error } => {},
        Event::Cancel => {},
    }
}

/// After any sequence of events, the counters say what happened: the sent
/// count has gone up by the probes counted, the received count by the replies
/// matched, and no more replies were matched than probes were pending at the
/// start or handed out since. What a session was set up with stays, and a
/// session that is over stays over.
pub proof fn law_session_account(start: SessionView, events: Seq<Event>)
    ensures
        run(start, events).stats.sent == wrapped(start.stats.sent + sent_in(events)),
        run(start, events).stats.received == wrapped(
            start.stats.received + answered_in(start, events),
        ),
        run(start, events).pending.len() + answered_in(start, events) <= start.pending.len()
            + begun_in(start, events),
        run(start, events).destination == start.destination,
        run(start, events).host == start.host,
        run(start, events).iterate == start.iterate,
        run(start, events).limit == start.limit,
        start.stopped ==> run(start, events).stopped,
    decreases events.len(),
{
    if events.len() == 0 {
        assert(wrapped(start.stats.sent as int) == start.stats.sent);
        assert(wrapped(start.stats.received as int) == start.stats.received);
    } else {
        let before = events.drop_last();
        let event = events.last();
        let state = run(start, before);
        law_session_account(start, before);
        lemma_step_account(state, event);
        assert(run(start, events) == step(state, event));
        if event is Sent {
            lemma_wrapped_successor(start.stats.sent as int, sent_in(before) as int);
        }
        if answers(state, event) {
            lemma_wrapped_successor(
                start.stats.received as int,
                answered_in(start, before) as int,
            );
        }
    }
}

/// In a session that started afresh, whenever every probe handed out has
/// been counted as sent, no more is received than sent and the loss lies
/// between nothing and a full loss, as long as the sent count has not
/// wrapped.
pub proof fn law_session_loss_within_bounds(
    destination: Endpoint,
    host: Seq<char>,
    iterate: bool,
    limit: u64,
    events: Seq<Event>,
)
    requires
        begun_in(SessionView::initial(destination, host, iterate, limit), events) <= sent_in(
            events,
        ) <= u64::MAX,
    ensures
        ({
            let stats = run(
                SessionView::initial(destination, host, iterate, limit),
                events,
            ).stats;
            &&& stats.sent == sent_in(events)
            &&& stats.received == answered_in(
                SessionView::initial(destination, host, iterate, limit),
                events,
            )
            &&& stats.received <= stats.sent
            &&& stats.spec_lost() == stats.sent - stats.received
            &&& 0 <= stats.spec_loss_hundredths() <= FULL_LOSS
        }),
{
    let start = SessionView::initial(destination, host, iterate, limit);
    law_session_account(start, events);
    law_loss_within_bounds(run(start, events).stats);
    assert(start.pending.len() == 0);
}

/// The state after probes were begun and sent at these times, one after the
/// other.
pub open spec fn after_probes(start: SessionView, times: Seq<u64>) -> SessionView
    decreases times.len(),
{
    if times.len() == 0 {
        start
    } else {
        after_probes(start, times.drop_last()).begun(times.last()).sent()
    }
}

/// However many probes a session without a limit has sent, the latest one is
/// pending under an identifier that counts the probes modulo 65536, with the
/// time it was sent at.
pub proof fn law_latest_probe_pending(start: SessionView, times: Seq<u64>)
    requires
        !start.stopped,
        start.limit == 0,
        times.len() > 0,
    ensures
        !after_probes(start, times).stopped,
        after_probes(start, times).last_id == (start.last_id + times.len()) % 65536,
        after_probes(start, times).pending.contains_key(after_probes(start, times).last_id),
        after_probes(start, times).pending[after_probes(start, times).last_id] == times.last(),
        after_probes(start, times).accepts(
            start.destination,
            Some(after_probes(start, times).last_id),
        ),
    decreases times.len(),
{
    let before = times.drop_last();
    if before.len() > 0 {
        law_latest_probe_pending(start, before);
    }
    lemma_after_probes_keeps(start, before);
}

/// Probes change neither the destination nor the limit.
proof fn lemma_after_probes_keeps(start: SessionView, times: Seq<u64>)
    ensures
        after_probes(start, times).destination == start.destination,
        after_probes(start, times).limit == start.limit,
        after_probes(start, times).host == start.host,
        after_probes(start, times).iterate == start.iterate,
        start.limit == 0 ==> after_probes(start, times).stopped == start.stopped,
        times.len() == 0 ==> after_probes(start, times) == start,
    decreases times.len(),
{
    if times.len() > 0 {
        lemma_after_probes_keeps(start, times.drop_last());
    }
}

} // verus!
