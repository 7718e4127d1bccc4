//! The running account of a session: how many probes went out, how many came
//! back, and how long the answered ones took.
//!
//! Latencies are whole microseconds. Both counters and the running total wrap
//! at the width of a `u64`, and nothing here fails or panics when they do.

use vstd::prelude::*;

verus! {

/// Two to the power 64: the number of values of a counter.
pub const COUNTER_RANGE: u128 = 0x1_0000_0000_0000_0000;

/// A full loss, in hundredths of a percent.
pub const FULL_LOSS: u128 = 10000;

/// `value` brought into the range of a counter.
pub open spec fn wrapped(value: int) -> u64 {
    (value % (COUNTER_RANGE as int)) as u64
}

/// Counters and latency figures of a session.
#[derive(Clone, Copy, Debug, PartialEq, Eq, Structural)]
pub struct Statistics {
    /// Probes sent.
    pub sent: u64,
    /// Replies matched to a probe.
    pub received: u64,
    /// The shortest latency seen, `u64::MAX` before the first reply.
    pub latency_min: u64,
    /// The longest latency seen, zero before the first reply.
    pub latency_max: u64,
    /// The sum of all latencies seen.
    pub latency_total: u64,
}

/// Latency figures of the answered probes, in microseconds.
#[derive(Clone, Copy, Debug, PartialEq, Eq, Structural)]
pub struct LatencySummary {
    pub min: u64,
    /// The sum of the latencies by the number of replies, rounded down.
    pub avg: u64,
    pub max: u64,
}

/// What a session reports when it is over.
#[derive(Clone, Copy, Debug, PartialEq, Eq, Structural)]
pub struct Report {
    pub transmitted: u64,
    pub received: u64,
    /// Probes without a reply.
    pub lost: u64,
    /// The share of lost probes in hundredths of a percent, rounded to the
    /// nearest; zero when nothing was sent.
    pub loss_hundredths: u128,
    /// Absent when no reply was received.
    pub latency: Option<LatencySummary>,
}

impl Statistics {
    /// The account of a session in which nothing has happened yet.
    pub open spec fn spec_new() -> Statistics {
        Statistics {
            sent: 0,
            received: 0,
            latency_min: u64::MAX,
            latency_max: 0,
            latency_total: 0,
        }
    }

    /// The account after one more probe went out.
    pub open spec fn after_send(self) -> Statistics {
        Statistics { sent: wrapped(self.sent + 1), ..self }
    }

    /// The account after one more reply, which took `latency`.
    pub open spec fn after_reply(self, latency: u64) -> Statistics {
        Statistics {
            sent: self.sent,
            received: wrapped(self.received + 1),
            latency_min: if latency < self.latency_min {
                latency
            } else {
                self.latency_min
            },
            latency_max: if latency > self.latency_max {
                latency
            } else {
                self.latency_max
            },
            latency_total: wrapped(self.latency_total + latency),
        }
    }

    /// Probes without a reply: sent less received, as counters subtract.
    pub open spec fn spec_lost(self) -> u64 {
        wrapped(self.sent - self.received)
    }

    /// The number of probes still without a reply, where there are any.
    pub open spec fn spec_in_flight(self) -> Option<u64> {
        if self.sent != self.received {
            Some(self.spec_lost())
        } else {
            None
        }
    }

    /// Lost by sent, in hundredths of a percent, rounded to the nearest.
    pub open spec fn spec_loss_hundredths(self) -> int {
        if self.sent == 0 {
            0
        } else {
            (self.spec_lost() * FULL_LOSS + self.sent / 2) / (self.sent as int)
        }
    }

    /// The latency figures, which exist once a reply has been received.
    pub open spec fn spec_latency(self) -> Option<LatencySummary> {
        if self.received == 0 {
            None
        } else {
            Some(
                LatencySummary {
                    min: self.latency_min,
                    avg: self.latency_total / self.received,
                    max: self.latency_max,
                },
            )
        }
    }

    pub open spec fn spec_report(self) -> Report {
        Report {
            transmitted: self.sent,
            received: self.received,
            lost: self.spec_lost(),
            loss_hundredths: self.spec_loss_hundredths() as u128,
            latency: self.spec_latency(),
        }
    }

    pub fn new() -> (stats: Statistics)
        ensures
            stats == Statistics::spec_new(),
    {
        Statistics {
            sent: 0,
            received: 0,
            latency_min: u64::MAX,
            latency_max: 0,
            latency_total: 0,
        }
    }

    /// Counts one probe as sent.
    pub fn record_sent(&mut self)
        ensures
            *final(self) == old(self).after_send(),
    {
        self.sent = self.sent.wrapping_add(1);
    }

    /// Counts one reply and folds its latency into the figures.
    pub fn record_reply(&mut self, latency: u64)
        ensures
            *final(self) == old(self).after_reply(latency),
    {
        self.received = self.received.wrapping_add(1);
        self.latency_total = self.latency_total.wrapping_add(latency);
        if latency < self.latency_min {
            self.latency_min = latency;
        }
        if latency > self.latency_max {
            self.latency_max = latency;
        }
    }

    /// Probes without a reply.
    pub fn lost(&self) -> (lost: u64)
        ensures
            lost == self.spec_lost(),
            self.received <= self.sent ==> lost == self.sent - self.received,
    {
        self.sent.wrapping_sub(self.received)
    }

    /// Probes still without a reply, for the line that reports a reply: absent
    /// when every probe sent so far has been answered.
    pub fn in_flight(&self) -> (pending: Option<u64>)
        ensures
            pending == self.spec_in_flight(),
    {
        if self.sent != self.received {
            Some(self.lost())
        } else {
            None
        }
    }

    /// The share of lost probes, in hundredths of a percent.
    ///
    /// It lies between nothing and [`FULL_LOSS`] as long as no more was
    /// received than sent.
    pub fn loss_hundredths(&self) -> (loss: u128)
        ensures
            loss == self.spec_loss_hundredths(),
            self.sent == 0 ==> loss == 0,
            self.received <= self.sent ==> loss <= FULL_LOSS,
    {
        if self.sent == 0 {
            return 0;
        }
        let lost: u128 = self.lost() as u128;
        let sent: u128 = self.sent as u128;
        proof {
            law_loss_within_bounds(*self);
            assert(lost * 10000 <= 0xffff_ffff_ffff_ffff * 10000) by (nonlinear_arith)
                requires
                    lost <= 0xffff_ffff_ffff_ffff,
            ;
        }
        (lost * 10000 + sent / 2) / sent
    }

    /// The latency figures, or nothing when no reply was received.
    pub fn latency(&self) -> (summary: Option<LatencySummary>)
        ensures
            summary == self.spec_latency(),
            summary is Some <==> self.received > 0,
    {
        if self.received == 0 {
            None
        } else {
            Some(
                LatencySummary {
                    min: self.latency_min,
                    avg: self.latency_total / self.received,
                    max: self.latency_max,
                },
            )
        }
    }

    /// The final report.
    pub fn report(&self) -> (report: Report)
        ensures
            report == self.spec_report(),
            report.latency is Some <==> self.received > 0,
    {
        Report {
            transmitted: self.sent,
            received: self.received,
            lost: self.lost(),
            loss_hundredths: self.loss_hundredths(),
            latency: self.latency(),
        }
    }
}

/// The loss is nothing when nothing was sent. While no more was received
/// than sent it is at most a full loss, it is nothing when every probe was
/// answered, and it is full when none was. Of what was sent, no more is lost
/// than sent exactly as long as no more was received than sent.
pub proof fn law_loss_within_bounds(stats: Statistics)
    ensures
        0 <= stats.spec_loss_hundredths(),
        stats.spec_lost() <= stats.sent <==> stats.received <= stats.sent,
        stats.sent == 0 ==> stats.spec_loss_hundredths() == 0,
        stats.received <= stats.sent ==> stats.spec_loss_hundredths() <= FULL_LOSS,
        stats.received == stats.sent ==> stats.spec_loss_hundredths() == 0,
        stats.received == 0 && stats.sent > 0 ==> stats.spec_loss_hundredths() == FULL_LOSS,
{
    let sent = stats.sent as int;
    let lost = stats.spec_lost() as int;
    if sent > 0 {
        assert(0 <= (lost * 10000 + sent / 2) / sent) by (nonlinear_arith)
            requires
                sent > 0,
                lost >= 0,
        ;
        if stats.received <= stats.sent {
            assert(lost == sent - stats.received);
            assert((lost * 10000 + sent / 2) / sent <= 10000) by (nonlinear_arith)
                requires
                    sent > 0,
                    0 <= lost <= sent,
            ;
        }
        if stats.received == stats.sent {
            assert(lost == 0);
            assert((0 * 10000 + sent / 2) / sent == 0) by (nonlinear_arith)
                requires
                    sent > 0,
            ;
        }
        if stats.received == 0 {
            assert(lost == sent);
            assert((sent * 10000 + sent / 2) / sent == 10000) by (nonlinear_arith)
                requires
                    sent > 0,
            ;
        }
    }
}

/// The sum of latencies.
pub open spec fn total(samples: Seq<u64>) -> nat
    decreases samples.len(),
{
    if samples.len() == 0 {
        0
    } else {
        total(samples.drop_last()) + samples.last() as nat
    }
}

/// The account of a session that received replies with these latencies, one
/// after the other.
pub open spec fn tally(samples: Seq<u64>) -> Statistics
    decreases samples.len(),
{
    if samples.len() == 0 {
        Statistics::spec_new()
    } else {
        tally(samples.drop_last()).after_reply(samples.last())
    }
}

/// What the figures of a tally are, as long as neither the number of replies
/// nor their sum has outgrown a counter.
proof fn lemma_tally(samples: Seq<u64>)
    requires
        samples.len() <= u64::MAX,
        total(samples) <= u64::MAX,
    ensures
        tally(samples).sent == 0,
        tally(samples).received == samples.len(),
        tally(samples).latency_total == total(samples),
        forall|i: int|
            0 <= i < samples.len() ==> tally(samples).latency_min <= #[trigger] samples[i]
                <= tally(samples).latency_max,
        samples.len() > 0 ==> exists|i: int|
            0 <= i < samples.len() && #[trigger] samples[i] == tally(samples).latency_min,
        samples.len() > 0 ==> exists|i: int|
            0 <= i < samples.len() && #[trigger] samples[i] == tally(samples).latency_max,
        samples.len() > 0 ==> tally(samples).latency_min * samples.len() <= total(samples)
            <= tally(samples).latency_max * samples.len(),
    decreases samples.len(),
{
    if samples.len() > 0 {
        let before = samples.drop_last();
        let last = samples.last();
        lemma_tally(before);
        let t = tally(before);
        let u = tally(samples);
        let n = before.len() as int;
        assert forall|i: int| 0 <= i < samples.len() implies u.latency_min <= #[trigger] samples[i]
            <= u.latency_max by {
            if i < n {
                assert(samples[i] == before[i]);
            }
        }
        if n == 0 {
            assert(samples[0] == u.latency_min);
            assert(samples[0] == u.latency_max);
            assert(u.latency_min * 1 == total(samples) && u.latency_max * 1 == total(samples));
        } else {
            let low = choose|i: int| 0 <= i < n && #[trigger] before[i] == t.latency_min;
            let high = choose|i: int| 0 <= i < n && #[trigger] before[i] == t.latency_max;
            assert(samples[low] == before[low] && samples[high] == before[high]);
            assert(samples[n] == last);
            assert(u.latency_min == samples[low] || u.latency_min == samples[n]);
            assert(u.latency_max == samples[high] || u.latency_max == samples[n]);
            let tmin = t.latency_min as int;
            let tmax = t.latency_max as int;
            let umin = u.latency_min as int;
            let umax = u.latency_max as int;
            let sum = total(before) as int;
            assert(umin * (n + 1) <= sum + last) by (nonlinear_arith)
                requires
                    n > 0,
                    0 <= umin <= tmin,
                    umin <= last,
                    tmin * n <= sum,
            ;
            assert(sum + last <= umax * (n + 1)) by (nonlinear_arith)
                requires
                    n > 0,
                    0 <= tmax <= umax,
                    last <= umax,
                    sum <= tmax * n,
            ;
        }
    }
}

/// After any run of replies that has not outgrown a counter, the latency
/// figures are there, the least and the greatest are latencies that occurred
/// and bound all others, and the average lies between them.
pub proof fn law_latency_figures(samples: Seq<u64>)
    requires
        0 < samples.len() <= u64::MAX,
        total(samples) <= u64::MAX,
    ensures
        tally(samples).spec_latency() matches Some(figures) && {
            &&& figures.min <= figures.avg <= figures.max
            &&& figures.avg == total(samples) / samples.len()
            &&& forall|i: int|
                0 <= i < samples.len() ==> figures.min <= #[trigger] samples[i] <= figures.max
            &&& exists|i: int| 0 <= i < samples.len() && #[trigger] samples[i] == figures.min
            &&& exists|i: int| 0 <= i < samples.len() && #[trigger] samples[i] == figures.max
        },
{
    lemma_tally(samples);
    let t = tally(samples);
    let n = samples.len() as int;
    let sum = total(samples) as int;
    let low = t.latency_min as int;
    let high = t.latency_max as int;
    assert(low <= sum / n <= high) by (nonlinear_arith)
        requires
            n > 0,
            low * n <= sum <= high * n,
    ;
}

/// Without a reply there are no latency figures, whatever was sent.
pub proof fn law_no_reply_no_figures(stats: Statistics)
    ensures
        stats.spec_latency() is Some <==> stats.received > 0,
        stats.spec_report().latency is Some <==> stats.received > 0,
{
}

} // verus!
