//! The local monitor: turns the byte counters into congestion signals.
//!
//! Every interval the monitor takes the bytes produced and consumed since
//! the last fire, updates the queue gauge and a smoothed consumption rate,
//! estimates the queue latency, and emits `QueueCongest` when the latency
//! crosses the threshold or `QueueEmpty` after enough quiet intervals.

use vstd::prelude::*;

use crate::adaptation::Signal;
use crate::utils::{ExponentialSmooth, SMOOTH_LIMIT};

verus! {

/// The monitor state and its tuning knobs.
#[derive(Debug)]
pub struct Monitor {
    /// The estimated consumption rate: smoothed bytes per interval.
    pub rate: ExponentialSmooth,
    /// Queued bytes: produced minus consumed since the start.
    pub queued: u64,
    /// Consecutive quiet intervals seen so far.
    pub empty_count: usize,
    /// The factor applied to the rate reported in a congestion signal, in
    /// thousandths.
    pub alpha_rate: u64,
    /// The latency above which the queue counts as congested, in
    /// microseconds.
    pub congest_latency_us: u64,
    /// How many quiet intervals beyond this count emit `QueueEmpty`.
    pub queue_empty_required: usize,
    /// The monitor interval in milliseconds.
    pub interval_ms: u64,
}

/// The estimated outgoing rate in kbps: smoothed bytes per interval,
/// times 8 bits, over the interval in milliseconds.
pub open spec fn spec_rate_kbps(m: Monitor) -> u64 {
    (m.rate.val * 8) as u64 / m.interval_ms
}

/// The estimated queue latency in microseconds: queued bits over the rate
/// in kbps. A non-empty queue that drains at no rate counts as unbounded
/// latency; an empty one as none.
pub open spec fn spec_latency_us(queued: u64, rate_kbps: u64) -> u64 {
    if rate_kbps == 0 {
        if queued == 0 {
            0u64
        } else {
            u64::MAX
        }
    } else {
        ((queued * 8000) as u64 / rate_kbps) as u64
    }
}

/// The queue latency in milliseconds, as reported in a congestion signal.
pub open spec fn spec_latency_ms(queued: u64, rate_kbps: u64) -> u64 {
    if rate_kbps == 0 {
        if queued == 0 {
            0u64
        } else {
            u64::MAX
        }
    } else {
        ((queued * 8) as u64 / rate_kbps) as u64
    }
}

impl Monitor {
    /// Knobs are fractions or positive counts, and the gauge stays within
    /// the smoother's range.
    pub open spec fn wf(self) -> bool {
        &&& self.rate.wf()
        &&& self.alpha_rate <= 1000
        &&& self.interval_ms >= 1
        &&& self.queued <= SMOOTH_LIMIT
        &&& self.empty_count <= self.queue_empty_required
        &&& self.queue_empty_required < usize::MAX
    }

    /// A monitor with the tuned defaults: smoothing weight one half, a
    /// report factor of 0.9, a congestion threshold of one millisecond,
    /// twenty quiet intervals required, and a 100 ms interval.
    pub fn new() -> (r: Monitor)
        ensures
            r.wf(),
            r.queued == 0,
            r.empty_count == 0,
            r.rate.val == 0,
            r.rate.alpha == 500,
            r.alpha_rate == 900,
            r.congest_latency_us == 1000,
            r.queue_empty_required == 20,
            r.interval_ms == 100,
    {
        Monitor {
            rate: ExponentialSmooth::new(500),
            queued: 0,
            empty_count: 0,
            alpha_rate: 900,
            congest_latency_us: 1000,
            queue_empty_required: 20,
            interval_ms: 100,
        }
    }

    /// Reacts to one timer fire with the bytes produced and consumed
    /// since the last one.
    ///
    /// The queue gauge becomes exactly its old value plus produced minus
    /// consumed; the rate is smoothed with the consumed bytes. Latency
    /// above the threshold resets the quiet count and emits a congestion
    /// signal carrying the discounted rate and the latency; otherwise one
    /// more quiet interval is counted, and once they exceed the required
    /// count the count resets and `QueueEmpty` is emitted; otherwise the
    /// fire emits nothing.
    pub fn react_to_timer(&mut self, produced: u64, consumed: u64) -> (r: Option<Signal>)
        requires
            old(self).wf(),
            consumed <= old(self).queued + produced,
            old(self).queued + produced <= SMOOTH_LIMIT,
        ensures
            final(self).wf(),
            final(self).queued == old(self).queued + produced - consumed,
            final(self).rate.val == (old(self).rate.alpha * old(self).rate.val + (1000 - old(
                self,
            ).rate.alpha) * consumed) / 1000,
            final(self).rate.alpha == old(self).rate.alpha,
            final(self).alpha_rate == old(self).alpha_rate,
            final(self).congest_latency_us == old(self).congest_latency_us,
            final(self).queue_empty_required == old(self).queue_empty_required,
            final(self).interval_ms == old(self).interval_ms,
            ({
                let rate_kbps = spec_rate_kbps(*final(self));
                let latency_us = spec_latency_us(final(self).queued, rate_kbps);
                let latency_ms = spec_latency_ms(final(self).queued, rate_kbps);
                if latency_us > final(self).congest_latency_us {
                    &&& r == Some(
                        Signal::QueueCongest(
                            (final(self).alpha_rate * rate_kbps / 1000) as u64,
                            latency_ms,
                        ),
                    )
                    &&& final(self).empty_count == 0
                } else if old(self).empty_count + 1 > final(self).queue_empty_required {
                    &&& r == Some(Signal::QueueEmpty)
                    &&& final(self).empty_count == 0
                } else {
                    &&& r is None
                    &&& final(self).empty_count == old(self).empty_count + 1
                }
            }),
    {
        self.queued = self.queued + produced - consumed;
        self.rate.add(consumed);
        let rate_kbps = (self.rate.val() * 8) / self.interval_ms;
        proof {
            assert((self.rate.val * 8) as u64 / self.interval_ms <= self.rate.val * 8)
                by (nonlinear_arith)
                requires
                    self.interval_ms >= 1,
                    self.rate.val * 8 <= u64::MAX,
            ;
            assert(self.alpha_rate * rate_kbps <= 1000 * (8 * SMOOTH_LIMIT)) by (nonlinear_arith)
                requires
                    self.alpha_rate <= 1000,
                    rate_kbps <= 8 * SMOOTH_LIMIT,
            ;
        }
        let latency_us: u64 = if rate_kbps == 0 {
            if self.queued == 0 {
                0
            } else {
                u64::MAX
            }
        } else {
            (self.queued * 8000) / rate_kbps
        };
        if latency_us > self.congest_latency_us {
            let latency_ms: u64 = if rate_kbps == 0 {
                u64::MAX
            } else {
                (self.queued * 8) / rate_kbps
            };
            proof {
                if rate_kbps == 0 {
                    assert(self.queued != 0);
                }
            }
            self.empty_count = 0;
            return Some(Signal::QueueCongest(self.alpha_rate * rate_kbps / 1000, latency_ms));
        }
        self.empty_count = self.empty_count + 1;
        if self.empty_count > self.queue_empty_required {
            self.empty_count = 0;
            return Some(Signal::QueueEmpty);
        }
        None
    }
}

/// The produced bytes summed over a sequence of monitor fires.
pub open spec fn spec_sum_produced(ticks: Seq<(u64, u64)>) -> int
    decreases ticks.len(),
{
    if ticks.len() == 0 {
        0
    } else {
        spec_sum_produced(ticks.drop_last()) + ticks.last().0
    }
}

/// The consumed bytes summed over a sequence of monitor fires.
pub open spec fn spec_sum_consumed(ticks: Seq<(u64, u64)>) -> int
    decreases ticks.len(),
{
    if ticks.len() == 0 {
        0
    } else {
        spec_sum_consumed(ticks.drop_last()) + ticks.last().1
    }
}

/// The queue gauge after a sequence of fires, each applying its produced
/// and consumed bytes, starting from `q0`.
pub open spec fn spec_queued_after(q0: int, ticks: Seq<(u64, u64)>) -> int
    decreases ticks.len(),
{
    if ticks.len() == 0 {
        q0
    } else {
        spec_queued_after(q0, ticks.drop_last()) + ticks.last().0 - ticks.last().1
    }
}

/// Queue conservation: over any sequence of monitor fires the queue gauge
/// is the starting gauge plus all produced bytes minus all consumed
/// bytes. A monitor started at zero therefore always reads exactly the
/// produced total minus the consumed total, and the gauge is an unsigned
/// count, never negative. Each fire of `react_to_timer` performs one step
/// of this fold, by its contract.
pub proof fn lemma_monitor_queue_conservation(q0: int, ticks: Seq<(u64, u64)>)
    ensures
        spec_queued_after(q0, ticks) == q0 + spec_sum_produced(ticks) - spec_sum_consumed(ticks),
    decreases ticks.len(),
{
    if ticks.len() > 0 {
        lemma_monitor_queue_conservation(q0, ticks.drop_last());
    }
}

} // verus!
