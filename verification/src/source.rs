//! The source pacer and the prober.
//!
//! The pacer runs on a periodic tick: once a second it enqueues a latency
//! probe, and on every tick with data it enqueues the prober's packet, if
//! one is due, and then a live frame at the current level. The prober,
//! when active, emits bandwidth probes whose size steps up toward a
//! target pace.

use vstd::prelude::*;

use crate::adaptation::Signal;
use crate::datum::{AsDatum, AsDatumType};
use crate::{Adapt, AdaptAction, Experiment};

verus! {

/// `ProbeTracker` controls the probing behavior. The core function is
/// `next`: either a probe datum, or nothing when probing is inactive.
///
/// Probing is evenly spaced over the ticks within a second, so the target
/// bandwidth is converted to a packet size per tick.
#[derive(Debug, Clone, Copy, PartialEq, Eq, Structural)]
pub struct ProbeTracker {
    /// The tick period in milliseconds; sizes the per-tick packets.
    pub tick_period: u64,
    /// The target probe bandwidth in kbps.
    pub target_in_kbps: u64,
    /// The target pace: the packet size per tick once fully ramped.
    pub target_pace: usize,
    /// The current packet size per tick.
    pub pace: usize,
    /// The step added by each `inc_pace`.
    pub delta: usize,
    /// In how many steps the pace ramps from the first packet to the
    /// target.
    pub steps: usize,
}

/// The prober after `stop_probe`: the four probing fields cleared, the
/// period and step count kept.
pub open spec fn spec_stop(p: ProbeTracker) -> ProbeTracker {
    ProbeTracker { target_in_kbps: 0, target_pace: 0, pace: 0, delta: 0, ..p }
}

/// The size of the packet `next` would emit: the current pace when
/// probing is active, nothing otherwise.
pub open spec fn spec_next_size(p: ProbeTracker) -> Option<usize> {
    if p.target_pace > 0 {
        Some(p.pace)
    } else {
        None
    }
}

/// The probe bytes emitted by `calls` consecutive `next` calls.
pub open spec fn spec_emitted_bytes(p: ProbeTracker, calls: nat) -> nat {
    if p.target_pace > 0 {
        calls * (p.pace as nat)
    } else {
        0
    }
}

impl ProbeTracker {
    /// The step count and period are positive, the step never exceeds the
    /// target, the pace never exceeds twice the target, every packet fits
    /// a datum, and an inactive prober holds no pace.
    pub open spec fn wf(self) -> bool {
        &&& self.steps >= 1
        &&& self.tick_period >= 1
        &&& self.delta <= self.target_pace
        &&& self.pace <= 2 * self.target_pace
        &&& 2 * self.target_pace + 33 <= usize::MAX
        &&& (self.target_pace == 0 ==> self.pace == 0 && self.delta == 0)
    }

    /// An inactive prober for the given tick period, ramping in five
    /// steps.
    pub fn new(tick_period: u64) -> (r: ProbeTracker)
        requires
            tick_period >= 1,
        ensures
            r.wf(),
            r.tick_period == tick_period,
            r.steps == 5,
            r == spec_stop(r),
    {
        ProbeTracker { tick_period, target_in_kbps: 0, target_pace: 0, delta: 0, pace: 0, steps: 5 }
    }

    /// Starts probing for `additional_kbps` more bandwidth: the target
    /// pace is the bytes each tick must carry for that rate, the step is
    /// its share per ramp step, and the pace starts at one step.
    pub fn start_probe(&mut self, additional_kbps: u64)
        requires
            old(self).wf(),
            additional_kbps * old(self).tick_period <= u64::MAX,
            2 * (additional_kbps * old(self).tick_period / 8) + 33 <= usize::MAX,
        ensures
            final(self).wf(),
            final(self).tick_period == old(self).tick_period,
            final(self).steps == old(self).steps,
            final(self).target_in_kbps == additional_kbps,
            final(self).target_pace == additional_kbps * old(self).tick_period / 8,
            final(self).delta == final(self).target_pace as int / final(self).steps as int,
            final(self).pace == final(self).delta,
            final(self).target_pace >= final(self).steps ==> 0 < final(self).pace
                && final(self).pace <= final(self).target_pace,
    {
        self.target_in_kbps = additional_kbps;
        let per_tick = additional_kbps * self.tick_period / 8;
        self.target_pace = per_tick as usize;
        self.delta = self.target_pace / self.steps;
        self.pace = self.delta;
        proof {
            if self.target_pace >= self.steps {
                assert(self.target_pace / self.steps >= 1) by (nonlinear_arith)
                    requires
                        self.target_pace >= self.steps,
                        self.steps >= 1,
                ;
            }
        }
    }

    /// Probing is the additive increase phase: raises the pace one step
    /// while it is below the target and reports whether it did. A `false`
    /// return means the ramp is complete; the caller synthesizes the
    /// probe-done signal.
    pub fn inc_pace(&mut self) -> (r: bool)
        requires
            old(self).wf(),
        ensures
            final(self).wf(),
            final(self).tick_period == old(self).tick_period,
            final(self).steps == old(self).steps,
            final(self).target_in_kbps == old(self).target_in_kbps,
            final(self).target_pace == old(self).target_pace,
            final(self).delta == old(self).delta,
            if old(self).pace < old(self).target_pace {
                final(self).pace == old(self).pace + old(self).delta && r == true
            } else {
                final(self).pace == old(self).pace && r == false
            },
    {
        if self.pace < self.target_pace {
            self.pace = self.pace + self.delta;
            true
        } else {
            false
        }
    }

    /// Stops probing: clears the target bandwidth, the target pace, the
    /// pace and the step.
    pub fn stop_probe(&mut self)
        requires
            old(self).wf(),
        ensures
            final(self).wf(),
            *final(self) == spec_stop(*old(self)),
    {
        self.target_in_kbps = 0;
        self.target_pace = 0;
        self.pace = 0;
        self.delta = 0;
    }

    /// The next probe packet: a bandwidth probe of exactly the current
    /// pace in zero-filled bytes when probing is active; nothing when it
    /// is not.
    pub fn next(&self) -> (r: Option<AsDatum>)
        requires
            self.wf(),
        ensures
            match spec_next_size(*self) {
                Some(size) => {
                    &&& r is Some
                    &&& r->Some_0.t == AsDatumType::Dummy
                    &&& r->Some_0.mem@.len() == size
                    &&& forall|i: int| 0 <= i < size ==> r->Some_0.mem@[i] == 0u8
                    &&& r->Some_0.wf()
                },
                None => r is None,
            },
    {
        if self.target_pace > 0 {
            Some(AsDatum::bw_probe(self.pace))
        } else {
            None
        }
    }
}

/// Stopping the probe twice in a row has the same effect as stopping it
/// once: `stop_probe` only clears fields, so it is idempotent.
pub proof fn lemma_stop_probe_idempotent(p: ProbeTracker)
    ensures
        spec_stop(spec_stop(p)) == spec_stop(p),
{
}

/// An inactive prober emits nothing: after `stop_probe`, `next` returns
/// nothing, and the probe bytes emitted over any number of calls since
/// that stop total zero.
pub proof fn lemma_inactive_prober_emits_nothing(p: ProbeTracker)
    ensures
        spec_next_size(spec_stop(p)) is None,
        forall|calls: nat| spec_emitted_bytes(spec_stop(p), calls) == 0,
{
}

/// The source pacer's tick state: it counts ticks so that once a second a
/// latency probe is enqueued.
#[derive(Debug, Clone, Copy, PartialEq, Eq, Structural)]
pub struct TimerSource {
    /// Ticks since the last latency probe.
    pub ticks: u64,
    /// How many ticks make one second; zero when the period exceeds one
    /// second, and then no latency probe is ever due.
    pub one_second_ticks: u64,
}

impl TimerSource {
    /// The tick count stays below the wrap point when there is one.
    pub open spec fn wf(self) -> bool {
        self.one_second_ticks > 0 ==> self.ticks < self.one_second_ticks
    }

    /// A pacer for a tick period in milliseconds.
    pub fn new(period_ms: u64) -> (r: TimerSource)
        requires
            period_ms >= 1,
        ensures
            r.wf(),
            r.ticks == 0,
            r.one_second_ticks == 1000 as u64 / period_ms,
    {
        TimerSource { ticks: 0, one_second_ticks: 1000 / period_ms }
    }

    /// One pacer tick, given the next datum's size and index and the
    /// current level.
    ///
    /// In order: when this tick completes a second, a latency probe; when
    /// the size is zero nothing more is produced this tick; otherwise the
    /// prober's packet when probing is active, then the live frame of
    /// exactly `size` bytes at the current level.
    pub fn on_tick(
        &mut self,
        size: usize,
        frame_num: usize,
        level: usize,
        prober: &ProbeTracker,
    ) -> (r: Vec<AsDatum>)
        requires
            old(self).wf(),
            old(self).one_second_ticks == 0 ==> old(self).ticks < u64::MAX,
            size + 33 <= u64::MAX,
            prober.wf(),
        ensures
            final(self).wf(),
            final(self).one_second_ticks == old(self).one_second_ticks,
            ({
                let fired = old(self).ticks + 1 == old(self).one_second_ticks;
                let probing = size > 0 && spec_next_size(*prober) is Some;
                let lead = if fired {
                    1int
                } else {
                    0int
                };
                &&& final(self).ticks == if fired {
                    0int
                } else {
                    old(self).ticks + 1
                }
                &&& r@.len() == lead + if size > 0 {
                    (if probing {
                        2int
                    } else {
                        1int
                    })
                } else {
                    0int
                }
                &&& (fired ==> r@[0].t == AsDatumType::LatencyProbe && r@[0].wf())
                &&& (probing ==> r@[lead].t == AsDatumType::Dummy && r@[lead].mem@.len()
                    == prober.pace && r@[lead].wf())
                &&& (size > 0 ==> r@.last().t == AsDatumType::Live(level, frame_num)
                    && r@.last().mem@.len() == size && r@.last().wf())
            }),
    {
        let mut out: Vec<AsDatum> = Vec::new();
        self.ticks = self.ticks + 1;
        if self.ticks == self.one_second_ticks {
            out.push(AsDatum::latency_probe());
            self.ticks = 0;
        }
        if size == 0 {
            return out;
        }
        match prober.next() {
            Some(p) => out.push(p),
            None => (),
        }
        let live = AsDatum::new(level, frame_num, crate::datum::zero_vec(size));
        out.push(live);
        out
    }

    /// One pacer tick driven by a source: takes the next datum's size and
    /// index from it and the level it then reports, and paces exactly as
    /// `on_tick` does: when this tick completes a second, a latency probe
    /// first; with a zero size nothing more; otherwise the prober's packet
    /// when probing is active, then the live frame. Every datum handed
    /// back is well formed and ready to frame.
    pub fn tick_with_source<As: Adapt + Experiment>(
        &mut self,
        source: &mut As,
        prober: &ProbeTracker,
    ) -> (r: Vec<AsDatum>)
        requires
            old(self).wf(),
            old(self).one_second_ticks == 0 ==> old(self).ticks < u64::MAX,
            prober.wf(),
            source.exp_inv(),
        ensures
            final(self).wf(),
            final(self).one_second_ticks == old(self).one_second_ticks,
            final(source).exp_inv(),
            *final(source) == old(source).spec_datum_taken(),
            forall|i: int| 0 <= i < r@.len() ==> #[trigger] r@[i].wf(),
            ({
                let size = old(source).spec_next_datum().0;
                let frame_num = old(source).spec_next_datum().1;
                let level = old(source).spec_datum_taken().spec_level();
                let fired = old(self).ticks + 1 == old(self).one_second_ticks;
                let probing = size > 0 && spec_next_size(*prober) is Some;
                let lead = if fired {
                    1int
                } else {
                    0int
                };
                &&& final(self).ticks == if fired {
                    0int
                } else {
                    old(self).ticks + 1
                }
                &&& r@.len() == lead + if size > 0 {
                    (if probing {
                        2int
                    } else {
                        1int
                    })
                } else {
                    0int
                }
                &&& (fired ==> r@[0].t == AsDatumType::LatencyProbe)
                &&& (probing ==> r@[lead].t == AsDatumType::Dummy && r@[lead].mem@.len()
                    == prober.pace)
                &&& (size > 0 ==> r@.last().t == AsDatumType::Live(level, frame_num)
                    && r@.last().mem@.len() == size)
            }),
    {
        let (size, frame_num) = source.next_datum();
        let level = source.current_level();
        let r = self.on_tick(size, frame_num, level, prober);
        proof {
            let fired = old(self).ticks + 1 == old(self).one_second_ticks;
            let probing = size > 0 && spec_next_size(*prober) is Some;
            let lead: int = if fired {
                1
            } else {
                0
            };
            assert forall|i: int| 0 <= i < r@.len() implies #[trigger] r@[i].wf() by {
                if fired && i == 0 {
                } else if probing && i == lead {
                } else {
                    assert(i == r@.len() - 1);
                }
            }
        }
        r
    }

    /// Applies one adaptation action to the source and the prober.
    ///
    /// Adjusting or advancing the level stops any probe first; starting a
    /// probe arms the prober; raising the pace past a completed ramp
    /// emits the probe-done signal instead.
    pub fn apply_adapt_action<As: Adapt>(
        source: &mut As,
        prober: &mut ProbeTracker,
        action: AdaptAction,
    ) -> (r: Option<Signal>)
        requires
            old(prober).wf(),
            old(source).adapt_inv(),
            match action {
                AdaptAction::StartProbe(kbps) => kbps * old(prober).tick_period <= u64::MAX && 2 * (
                kbps * old(prober).tick_period / 8) + 33 <= usize::MAX,
                _ => true,
            },
        ensures
            final(prober).wf(),
            final(prober).tick_period == old(prober).tick_period,
            final(prober).steps == old(prober).steps,
            final(source).adapt_inv(),
            match action {
                AdaptAction::ToRate(rate) => *final(prober) == spec_stop(*old(prober))
                    && *final(source) == old(source).spec_adapted(rate) && r is None,
                AdaptAction::DecreaseDegradation => *final(prober) == spec_stop(*old(prober))
                    && *final(source) == old(source).spec_advanced() && r is None,
                AdaptAction::StopProbe => *final(prober) == spec_stop(*old(prober))
                    && *final(source) == *old(source) && r is None,
                AdaptAction::StartProbe(kbps) => {
                    &&& final(prober).target_in_kbps == kbps
                    &&& final(prober).target_pace == kbps * old(prober).tick_period / 8
                    &&& final(prober).delta == final(prober).target_pace as int
                        / final(prober).steps as int
                    &&& final(prober).pace == final(prober).delta
                    &&& *final(source) == *old(source)
                    &&& r is None
                },
                AdaptAction::IncreaseProbePace => {
                    &&& *final(source) == *old(source)
                    &&& if old(prober).pace < old(prober).target_pace {
                        final(prober).pace == old(prober).pace + old(prober).delta && r is None
                    } else {
                        *final(prober) == *old(prober) && r == Some(Signal::ProbeDone)
                    }
                },
            },
    {
        match action {
            AdaptAction::ToRate(rate) => {
                prober.stop_probe();
                source.adapt(rate);
                None
            },
            AdaptAction::DecreaseDegradation => {
                prober.stop_probe();
                source.dec_degradation();
                None
            },
            AdaptAction::StartProbe(target_in_kbps) => {
                prober.start_probe(target_in_kbps);
                None
            },
            AdaptAction::IncreaseProbePace => {
                if !prober.inc_pace() {
                    Some(Signal::ProbeDone)
                } else {
                    None
                }
            },
            AdaptAction::StopProbe => {
                prober.stop_probe();
                None
            },
        }
    }
}

} // verus!
