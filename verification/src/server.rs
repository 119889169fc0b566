//! The server-side reporter: latency bookkeeping and the decision to send
//! a receiver report.
//!
//! The receiver classifies incoming datums; live frames carry their send
//! timestamp, and the reporter compares the observed latency with a simple
//! model — the minimum network latency plus the transmission delay at the
//! current goodput — under a step-wise tolerance. When the latency exceeds
//! the tolerated bound, a report goes back, at most once per half second.

use vstd::prelude::*;

use crate::bw_monitor::{spec_latency_add, BwMonitor, LatencyMonitor};
use crate::clock;
use crate::datum::{AsDatumType, ReceiverReport};
use crate::utils::{spec_min, StreamingStat};

verus! {

/// The least time between two receiver reports, in milliseconds.
pub const REPORT_GAP_MS: u64 = 500;

/// The latency the model expects: the minimum network delay plus the
/// transmission delay, taken as the plain byte count over the goodput
/// rate in kbps, saturating.
pub open spec fn spec_ideal_latency(net_delay: u64, datum_len: u64, goodput_rate: u64) -> u64
    recommends
        goodput_rate > 0,
{
    let tx = datum_len / goodput_rate;
    if net_delay + tx <= u64::MAX {
        (net_delay + tx) as u64
    } else {
        u64::MAX
    }
}

/// The tolerated latency: the model's value under a step-wise factor, ten
/// times up to 100 ms, five up to 200 ms, four up to 300 ms, three up to
/// 500 ms, and one and a half above, saturating.
pub open spec fn spec_expected_latency(ideal: u64) -> u64 {
    if ideal <= 100 {
        (10 * ideal) as u64
    } else if ideal <= 200 {
        (5 * ideal) as u64
    } else if ideal <= 300 {
        (4 * ideal) as u64
    } else if ideal <= 500 {
        (3 * ideal) as u64
    } else if ideal + ideal / 2 <= u64::MAX {
        (ideal + ideal / 2) as u64
    } else {
        u64::MAX
    }
}

/// Whether an observed latency is high: above the tolerated bound for the
/// model's latency. With no goodput estimate yet, nothing counts as high.
pub open spec fn spec_latency_is_high(
    current: u64,
    net_delay: u64,
    datum_len: u64,
    goodput_rate: u64,
) -> bool {
    if goodput_rate == 0 {
        false
    } else {
        current > spec_expected_latency(spec_ideal_latency(net_delay, datum_len, goodput_rate))
    }
}

/// The reporter: latency windows, rate monitors, and the time of the last
/// report.
#[derive(Debug)]
pub struct Reporter {
    /// When the last report was sent, in UTC milliseconds.
    pub last_report_time: u64,
    /// The recent network-only latencies, from latency probes.
    pub net_latency: StreamingStat,
    /// The recent application latencies, from live frames.
    pub app_latency: StreamingStat,
    /// Goodput monitor: live bytes only.
    pub goodput: BwMonitor,
    /// Throughput monitor: all bytes.
    pub throughput: BwMonitor,
    /// The latency averager reported upstream.
    pub latency: LatencyMonitor,
}

impl Reporter {
    /// The windows and the averager are well formed.
    pub open spec fn wf(self) -> bool {
        &&& self.net_latency.wf()
        &&& self.app_latency.wf()
        &&& self.latency.wf()
    }

    /// A fresh reporter: latency windows of ten samples, starting
    /// unbounded so that early frames are never flagged, idle monitors,
    /// and the current time as the last report time.
    pub fn new() -> (r: Reporter)
        ensures
            r.wf(),
            r.net_latency.capacity == 10,
            r.app_latency.capacity == 10,
            forall|i: int| 0 <= i < 10 ==> r.net_latency.buffer@[i] == u64::MAX,
            r.goodput.rate == 0,
            r.throughput.rate == 0,
            r.latency.samples@.len() == 0,
    {
        Reporter {
            last_report_time: clock::now_millis_unsigned(),
            net_latency: StreamingStat::new(u64::MAX, 10),
            app_latency: StreamingStat::new(u64::MAX, 10),
            goodput: BwMonitor::new(),
            throughput: BwMonitor::new(),
            latency: LatencyMonitor::new(),
        }
    }

    /// Records one application latency sample.
    pub fn update_app_latency(&mut self, latency: u64)
        requires
            old(self).wf(),
        ensures
            final(self).wf(),
            final(self).app_latency.buffer@ == old(self).app_latency.buffer@.update(
                old(self).app_latency.pos as int,
                latency,
            ),
            final(self).net_latency == old(self).net_latency,
            final(self).latency == old(self).latency,
            final(self).goodput == old(self).goodput,
            final(self).throughput == old(self).throughput,
            final(self).last_report_time == old(self).last_report_time,
    {
        self.app_latency.add(latency);
    }

    /// Records one network-only latency sample, from a latency probe.
    pub fn update_net_latency(&mut self, latency: u64)
        requires
            old(self).wf(),
        ensures
            final(self).wf(),
            final(self).net_latency.buffer@ == old(self).net_latency.buffer@.update(
                old(self).net_latency.pos as int,
                latency,
            ),
            final(self).app_latency == old(self).app_latency,
            final(self).latency == old(self).latency,
            final(self).goodput == old(self).goodput,
            final(self).throughput == old(self).throughput,
            final(self).last_report_time == old(self).last_report_time,
    {
        self.net_latency.add(latency);
    }

    /// Feeds one latency sample to the averager.
    pub fn update_latency(&mut self, latency: u64)
        requires
            old(self).wf(),
        ensures
            final(self).wf(),
            final(self).latency.samples@ == spec_latency_add(old(self).latency.samples@, latency),
            final(self).latency.rate == old(self).latency.rate,
            final(self).net_latency == old(self).net_latency,
            final(self).app_latency == old(self).app_latency,
            final(self).goodput == old(self).goodput,
            final(self).throughput == old(self).throughput,
            final(self).last_report_time == old(self).last_report_time,
    {
        self.latency.add(latency);
    }

    /// Whether `current_latency` is high for a datum of `datum_len`
    /// bytes, against the minimum network delay seen and the current
    /// goodput.
    pub fn latency_is_high(&self, current_latency: u64, datum_len: u64) -> (r: bool)
        requires
            self.wf(),
        ensures
            r == spec_latency_is_high(
                current_latency,
                spec_min(self.net_latency.buffer@),
                datum_len,
                self.goodput.rate,
            ),
    {
        let rate = self.goodput.rate();
        if rate == 0 {
            return false;
        }
        let net_delay = self.net_latency.min();
        let tx_delay = datum_len / rate;
        let ideal = if net_delay <= u64::MAX - tx_delay {
            net_delay + tx_delay
        } else {
            u64::MAX
        };
        let expected: u64 = if ideal <= 100 {
            10 * ideal
        } else if ideal <= 200 {
            5 * ideal
        } else if ideal <= 300 {
            4 * ideal
        } else if ideal <= 500 {
            3 * ideal
        } else if ideal / 2 <= u64::MAX - ideal {
            ideal + ideal / 2
        } else {
            u64::MAX
        };
        current_latency > expected
    }

    /// Handles one live frame: computes its latency from the send
    /// timestamp, records it, and when the latency is high and at least
    /// half a second has passed since the last report, returns the report
    /// to send, carrying the latency and the two rates.
    pub fn report(&mut self, datum_len: u64, datum_ts: u64, now: u64) -> (r: Option<
        ReceiverReport,
    >)
        requires
            old(self).wf(),
        ensures
            final(self).wf(),
            final(self).net_latency == old(self).net_latency,
            final(self).goodput == old(self).goodput,
            final(self).throughput == old(self).throughput,
            ({
                let lat = if now >= datum_ts {
                    (now - datum_ts) as u64
                } else {
                    0u64
                };
                let high = spec_latency_is_high(
                    lat,
                    spec_min(old(self).net_latency.buffer@),
                    datum_len,
                    old(self).goodput.rate,
                );
                let due = now > old(self).last_report_time && now - old(self).last_report_time
                    > REPORT_GAP_MS;
                &&& final(self).app_latency.buffer@ == old(self).app_latency.buffer@.update(
                    old(self).app_latency.pos as int,
                    lat,
                )
                &&& final(self).latency.samples@ == spec_latency_add(
                    old(self).latency.samples@,
                    lat,
                )
                &&& final(self).latency.rate == old(self).latency.rate
                &&& if high && due {
                    &&& r == Some(
                        ReceiverReport {
                            latency: lat,
                            goodput: old(self).goodput.rate,
                            throughput: old(self).throughput.rate,
                        },
                    )
                    &&& final(self).last_report_time == now
                } else {
                    &&& r is None
                    &&& final(self).last_report_time == old(self).last_report_time
                }
            }),
    {
        let latency = if now >= datum_ts {
            now - datum_ts
        } else {
            0
        };
        self.update_latency(latency);
        self.update_app_latency(latency);
        if self.latency_is_high(latency, datum_len) {
            let time_since_last_report = if now > self.last_report_time {
                now - self.last_report_time
            } else {
                0
            };
            if time_since_last_report > REPORT_GAP_MS {
                self.last_report_time = now;
                let report = ReceiverReport::new(latency, self.goodput.rate(), self.throughput.rate());
                return Some(report);
            }
        }
        None
    }

    /// Handles one received datum per the counting rules: every datum
    /// counts toward throughput; a live frame also counts toward goodput
    /// and takes the report path; a latency probe feeds the network-delay
    /// window; everything else counts toward throughput only.
    pub fn on_datum(&mut self, t: AsDatumType, size: usize, ts: u64, now: u64) -> (r: Option<
        ReceiverReport,
    >)
        requires
            old(self).wf(),
            old(self).throughput.sample + size <= u64::MAX,
            (t matches AsDatumType::Live(_, _) ==> old(self).goodput.sample + size <= u64::MAX),
        ensures
            final(self).wf(),
            final(self).throughput.sample == old(self).throughput.sample + size,
            final(self).throughput.rate == old(self).throughput.rate,
            final(self).goodput.rate == old(self).goodput.rate,
            ({
                let lat = if now >= ts {
                    (now - ts) as u64
                } else {
                    0u64
                };
                match t {
                    AsDatumType::Live(_, _) => {
                        let high = spec_latency_is_high(
                            lat,
                            spec_min(old(self).net_latency.buffer@),
                            size as u64,
                            old(self).goodput.rate,
                        );
                        let due = now > old(self).last_report_time && now - old(
                            self,
                        ).last_report_time > REPORT_GAP_MS;
                        &&& final(self).goodput.sample == old(self).goodput.sample + size
                        &&& final(self).net_latency == old(self).net_latency
                        &&& final(self).app_latency.buffer@ == old(
                            self,
                        ).app_latency.buffer@.update(old(self).app_latency.pos as int, lat)
                        &&& final(self).latency.samples@ == spec_latency_add(
                            old(self).latency.samples@,
                            lat,
                        )
                        &&& final(self).latency.rate == old(self).latency.rate
                        &&& if high && due {
                            r == Some(
                                ReceiverReport {
                                    latency: lat,
                                    goodput: old(self).goodput.rate,
                                    throughput: old(self).throughput.rate,
                                },
                            ) && final(self).last_report_time == now
                        } else {
                            r is None && final(self).last_report_time == old(
                                self,
                            ).last_report_time
                        }
                    },
                    AsDatumType::LatencyProbe => {
                        &&& final(self).goodput == old(self).goodput
                        &&& final(self).net_latency.buffer@ == old(
                            self,
                        ).net_latency.buffer@.update(old(self).net_latency.pos as int, lat)
                        &&& final(self).app_latency == old(self).app_latency
                        &&& final(self).latency == old(self).latency
                        &&& final(self).last_report_time == old(self).last_report_time
                        &&& r is None
                    },
                    _ => {
                        &&& final(self).goodput == old(self).goodput
                        &&& final(self).net_latency == old(self).net_latency
                        &&& final(self).app_latency == old(self).app_latency
                        &&& final(self).latency == old(self).latency
                        &&& final(self).last_report_time == old(self).last_report_time
                        &&& r is None
                    },
                }
            }),
    {
        self.throughput.add(size);
        match t {
            AsDatumType::Live(_, _) => {
                self.goodput.add(size);
                self.report(size as u64, ts, now)
            },
            AsDatumType::LatencyProbe => {
                let latency = if now >= ts {
                    now - ts
                } else {
                    0
                };
                self.update_net_latency(latency);
                None
            },
            _ => None,
        }
    }
}

} // verus!
