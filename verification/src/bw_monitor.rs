//! Receiver-side rate monitors: byte counters turned into kbps, and a
//! latency averager.

use vstd::prelude::*;

verus! {

/// Accumulates bytes and converts them to a rate at each update.
#[derive(Debug, Clone, Copy, PartialEq, Eq, Structural)]
pub struct BwMonitor {
    /// Bytes accumulated since the last update.
    pub sample: u64,
    /// The rate computed at the last update, in kbps.
    pub rate: u64,
}

impl BwMonitor {
    /// A monitor with nothing accumulated and no rate.
    pub fn new() -> (r: BwMonitor)
        ensures
            r.sample == 0,
            r.rate == 0,
    {
        BwMonitor { sample: 0, rate: 0 }
    }

    /// Accumulates bytes.
    pub fn add(&mut self, sample: usize)
        requires
            old(self).sample + sample <= u64::MAX,
        ensures
            final(self).sample == old(self).sample + sample,
            final(self).rate == old(self).rate,
    {
        self.sample = self.sample + sample as u64;
    }

    /// The rate computed at the last update, in kbps.
    pub fn rate(&self) -> (r: u64)
        ensures
            r == self.rate,
    {
        self.rate
    }

    /// Converts the bytes accumulated over `time_in_ms` into a rate in
    /// kbps and starts a new accumulation.
    pub fn update(&mut self, time_in_ms: usize)
        requires
            time_in_ms >= 1,
            old(self).sample * 8 <= u64::MAX,
        ensures
            final(self).rate == old(self).sample * 8 / (time_in_ms as int),
            final(self).sample == 0,
    {
        self.rate = self.sample * 8 / (time_in_ms as u64);
        self.sample = 0;
    }
}

/// The largest latency sample the averager keeps, in milliseconds.
pub const LATENCY_SAMPLE_MAX: u64 = 0x3FF_FFFF_FFFF;

/// How many latency samples the averager holds at most between updates.
pub const LATENCY_WINDOW_MAX: usize = 0x10_0000;

/// What keeping one latency sample does to the window: a bounded window
/// takes the sample capped to the sample bound; a full one drops it.
pub open spec fn spec_latency_add(samples: Seq<u64>, sample: u64) -> Seq<u64> {
    if samples.len() < LATENCY_WINDOW_MAX {
        samples.push(
            if sample <= LATENCY_SAMPLE_MAX {
                sample
            } else {
                LATENCY_SAMPLE_MAX
            },
        )
    } else {
        samples
    }
}

/// The sum of a sequence of samples.
pub open spec fn spec_sum(s: Seq<u64>) -> int
    decreases s.len(),
{
    if s.len() == 0 {
        0
    } else {
        spec_sum(s.drop_last()) + s.last()
    }
}

/// Averages latency samples between updates.
#[derive(Debug)]
pub struct LatencyMonitor {
    /// The samples since the last update, each in milliseconds.
    pub samples: Vec<u64>,
    /// The average computed at the last update.
    pub rate: u64,
}

impl LatencyMonitor {
    /// Samples are bounded and the window never overfills, so the sum
    /// fits.
    pub open spec fn wf(self) -> bool {
        &&& self.samples@.len() <= LATENCY_WINDOW_MAX
        &&& forall|i: int|
            0 <= i < self.samples@.len() ==> #[trigger] self.samples@[i] <= LATENCY_SAMPLE_MAX
    }

    /// A monitor with no samples and no average.
    pub fn new() -> (r: LatencyMonitor)
        ensures
            r.wf(),
            r.samples@.len() == 0,
            r.rate == 0,
    {
        LatencyMonitor { samples: Vec::new(), rate: 0 }
    }

    /// Keeps one sample, capped to the sample bound; a full window drops
    /// it.
    pub fn add(&mut self, sample: u64)
        requires
            old(self).wf(),
        ensures
            final(self).wf(),
            final(self).rate == old(self).rate,
            final(self).samples@ == spec_latency_add(old(self).samples@, sample),
    {
        if self.samples.len() < LATENCY_WINDOW_MAX {
            let capped = if sample <= LATENCY_SAMPLE_MAX {
                sample
            } else {
                LATENCY_SAMPLE_MAX
            };
            self.samples.push(capped);
        }
    }

    /// The average computed at the last update, in milliseconds.
    pub fn rate(&self) -> (r: u64)
        ensures
            r == self.rate,
    {
        self.rate
    }

    /// Averages the samples gathered since the last update and clears
    /// them; with no samples the average is zero.
    pub fn update(&mut self)
        requires
            old(self).wf(),
        ensures
            final(self).wf(),
            final(self).samples@.len() == 0,
            final(self).rate == if old(self).samples@.len() == 0 {
                0int
            } else {
                spec_sum(old(self).samples@) / old(self).samples@.len() as int
            },
    {
        let n = self.samples.len();
        if n == 0 {
            self.rate = 0;
            self.samples.clear();
            return ;
        }
        let mut sum: u64 = 0;
        let mut i: usize = 0;
        while i < n
            invariant
                i <= n,
                n == self.samples@.len(),
                self.wf(),
                sum == spec_sum(self.samples@.take(i as int)),
                sum <= i * (LATENCY_SAMPLE_MAX as int),
            decreases n - i,
        {
            proof {
                assert(self.samples@.take(i + 1).drop_last() =~= self.samples@.take(i as int));
                assert(self.samples@.take(i + 1).last() == self.samples@[i as int]);
                assert(i * (LATENCY_SAMPLE_MAX as int) + LATENCY_SAMPLE_MAX == (i + 1) * (
                LATENCY_SAMPLE_MAX as int)) by (nonlinear_arith);
                assert((i + 1) * (LATENCY_SAMPLE_MAX as int) <= LATENCY_WINDOW_MAX * (
                LATENCY_SAMPLE_MAX as int)) by (nonlinear_arith)
                    requires
                        i + 1 <= LATENCY_WINDOW_MAX,
                ;
            }
            sum = sum + self.samples[i];
            i = i + 1;
        }
        proof {
            assert(self.samples@.take(n as int) =~= self.samples@);
        }
        self.rate = sum / (n as u64);
        self.samples.clear();
    }
}

} // verus!
