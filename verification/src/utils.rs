//! Utility structures: exponential smoothing and a small streaming
//! minimum window, both over integer samples.

use vstd::prelude::*;

verus! {

/// The largest sample and smoothed value the smoother accepts; keeps the
/// weighted sum inside 64 bits.
pub const SMOOTH_LIMIT: u64 = 0xFFFF_FFFF_FFFF;

/// Exponentially smoothed value. The weight `alpha` is in thousandths:
/// each new sample `s` turns `val` into
/// `(alpha * val + (1000 - alpha) * s) / 1000`.
#[derive(Debug, Clone, Copy, PartialEq, Eq, Structural)]
pub struct ExponentialSmooth {
    /// The current smoothed value.
    pub val: u64,
    /// The smoothing weight, in thousandths.
    pub alpha: u64,
}

impl ExponentialSmooth {
    /// The weight is a fraction and the value within the sample range.
    pub open spec fn wf(self) -> bool {
        &&& self.alpha <= 1000
        &&& self.val <= SMOOTH_LIMIT
    }

    /// A smoother at zero with the given weight in thousandths.
    pub fn new(alpha: u64) -> (r: Self)
        requires
            alpha <= 1000,
        ensures
            r.val == 0,
            r.alpha == alpha,
            r.wf(),
    {
        ExponentialSmooth { val: 0, alpha }
    }

    /// Folds one sample into the smoothed value.
    pub fn add(&mut self, sample: u64)
        requires
            old(self).wf(),
            sample <= SMOOTH_LIMIT,
        ensures
            final(self).wf(),
            final(self).alpha == old(self).alpha,
            final(self).val == (old(self).alpha * old(self).val + (1000 - old(self).alpha)
                * sample) / 1000,
    {
        proof {
            assert(self.alpha * self.val <= self.alpha * SMOOTH_LIMIT) by (nonlinear_arith)
                requires
                    self.val <= SMOOTH_LIMIT,
                    self.alpha >= 0,
            ;
            assert((1000 - self.alpha) * sample <= (1000 - self.alpha) * SMOOTH_LIMIT)
                by (nonlinear_arith)
                requires
                    self.alpha <= 1000,
                    sample <= SMOOTH_LIMIT,
            ;
            assert(self.alpha * SMOOTH_LIMIT + (1000 - self.alpha) * SMOOTH_LIMIT == 1000
                * SMOOTH_LIMIT) by (nonlinear_arith)
                requires
                    self.alpha <= 1000,
            ;
            assert((self.alpha * self.val + (1000 - self.alpha) * sample) / 1000 <= SMOOTH_LIMIT)
                by (nonlinear_arith)
                requires
                    self.alpha * self.val + (1000 - self.alpha) * sample <= 1000 * SMOOTH_LIMIT,
            ;
        }
        self.val = (self.alpha * self.val + (1000 - self.alpha) * sample) / 1000;
    }

    /// The current smoothed value.
    pub fn val(&self) -> (r: u64)
        ensures
            r == self.val,
    {
        self.val
    }
}

/// A fixed-size circular window of samples supporting a minimum query.
#[derive(Debug)]
pub struct StreamingStat {
    /// The window, overwritten circularly.
    pub buffer: Vec<u64>,
    /// Where the next sample lands.
    pub pos: usize,
    /// The window size.
    pub capacity: usize,
}

impl StreamingStat {
    /// The window is non-empty and the cursor inside it.
    pub open spec fn wf(self) -> bool {
        &&& self.capacity == self.buffer@.len()
        &&& self.capacity > 0
        &&& self.pos < self.capacity
    }

    /// A window of `size` copies of `init`.
    pub fn new(init: u64, size: usize) -> (r: Self)
        requires
            size > 0,
        ensures
            r.wf(),
            r.capacity == size,
            r.pos == 0,
            forall|i: int| 0 <= i < size ==> r.buffer@[i] == init,
    {
        let mut buffer: Vec<u64> = Vec::new();
        let mut i: usize = 0;
        while i < size
            invariant
                i <= size,
                buffer@.len() == i,
                forall|j: int| 0 <= j < i ==> buffer@[j] == init,
            decreases size - i,
        {
            buffer.push(init);
            i = i + 1;
        }
        StreamingStat { buffer, pos: 0, capacity: size }
    }

    /// Overwrites the oldest sample with a new one.
    pub fn add(&mut self, sample: u64)
        requires
            old(self).wf(),
        ensures
            final(self).wf(),
            final(self).capacity == old(self).capacity,
            final(self).buffer@ == old(self).buffer@.update(old(self).pos as int, sample),
            final(self).pos == if old(self).pos + 1 == old(self).capacity {
                0int
            } else {
                old(self).pos + 1
            },
    {
        self.buffer.set(self.pos, sample);
        self.pos = self.pos + 1;
        if self.pos == self.capacity {
            self.pos = 0;
        }
    }

    /// The smallest sample in the window.
    pub fn min(&self) -> (r: u64)
        requires
            self.wf(),
        ensures
            r == spec_min(self.buffer@),
            forall|i: int| 0 <= i < self.buffer@.len() ==> r <= self.buffer@[i],
    {
        let n = self.buffer.len();
        let mut best = self.buffer[0];
        let mut i: usize = 1;
        proof {
            assert(self.buffer@.take(1) =~= seq![self.buffer@[0]]);
        }
        while i < n
            invariant
                1 <= i <= n,
                n == self.buffer@.len(),
                best == spec_min(self.buffer@.take(i as int)),
                forall|j: int| 0 <= j < i ==> best <= self.buffer@[j],
            decreases n - i,
        {
            proof {
                assert(self.buffer@.take(i + 1).drop_last() =~= self.buffer@.take(i as int));
                assert(self.buffer@.take(i + 1).last() == self.buffer@[i as int]);
            }
            if self.buffer[i] < best {
                best = self.buffer[i];
            }
            i = i + 1;
        }
        proof {
            assert(self.buffer@.take(n as int) =~= self.buffer@);
        }
        best
    }
}

/// The smallest value in a non-empty sequence.
pub open spec fn spec_min(s: Seq<u64>) -> u64
    recommends
        s.len() >= 1,
    decreases s.len(),
{
    if s.len() <= 1 {
        s[0]
    } else if s.last() < spec_min(s.drop_last()) {
        s.last()
    } else {
        spec_min(s.drop_last())
    }
}

} // verus!
