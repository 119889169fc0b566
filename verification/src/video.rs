//! The video source: a degradation profile plus a source trace that gives
//! each frame's byte size at each level.
//!
//! The trace is held per level: one row of frame sizes for each profile
//! record, indexed by frame number. The platform layer loads the trace
//! from its file and hands the rows over as plain values.

use vstd::prelude::*;

use crate::errors::Error;
use crate::profile::{spec_adjust, Profile};
use crate::{Adapt, Experiment, SimpleProfile};

verus! {

/// A video configuration: width, frame skip, and quantization.
#[derive(Debug, PartialEq, Eq, PartialOrd, Ord, Clone, Copy, Hash, Structural)]
pub struct VideoConfig {
    /// Frame width in pixels.
    pub width: usize,
    /// Frames skipped per kept frame.
    pub skip: usize,
    /// Quantization level used in encoding.
    pub quant: usize,
}

/// A trace covers a profile of `levels` records when it has one row of
/// frame sizes per level, at least two frame slots, all rows of one
/// length, and every size small enough to frame as a datum.
pub open spec fn spec_trace_valid(sizes: Seq<Vec<usize>>, levels: int) -> bool {
    &&& sizes.len() == levels
    &&& sizes.len() >= 1
    &&& sizes[0]@.len() >= 2
    &&& forall|l: int| 0 <= l < sizes.len() ==> #[trigger] sizes[l]@.len() == sizes[0]@.len()
    &&& forall|l: int, f: int|
        0 <= l < sizes.len() && 0 <= f < sizes[0]@.len() ==> #[trigger] sizes[l]@[f] + 33
            <= u64::MAX
}

/// The source: the trace, the frame cursor, and the profile that selects
/// the level.
#[derive(Debug)]
pub struct VideoSource {
    /// Frame sizes: one row per level, indexed by frame number. Frames
    /// count from one; index zero of a row is never read.
    pub sizes: Vec<Vec<usize>>,
    /// The next frame number.
    pub frame: usize,
    /// Frame numbers wrap back to one at this count.
    pub num: usize,
    /// The current configuration (serving as cache).
    pub config: VideoConfig,
    /// The degradation profile.
    pub profile: Profile<VideoConfig>,
}

impl VideoSource {
    /// The trace aligns with the profile, every row covers every frame
    /// number, the cursor is in range, and every size fits a datum.
    pub open spec fn wf(self) -> bool {
        &&& self.profile.wf()
        &&& self.sizes@.len() == self.profile.records@.len()
        &&& self.num >= 2
        &&& forall|l: int| 0 <= l < self.sizes@.len() ==> #[trigger] self.sizes@[l]@.len() == self.num
        &&& 1 <= self.frame < self.num
        &&& forall|l: int, f: int|
            0 <= l < self.sizes@.len() && 0 <= f < self.num ==> #[trigger] self.sizes@[l]@[f] + 33
                <= u64::MAX
    }

    /// The source with the frame cursor advanced, wrapping back to one at
    /// the trace's end.
    pub open spec fn spec_wrap_frame(self) -> VideoSource {
        VideoSource {
            frame: if self.frame + 1 >= self.num {
                1usize
            } else {
                (self.frame + 1) as usize
            },
            ..self
        }
    }

    /// The source after adjusting its profile to a bandwidth: the level
    /// and sticky count move as `spec_adjust` says, and the cached
    /// configuration follows the level when it changed.
    pub open spec fn spec_adjusted(self, bw: u64) -> VideoSource {
        let c0 = self.profile.simple_profile.current as int;
        let (c, s) = spec_adjust(
            self.profile.simple_profile.levels@,
            c0,
            self.profile.simple_profile.adjust_sticky_count as int,
            bw,
        );
        VideoSource {
            config: if c != c0 {
                self.profile.records@[c].config
            } else {
                self.config
            },
            profile: Profile {
                simple_profile: SimpleProfile {
                    levels: self.profile.simple_profile.levels,
                    current: c as usize,
                    adjust_sticky_count: s as usize,
                },
                records: self.profile.records,
            },
            ..self
        }
    }

    /// The source after advancing one level: the level and its cached
    /// configuration move up when a higher level exists, else nothing
    /// changes.
    pub open spec fn spec_advanced_level(self) -> VideoSource {
        let c0 = self.profile.simple_profile.current;
        if c0 + 1 < self.profile.records@.len() {
            VideoSource {
                config: self.profile.records@[c0 + 1].config,
                profile: Profile {
                    simple_profile: SimpleProfile {
                        levels: self.profile.simple_profile.levels,
                        current: (c0 + 1) as usize,
                        adjust_sticky_count: self.profile.simple_profile.adjust_sticky_count,
                    },
                    records: self.profile.records,
                },
                ..self
            }
        } else {
            self
        }
    }

    /// Builds a source from a profile and its trace rows. Succeeds
    /// exactly when the trace covers the profile — one row per level, at
    /// least two frame slots per row, all rows of one length, every size
    /// small enough to frame — and a trace that does not is corrupt.
    pub fn new(sizes: Vec<Vec<usize>>, profile: Profile<VideoConfig>) -> (r: Result<
        VideoSource,
        Error,
    >)
        requires
            profile.wf(),
        ensures
            match r {
                Ok(vs) => {
                    &&& spec_trace_valid(sizes@, profile.records@.len() as int)
                    &&& vs.wf()
                    &&& vs.sizes@ == sizes@
                    &&& vs.frame == 1
                    &&& vs.num == sizes@[0]@.len()
                    &&& vs.profile == profile
                    &&& vs.config == profile.records@[0].config
                },
                Err(e) => e == Error::SourceData && !spec_trace_valid(
                    sizes@,
                    profile.records@.len() as int,
                ),
            },
    {
        if sizes.len() != profile.records.len() {
            return Err(Error::SourceData);
        }
        let num = sizes[0].len();
        if num < 2 {
            return Err(Error::SourceData);
        }
        let rows = sizes.len();
        let mut l: usize = 0;
        while l < rows
            invariant
                l <= rows,
                rows == sizes@.len(),
                num == sizes@[0]@.len(),
                num >= 2,
                forall|i: int| 0 <= i < l ==> #[trigger] sizes@[i]@.len() == num,
                forall|i: int, f: int|
                    0 <= i < l && 0 <= f < num ==> #[trigger] sizes@[i]@[f] + 33 <= u64::MAX,
            decreases rows - l,
        {
            if sizes[l].len() != num {
                proof {
                    assert(sizes@[l as int]@.len() != sizes@[0]@.len());
                }
                return Err(Error::SourceData);
            }
            let mut f: usize = 0;
            while f < num
                invariant
                    f <= num,
                    l < rows,
                    rows == sizes@.len(),
                    num == sizes@[0]@.len(),
                    sizes@[l as int]@.len() == num,
                    forall|j: int| 0 <= j < f ==> #[trigger] sizes@[l as int]@[j] + 33 <= u64::MAX,
                decreases num - f,
            {
                if sizes[l][f] as u64 > u64::MAX - 33 {
                    proof {
                        assert(sizes@[l as int]@[f as int] + 33 > u64::MAX);
                    }
                    return Err(Error::SourceData);
                }
                f = f + 1;
            }
            l = l + 1;
        }
        let config = profile.init_config();
        Ok(VideoSource { sizes, frame: 1, num, config, profile })
    }

    /// The next frame's size and number at the current level; the frame
    /// cursor advances and wraps back to one at the trace's end.
    pub fn next_frame(&mut self) -> (r: (usize, usize))
        requires
            old(self).wf(),
        ensures
            final(self).wf(),
            r.0 == old(self).sizes@[old(self).profile.simple_profile.current as int]@[old(
                self,
            ).frame as int],
            r.1 == old(self).frame,
            r.0 + 33 <= u64::MAX,
            *final(self) == old(self).spec_wrap_frame(),
    {
        let level = self.profile.current_level();
        let frame_size = self.sizes[level][self.frame];
        let frame_num = self.frame;
        self.frame = self.frame + 1;
        if self.frame >= self.num {
            self.frame = 1;
        }
        (frame_size, frame_num)
    }
}

impl Adapt for VideoSource {
    open spec fn adapt_inv(&self) -> bool {
        self.wf()
    }

    open spec fn spec_level(&self) -> usize {
        self.profile.simple_profile.current
    }

    open spec fn spec_adapted(&self, bandwidth: u64) -> VideoSource {
        self.spec_adjusted(bandwidth)
    }

    open spec fn spec_advanced(&self) -> VideoSource {
        self.spec_advanced_level()
    }

    /// Lowers the level to one whose demand the bandwidth satisfies and
    /// caches its configuration.
    fn adapt(&mut self, bw: u64) {
        match self.profile.adjust_config(bw) {
            Some(c) => self.config = c.config,
            None => (),
        }
        proof {
            assert(*self == old(self).spec_adjusted(bw));
        }
    }

    /// Moves one level up, when there is one, and caches its
    /// configuration.
    fn dec_degradation(&mut self) {
        match self.profile.advance_config() {
            Some(c) => self.config = c.config,
            None => (),
        }
        proof {
            assert(*self == old(self).spec_advanced_level());
        }
    }

    fn period_in_ms(&self) -> (r: u64) {
        33
    }

    fn current_level(&self) -> (r: usize) {
        self.profile.current_level()
    }

    fn simple_profile(&self) -> (r: SimpleProfile) {
        self.profile.simplify()
    }
}

impl Experiment for VideoSource {
    open spec fn exp_inv(&self) -> bool {
        self.wf()
    }

    open spec fn spec_next_datum(&self) -> (usize, usize) {
        (self.sizes@[self.profile.simple_profile.current as int]@[self.frame as int], self.frame)
    }

    open spec fn spec_datum_taken(&self) -> VideoSource {
        self.spec_wrap_frame()
    }

    fn next_datum(&mut self) -> (r: (usize, usize)) {
        self.next_frame()
    }
}

} // verus!
