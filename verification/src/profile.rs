//! Degradation profiles and level selection.
//!
//! A profile is an ordered list of (bandwidth demand, configuration,
//! quality) records, sorted by strictly ascending bandwidth demand. A
//! level is an index into that list: index 0 is the most degraded
//! operating point, the last index the highest quality. Bandwidths are in
//! kbps; qualities in thousandths.

use vstd::prelude::*;

use crate::errors::Error;

verus! {

/// Record is each individual rule in a profile.
#[derive(Clone, Copy, Debug)]
pub struct Record<C> {
    /// Bandwidth demand of this operating point, in kbps.
    pub bandwidth: u64,
    /// The configuration the source runs at this level.
    pub config: C,
    /// Expected quality at this level, in thousandths.
    pub accuracy: u64,
}

/// How many times `adjust_level` may stick to the current level before
/// degrading one level anyway.
pub const ADJUST_STICKY_MAX: usize = 3;

/// A `SimpleProfile` isn't parameterized by the config: only the
/// bandwidth column and the current level.
#[derive(Debug)]
pub struct SimpleProfile {
    /// The bandwidth demand of each level, in kbps, strictly ascending.
    pub levels: Vec<u64>,
    /// The current level (serving as cache).
    pub current: usize,
    /// How many more times we can stick to the current level without
    /// degrading.
    pub adjust_sticky_count: usize,
}

/// Strictly ascending bandwidth column.
pub open spec fn spec_sorted_strict(s: Seq<u64>) -> bool {
    forall|i: int, j: int| 0 <= i < j < s.len() ==> s[i] < s[j]
}

/// The greatest level whose bandwidth demand is at most `bw`, or level 0
/// when every demand exceeds `bw`.
pub open spec fn spec_level_index(levels: Seq<u64>, bw: u64) -> int
    decreases levels.len(),
{
    if levels.len() <= 1 {
        0
    } else if levels[levels.len() - 1] <= bw {
        levels.len() - 1
    } else {
        spec_level_index(levels.drop_last(), bw)
    }
}

/// Characterizes `spec_level_index`: it is a valid index, it never points
/// past `bw` unless every level does, and every level above it demands
/// more than `bw`.
pub proof fn lemma_level_index_props(levels: Seq<u64>, bw: u64)
    requires
        levels.len() >= 1,
        spec_sorted_strict(levels),
    ensures
        0 <= spec_level_index(levels, bw) < levels.len(),
        levels[0] <= bw ==> levels[spec_level_index(levels, bw)] <= bw,
        levels[0] > bw ==> spec_level_index(levels, bw) == 0,
        forall|j: int| spec_level_index(levels, bw) < j < levels.len() ==> levels[j] > bw,
    decreases levels.len(),
{
    if levels.len() > 1 && levels[levels.len() - 1] > bw {
        lemma_level_index_props(levels.drop_last(), bw);
        assert(forall|j: int|
            0 <= j < levels.len() - 1 ==> levels[j] == levels.drop_last()[j]);
    }
}

/// What adjusting to `bw` does to the current level and the sticky count:
/// a lower matching level is taken with a fresh sticky budget; a matching
/// level equal to the current one spends the budget, and once it is spent
/// the level drops one anyway; a higher matching level changes nothing.
pub open spec fn spec_adjust(levels: Seq<u64>, current: int, sticky: int, bw: u64) -> (int, int) {
    let nl = spec_level_index(levels, bw);
    if current > nl {
        (nl, ADJUST_STICKY_MAX as int)
    } else if current == nl {
        if sticky == 0 {
            (
                if current > 0 {
                    current - 1
                } else {
                    0
                },
                ADJUST_STICKY_MAX as int,
            )
        } else {
            (current, sticky - 1)
        }
    } else {
        (current, sticky)
    }
}

impl SimpleProfile {
    /// A profile has at least one level, strictly ascending demands, a
    /// current level inside the list, and a sticky count within budget.
    pub open spec fn wf(self) -> bool {
        &&& self.levels@.len() >= 1
        &&& spec_sorted_strict(self.levels@)
        &&& self.current < self.levels@.len()
        &&& self.adjust_sticky_count <= ADJUST_STICKY_MAX
    }

    /// Get current level.
    pub fn current(&self) -> (r: usize)
        ensures
            r == self.current,
    {
        self.current
    }

    /// Finds the index of the level that matches (equal or smaller than)
    /// the provided bandwidth, by binary search over the ascending
    /// bandwidth column; below the smallest demand, level 0.
    fn get_level_index(&self, bw: u64) -> (r: usize)
        requires
            self.wf(),
        ensures
            r == spec_level_index(self.levels@, bw),
    {
        let n = self.levels.len();
        let mut lo: usize = 0;
        let mut hi: usize = n;
        while lo < hi
            invariant
                lo <= hi <= n,
                n == self.levels@.len(),
                self.wf(),
                forall|j: int| 0 <= j < lo ==> self.levels@[j] <= bw,
                forall|j: int| hi <= j < n ==> self.levels@[j] > bw,
            decreases hi - lo,
        {
            let mid = lo + (hi - lo) / 2;
            if self.levels[mid] <= bw {
                lo = mid + 1;
            } else {
                hi = mid;
            }
        }
        let r = if lo == 0 {
            0
        } else {
            lo - 1
        };
        proof {
            lemma_level_index_props(self.levels@, bw);
            let s = spec_level_index(self.levels@, bw);
            if lo == 0 {
                assert(self.levels@[0] > bw);
            } else {
                assert(self.levels@[lo - 1] <= bw);
                assert(self.levels@[0] <= bw);
                if s < lo - 1 {
                    assert(self.levels@[lo - 1] > bw);
                }
                if s > lo - 1 {
                    assert(self.levels@[s] > bw);
                    assert(self.levels@[s] <= bw);
                }
            }
        }
        r
    }

    /// Adjusts the profile to a level that satisfies the provided
    /// bandwidth, i.e., with demand equal or smaller. Never raises the
    /// level. When the matching level is the current one, a sticky policy
    /// applies: after the sticky budget is spent, degrade one level
    /// anyway. Returns the new level when it changed.
    pub fn adjust_level(&mut self, bw: u64) -> (r: Option<usize>)
        requires
            old(self).wf(),
        ensures
            final(self).wf(),
            final(self).levels == old(self).levels,
            final(self).current <= old(self).current,
            ({
                let (c, s) = spec_adjust(
                    old(self).levels@,
                    old(self).current as int,
                    old(self).adjust_sticky_count as int,
                    bw,
                );
                &&& final(self).current == c
                &&& final(self).adjust_sticky_count == s
                &&& r == if c != old(self).current {
                    Some(c as usize)
                } else {
                    None::<usize>
                }
            }),
    {
        let new_level = self.get_level_index(bw);
        proof {
            lemma_level_index_props(self.levels@, bw);
        }
        if self.current > new_level {
            self.current = new_level;
            self.adjust_sticky_count = ADJUST_STICKY_MAX;
            Some(new_level)
        } else if self.current == new_level {
            if self.adjust_sticky_count == 0 {
                self.adjust_sticky_count = ADJUST_STICKY_MAX;
                self.decrease_level()
            } else {
                self.adjust_sticky_count = self.adjust_sticky_count - 1;
                None
            }
        } else {
            None
        }
    }

    /// Advances to the next level. Returns the new level if there is one;
    /// otherwise, `None` (the profile is already at its maximum). Never
    /// lowers the level.
    pub fn advance_level(&mut self) -> (r: Option<usize>)
        requires
            old(self).wf(),
        ensures
            final(self).wf(),
            final(self).levels == old(self).levels,
            final(self).adjust_sticky_count == old(self).adjust_sticky_count,
            final(self).current >= old(self).current,
            if old(self).current + 1 < old(self).levels@.len() {
                final(self).current == old(self).current + 1 && r == Some(final(self).current)
            } else {
                final(self).current == old(self).current && r is None
            },
    {
        if self.current < self.levels.len() - 1 {
            self.current = self.current + 1;
            Some(self.current)
        } else {
            None
        }
    }

    /// Goes down one level. Returns the new level if the profile was not
    /// already at its minimum; otherwise, `None`.
    pub fn decrease_level(&mut self) -> (r: Option<usize>)
        requires
            old(self).wf(),
        ensures
            final(self).wf(),
            final(self).levels == old(self).levels,
            final(self).adjust_sticky_count == old(self).adjust_sticky_count,
            final(self).current <= old(self).current,
            if old(self).current > 0 {
                final(self).current == old(self).current - 1 && r == Some(final(self).current)
            } else {
                final(self).current == 0 && r is None
            },
    {
        if self.current > 0 {
            self.current = self.current - 1;
            Some(self.current)
        } else {
            None
        }
    }

    /// The bandwidth demand of the next level, when a higher one exists.
    pub fn next_rate(&self) -> (r: Option<u64>)
        requires
            self.wf(),
        ensures
            if self.current + 1 < self.levels@.len() {
                r == Some(self.levels@[self.current + 1])
            } else {
                r is None
            },
    {
        if self.current < self.levels.len() - 1 {
            Some(self.levels[self.current + 1])
        } else {
            None
        }
    }

    /// The additional bandwidth needed to advance one level, when a
    /// higher level exists; at the last level, nothing.
    pub fn next_rate_delta(&self) -> (r: Option<u64>)
        requires
            self.wf(),
        ensures
            if self.current + 1 < self.levels@.len() {
                r == Some(
                    (self.levels@[self.current + 1] - self.levels@[self.current as int]) as u64,
                )
            } else {
                r is None
            },
    {
        if self.current < self.levels.len() - 1 {
            Some(self.levels[self.current + 1] - self.levels[self.current])
        } else {
            None
        }
    }

    /// Am I currently at the maximum allowed level?
    pub fn is_max(&self) -> (r: bool)
        requires
            self.wf(),
        ensures
            r == (self.current == self.levels@.len() - 1),
    {
        self.current == self.levels.len() - 1
    }
}

/// Profile pairs the bandwidth column with the full records.
#[derive(Debug)]
pub struct Profile<C> {
    /// `SimpleProfile` takes care of indexing and searching for levels.
    pub simple_profile: SimpleProfile,
    /// A reference list with detailed configurations.
    pub records: Vec<Record<C>>,
}

impl<C> Profile<C> {
    /// The records align with the bandwidth column, level by level.
    pub open spec fn wf(self) -> bool {
        &&& self.simple_profile.wf()
        &&& self.records@.len() == self.simple_profile.levels@.len()
        &&& forall|i: int|
            0 <= i < self.records@.len() ==> #[trigger] self.records@[i].bandwidth
                == self.simple_profile.levels@[i]
    }

    /// Creates a profile from records already sorted by strictly
    /// ascending bandwidth. Succeeds exactly on a non-empty, strictly
    /// ascending list; an empty or unsorted one is a fatal configuration
    /// error.
    pub fn new(vec: Vec<Record<C>>) -> (r: Result<Profile<C>, Error>)
        ensures
            match r {
                Ok(p) => {
                    &&& vec@.len() >= 1
                    &&& p.wf()
                    &&& p.records@ == vec@
                    &&& p.simple_profile.current == 0
                    &&& p.simple_profile.adjust_sticky_count == ADJUST_STICKY_MAX
                },
                Err(e) => {
                    &&& e == Error::SourceData
                    &&& (vec@.len() < 1 || !spec_sorted_strict(
                        Seq::new(vec@.len(), |i: int| vec@[i].bandwidth),
                    ))
                },
            },
    {
        let n = vec.len();
        if n == 0 {
            return Err(Error::SourceData);
        }
        let mut levels: Vec<u64> = Vec::new();
        let mut i: usize = 0;
        while i < n
            invariant
                i <= n,
                n == vec@.len(),
                levels@ =~= Seq::new(i as nat, |j: int| vec@[j].bandwidth),
            decreases n - i,
        {
            levels.push(vec[i].bandwidth);
            proof {
                assert(levels@ =~= Seq::new((i + 1) as nat, |j: int| vec@[j].bandwidth));
            }
            i = i + 1;
        }
        let mut k: usize = 1;
        while k < n
            invariant
                1 <= k <= n,
                n == levels@.len(),
                n == vec@.len(),
                levels@ == Seq::new(vec@.len(), |j: int| vec@[j].bandwidth),
                forall|a: int, b: int| 0 <= a < b < k ==> levels@[a] < levels@[b],
            decreases n - k,
        {
            if levels[k - 1] >= levels[k] {
                proof {
                    let s = Seq::new(vec@.len(), |j: int| vec@[j].bandwidth);
                    assert(s[k - 1] >= s[k as int]);
                }
                return Err(Error::SourceData);
            }
            proof {
                assert(forall|a: int, b: int|
                    0 <= a < b < k + 1 ==> levels@[a] < levels@[b]) by {
                    assert(forall|a: int| 0 <= a < k ==> #[trigger] levels@[a] <= levels@[k - 1]);
                }
            }
            k = k + 1;
        }
        Ok(
            Profile {
                simple_profile: SimpleProfile {
                    levels,
                    current: 0,
                    adjust_sticky_count: ADJUST_STICKY_MAX,
                },
                records: vec,
            },
        )
    }

    /// A copy of the level-indexing part of this profile.
    pub fn simplify(&self) -> (r: SimpleProfile)
        ensures
            r.levels@ == self.simple_profile.levels@,
            r.current == self.simple_profile.current,
            r.adjust_sticky_count == self.simple_profile.adjust_sticky_count,
    {
        let n = self.simple_profile.levels.len();
        let mut levels: Vec<u64> = Vec::new();
        let mut i: usize = 0;
        while i < n
            invariant
                i <= n,
                n == self.simple_profile.levels@.len(),
                levels@ =~= self.simple_profile.levels@.take(i as int),
            decreases n - i,
        {
            levels.push(self.simple_profile.levels[i]);
            proof {
                assert(levels@ =~= self.simple_profile.levels@.take(i + 1));
            }
            i = i + 1;
        }
        proof {
            assert(levels@ =~= self.simple_profile.levels@);
        }
        SimpleProfile {
            levels,
            current: self.simple_profile.current,
            adjust_sticky_count: self.simple_profile.adjust_sticky_count,
        }
    }
}

impl<C: Copy> Profile<C> {
    /// Returns the initial configuration: the first record's.
    pub fn init_config(&self) -> (r: C)
        requires
            self.wf(),
        ensures
            r == self.records@[0].config,
    {
        self.records[0].config
    }

    /// Returns the last configuration: the last record's.
    pub fn last_config(&self) -> (r: C)
        requires
            self.wf(),
        ensures
            r == self.records@[self.records@.len() - 1].config,
    {
        self.records[self.records.len() - 1].config
    }

    /// Returns the current configuration.
    pub fn current_config(&self) -> (r: C)
        requires
            self.wf(),
        ensures
            r == self.records@[self.simple_profile.current as int].config,
    {
        self.records[self.simple_profile.current].config
    }

    /// Returns the current level.
    pub fn current_level(&self) -> (r: usize)
        ensures
            r == self.simple_profile.current,
    {
        self.simple_profile.current()
    }

    /// The configuration at a level.
    pub fn n_th(&self, level: usize) -> (r: C)
        requires
            self.wf(),
            level < self.records@.len(),
        ensures
            r == self.records@[level as int].config,
    {
        self.records[level].config
    }

    /// Adjusts the profile to a level that satisfies the provided
    /// bandwidth, exactly as `SimpleProfile::adjust_level` does: the level
    /// never rises, and the sticky policy delays a repeated downgrade.
    /// Returns the record of the new level exactly when the level changed.
    pub fn adjust_config(&mut self, bw: u64) -> (r: Option<Record<C>>)
        requires
            old(self).wf(),
        ensures
            final(self).wf(),
            final(self).records == old(self).records,
            final(self).simple_profile.levels == old(self).simple_profile.levels,
            final(self).simple_profile.current <= old(self).simple_profile.current,
            ({
                let (c, s) = spec_adjust(
                    old(self).simple_profile.levels@,
                    old(self).simple_profile.current as int,
                    old(self).simple_profile.adjust_sticky_count as int,
                    bw,
                );
                &&& final(self).simple_profile.current == c
                &&& final(self).simple_profile.adjust_sticky_count == s
                &&& r == if c != old(self).simple_profile.current {
                    Some(old(self).records@[c])
                } else {
                    None::<Record<C>>
                }
            }),
    {
        match self.simple_profile.adjust_level(bw) {
            Some(new_level) => Some(self.records[new_level]),
            None => None,
        }
    }

    /// Advances to the next level. Returns the record of the new level if
    /// there is one; otherwise, `None`.
    pub fn advance_config(&mut self) -> (r: Option<Record<C>>)
        requires
            old(self).wf(),
        ensures
            final(self).wf(),
            final(self).records == old(self).records,
            final(self).simple_profile.levels == old(self).simple_profile.levels,
            final(self).simple_profile.adjust_sticky_count == old(
                self,
            ).simple_profile.adjust_sticky_count,
            if old(self).simple_profile.current + 1 < old(self).records@.len() {
                final(self).simple_profile.current == old(self).simple_profile.current + 1 && r
                    == Some(final(self).records@[final(self).simple_profile.current as int])
            } else {
                final(self).simple_profile.current == old(self).simple_profile.current
                    && r is None
            },
    {
        match self.simple_profile.advance_level() {
            Some(new_level) => Some(self.records[new_level]),
            None => None,
        }
    }
}

} // verus!
