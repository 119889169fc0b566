//! Scoring support for the server's analytic log: matching the runtime's
//! and the evaluation's configuration types, and the integer tally of
//! detection counts over a log. The final accuracy — precision, recall
//! and their harmonic mean — works in floating point and lives in the
//! platform layer.

use vstd::prelude::*;

use crate::evaluation::{FrameStat, Stat};
use crate::video;

verus! {

/// The largest detection count per frame the tally accepts; keeps the
/// sums inside 64 bits.
pub const STAT_COUNT_MAX: usize = 0xFFFF_FFFF;

/// How many log entries the tally accepts at most.
pub const LOG_MAX: usize = 0xFFFF_FFFF;

/// Whether a runtime configuration and an evaluation configuration denote
/// the same operating point: the two types have the same fields.
pub open spec fn spec_configs_match(a: video::VideoConfig, b: crate::evaluation::VideoConfig) -> bool {
    a.width == b.width && a.skip == b.skip && a.quant == b.quant
}

/// Whether a runtime configuration and an evaluation configuration denote
/// the same operating point: the two types have the same fields.
pub fn match_config(a: video::VideoConfig, b: crate::evaluation::VideoConfig) -> (r: bool)
    ensures
        r == spec_configs_match(a, b),
{
    a.width == b.width && a.skip == b.skip && a.quant == b.quant
}

/// The first stat recorded for a frame under a configuration.
pub open spec fn spec_find_stat(
    stats: Seq<FrameStat>,
    frame: usize,
    config: video::VideoConfig,
) -> Option<Stat>
    decreases stats.len(),
{
    if stats.len() == 0 {
        None
    } else if stats[0].frame_num == frame && spec_configs_match(config, stats[0].config) {
        Some(stats[0].stat)
    } else {
        spec_find_stat(stats.drop_first(), frame, config)
    }
}

/// The summed detection counts of an analytic log against per-frame
/// stats: each (frame number, level) entry contributes the counts of that
/// frame under the level's configuration. A level outside the ladder or a
/// frame without a stat yields nothing.
pub open spec fn spec_aggregate(
    logs: Seq<(usize, usize)>,
    configs: Seq<video::VideoConfig>,
    stats: Seq<FrameStat>,
) -> Option<(int, int, int)>
    decreases logs.len(),
{
    if logs.len() == 0 {
        Some((0int, 0int, 0int))
    } else {
        match spec_aggregate(logs.drop_last(), configs, stats) {
            None => None,
            Some(acc) => {
                let frame = logs.last().0;
                let level = logs.last().1;
                if level >= configs.len() {
                    None
                } else {
                    match spec_find_stat(stats, frame, configs[level as int]) {
                        None => None,
                        Some(st) => Some(
                            (
                                acc.0 + st.true_positive,
                                acc.1 + st.false_positive,
                                acc.2 + st.false_negative,
                            ),
                        ),
                    }
                }
            },
        }
    }
}

/// A tally that fails on some prefix fails on the whole log.
proof fn lemma_aggregate_prefix_none(
    logs: Seq<(usize, usize)>,
    configs: Seq<video::VideoConfig>,
    stats: Seq<FrameStat>,
    k: int,
)
    requires
        0 <= k <= logs.len(),
        spec_aggregate(logs.take(k), configs, stats) is None,
    ensures
        spec_aggregate(logs, configs, stats) is None,
    decreases logs.len() - k,
{
    if k == logs.len() {
        assert(logs.take(k) =~= logs);
    } else {
        assert(logs.take(k + 1).drop_last() =~= logs.take(k));
        lemma_aggregate_prefix_none(logs, configs, stats, k + 1);
    }
}

/// A found stat keeps the bounds that every stat in the list keeps.
proof fn lemma_find_stat_bounded(stats: Seq<FrameStat>, frame: usize, config: video::VideoConfig)
    requires
        forall|i: int|
            0 <= i < stats.len() ==> (#[trigger] stats[i].stat).true_positive <= STAT_COUNT_MAX
                && stats[i].stat.false_positive <= STAT_COUNT_MAX
                && stats[i].stat.false_negative <= STAT_COUNT_MAX,
    ensures
        spec_find_stat(stats, frame, config) matches Some(st) ==> st.true_positive
            <= STAT_COUNT_MAX && st.false_positive <= STAT_COUNT_MAX && st.false_negative
            <= STAT_COUNT_MAX,
    decreases stats.len(),
{
    if stats.len() > 0 {
        assert(forall|i: int|
            0 <= i < stats.drop_first().len() ==> #[trigger] stats.drop_first()[i]
                == stats[i + 1]);
        lemma_find_stat_bounded(stats.drop_first(), frame, config);
    }
}

/// The first stat recorded for a frame under a configuration, if any.
pub fn find_stat(stats: &Vec<FrameStat>, frame: usize, config: video::VideoConfig) -> (r: Option<
    Stat,
>)
    ensures
        r == spec_find_stat(stats@, frame, config),
{
    let n = stats.len();
    let mut j: usize = 0;
    proof {
        assert(stats@.skip(0) =~= stats@);
    }
    while j < n
        invariant
            j <= n,
            n == stats@.len(),
            spec_find_stat(stats@, frame, config) == spec_find_stat(
                stats@.skip(j as int),
                frame,
                config,
            ),
        decreases n - j,
    {
        proof {
            assert(stats@.skip(j as int)[0] == stats@[j as int]);
        }
        if stats[j].frame_num == frame && match_config(config, stats[j].config) {
            return Some(stats[j].stat);
        }
        proof {
            assert(stats@.skip(j as int).drop_first() =~= stats@.skip(j + 1));
        }
        j = j + 1;
    }
    None
}

/// Tallies an analytic log against per-frame stats: the three summed
/// detection counts, or nothing when some entry names a level outside the
/// configuration ladder or a frame without a stat.
pub fn aggregate_stats(
    logs: &Vec<(usize, usize)>,
    configs: &Vec<video::VideoConfig>,
    stats: &Vec<FrameStat>,
) -> (r: Option<(u64, u64, u64)>)
    requires
        logs@.len() <= LOG_MAX,
        forall|i: int|
            0 <= i < stats@.len() ==> (#[trigger] stats@[i].stat).true_positive <= STAT_COUNT_MAX
                && stats@[i].stat.false_positive <= STAT_COUNT_MAX
                && stats@[i].stat.false_negative <= STAT_COUNT_MAX,
    ensures
        match spec_aggregate(logs@, configs@, stats@) {
            Some(sums) => r matches Some(t) && t.0 == sums.0 && t.1 == sums.1 && t.2 == sums.2,
            None => r is None,
        },
{
    let n = logs.len();
    let mut tp: u64 = 0;
    let mut fp: u64 = 0;
    let mut fneg: u64 = 0;
    let mut i: usize = 0;
    while i < n
        invariant
            i <= n,
            n == logs@.len(),
            n <= LOG_MAX,
            forall|k: int|
                0 <= k < stats@.len() ==> (#[trigger] stats@[k].stat).true_positive
                    <= STAT_COUNT_MAX && stats@[k].stat.false_positive <= STAT_COUNT_MAX
                    && stats@[k].stat.false_negative <= STAT_COUNT_MAX,
            spec_aggregate(logs@.take(i as int), configs@, stats@) == Some(
                (tp as int, fp as int, fneg as int),
            ),
            tp <= i * (STAT_COUNT_MAX as int),
            fp <= i * (STAT_COUNT_MAX as int),
            fneg <= i * (STAT_COUNT_MAX as int),
        decreases n - i,
    {
        let (frame, level) = logs[i];
        proof {
            assert(logs@.take(i + 1).drop_last() =~= logs@.take(i as int));
            assert(logs@.take(i + 1).last() == logs@[i as int]);
        }
        if level >= configs.len() {
            proof {
                lemma_aggregate_prefix_none(logs@, configs@, stats@, i + 1);
            }
            return None;
        }
        let st = match find_stat(stats, frame, configs[level]) {
            Some(st) => st,
            None => {
                proof {
                    lemma_aggregate_prefix_none(logs@, configs@, stats@, i + 1);
                }
                return None;
            },
        };
        proof {
            lemma_find_stat_bounded(stats@, frame, configs@[level as int]);
            assert(i * (STAT_COUNT_MAX as int) + STAT_COUNT_MAX == (i + 1) * (
            STAT_COUNT_MAX as int)) by (nonlinear_arith);
            assert((i + 1) * (STAT_COUNT_MAX as int) <= LOG_MAX * (STAT_COUNT_MAX as int))
                by (nonlinear_arith)
                requires
                    i + 1 <= LOG_MAX,
            ;
        }
        tp = tp + st.true_positive as u64;
        fp = fp + st.false_positive as u64;
        fneg = fneg + st.false_negative as u64;
        i = i + 1;
    }
    proof {
        assert(logs@.take(n as int) =~= logs@);
    }
    Some((tp, fp, fneg))
}

} // verus!
