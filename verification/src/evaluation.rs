//! Evaluation helpers: per-frame detection statistics and the derived
//! file names of a configuration's measurement outputs.

use vstd::prelude::*;

verus! {

/// Video configuration consists of width, skip and quantization.
#[derive(Debug, PartialEq, Eq, Clone, Copy, Structural)]
pub struct VideoConfig {
    /// Frame width.
    pub width: usize,
    /// Skips per second (translates to fps).
    pub skip: usize,
    /// Quantization level used in encoding.
    pub quant: usize,
}

/// The decimal digit character of `d`.
pub open spec fn spec_digit(d: int) -> char
    recommends
        0 <= d <= 9,
{
    if d == 0 {
        '0'
    } else if d == 1 {
        '1'
    } else if d == 2 {
        '2'
    } else if d == 3 {
        '3'
    } else if d == 4 {
        '4'
    } else if d == 5 {
        '5'
    } else if d == 6 {
        '6'
    } else if d == 7 {
        '7'
    } else if d == 8 {
        '8'
    } else {
        '9'
    }
}

/// The decimal digits of a non-negative number, most significant first.
pub open spec fn spec_decimal(n: int) -> Seq<char>
    recommends
        n >= 0,
    decreases n,
{
    if n < 10 {
        seq![spec_digit(n)]
    } else {
        spec_decimal(n / 10).push(spec_digit(n % 10))
    }
}

/// The derived file name of one measurement kind for one configuration:
/// the directory, the kind's stem, and the three numbers.
pub open spec fn spec_config_file(
    dir: Seq<char>,
    stem: Seq<char>,
    w: int,
    s: int,
    q: int,
) -> Seq<char> {
    dir + seq!['/'] + stem + seq!['-'] + spec_decimal(w) + seq!['x'] + spec_decimal(s) + seq!['x']
        + spec_decimal(q) + seq!['.', 'c', 's', 'v']
}

/// Relies on std's format! with the Display impls of str and usize: the
/// pieces concatenated in order, the numbers in decimal without padding.
#[verifier::external_body]
fn fmt_config_file(dir: &str, stem: &str, w: usize, s: usize, q: usize) -> (r: String)
    ensures
        r@ == spec_config_file(dir@, stem@, w as int, s as int, q as int),
{
    format!("{}/{}-{}x{}x{}.csv", dir, stem, w, s, q)
}

impl VideoConfig {
    /// Creates a new `VideoConfig`.
    pub fn new(w: usize, s: usize, q: usize) -> (r: Self)
        ensures
            r == (VideoConfig { width: w, skip: s, quant: q }),
    {
        VideoConfig { width: w, skip: s, quant: q }
    }

    /// Gets the filename of the accuracy file.
    pub fn derive_acc_file(&self, dir: &str) -> (r: String)
        ensures
            r@ == spec_config_file(
                dir@,
                "acc"@,
                self.width as int,
                self.skip as int,
                self.quant as int,
            ),
    {
        fmt_config_file(dir, "acc", self.width, self.skip, self.quant)
    }

    /// Gets the filename of the timestamp file.
    pub fn derive_ts_file(&self, dir: &str) -> (r: String)
        ensures
            r@ == spec_config_file(
                dir@,
                "ts"@,
                self.width as int,
                self.skip as int,
                self.quant as int,
            ),
    {
        fmt_config_file(dir, "ts", self.width, self.skip, self.quant)
    }

    /// Gets the filename of the bandwidth file.
    pub fn derive_bw_file(&self, dir: &str) -> (r: String)
        ensures
            r@ == spec_config_file(
                dir@,
                "bw"@,
                self.width as int,
                self.skip as int,
                self.quant as int,
            ),
    {
        fmt_config_file(dir, "bw", self.width, self.skip, self.quant)
    }
}

/// Detection counts of one frame against the groundtruth.
#[derive(Debug, PartialEq, Eq, Clone, Copy, Structural)]
pub struct Stat {
    /// Detections that match a groundtruth object.
    pub true_positive: usize,
    /// Detections that match nothing.
    pub false_positive: usize,
    /// Groundtruth objects that nothing matched.
    pub false_negative: usize,
}

impl Stat {
    /// Creates a stat from its three counts.
    pub fn new(tp: usize, fp: usize, fneg: usize) -> (r: Self)
        ensures
            r == (Stat { true_positive: tp, false_positive: fp, false_negative: fneg }),
    {
        Stat { true_positive: tp, false_positive: fp, false_negative: fneg }
    }
}

/// The stat of one frame with `det_count` detections against `gt_count`
/// groundtruth objects, of which `matched` detections matched: the true
/// positives are capped at the groundtruth count, and the rest of each
/// side counts against it.
pub fn stat_from_counts(det_count: usize, gt_count: usize, matched: usize) -> (r: Stat)
    requires
        matched <= det_count,
    ensures
        r.true_positive == if matched <= gt_count {
            matched as int
        } else {
            gt_count as int
        },
        r.false_positive == det_count - r.true_positive,
        r.false_negative == gt_count - r.true_positive,
{
    let tp = if matched <= gt_count {
        matched
    } else {
        gt_count
    };
    Stat::new(tp, det_count - tp, gt_count - tp)
}

/// A frame's stat, tagged with its number and configuration.
#[derive(Debug, PartialEq, Eq, Clone, Copy, Structural)]
pub struct FrameStat {
    /// The frame number.
    pub frame_num: usize,
    /// The configuration the frame was measured under.
    pub config: VideoConfig,
    /// The detection counts.
    pub stat: Stat,
}

impl FrameStat {
    /// Creates a frame stat.
    pub fn new(i: usize, config: VideoConfig, stat: Stat) -> (r: Self)
        ensures
            r == (FrameStat { frame_num: i, config, stat }),
    {
        FrameStat { frame_num: i, config, stat }
    }

    /// Convert a frame stat to a tuple.
    pub fn to_tuple(&self) -> (r: (usize, usize, usize, usize, usize, usize, usize))
        ensures
            r == (
                self.frame_num,
                self.config.width,
                self.config.skip,
                self.config.quant,
                self.stat.true_positive,
                self.stat.false_positive,
                self.stat.false_negative,
            ),
    {
        (
            self.frame_num,
            self.config.width,
            self.config.skip,
            self.config.quant,
            self.stat.true_positive,
            self.stat.false_positive,
            self.stat.false_negative,
        )
    }
}

/// How much of an accuracy log to load.
#[derive(Debug, Clone, Copy)]
pub enum LoadAccOption {
    /// All frames the log holds.
    All,
    /// Frames up to the given number.
    Until(usize),
}

/// Generate per-frame stats with a configuration: the i-th stat becomes
/// the frame stat of frame i under `vc`.
pub fn get_frame_stats(stats: &Vec<Stat>, vc: VideoConfig) -> (r: Vec<FrameStat>)
    ensures
        r@.len() == stats@.len(),
        forall|i: int|
            0 <= i < stats@.len() ==> r@[i] == (FrameStat {
                frame_num: i as usize,
                config: vc,
                stat: stats@[i],
            }),
{
    let n = stats.len();
    let mut r: Vec<FrameStat> = Vec::new();
    let mut i: usize = 0;
    while i < n
        invariant
            i <= n,
            n == stats@.len(),
            r@.len() == i,
            forall|j: int|
                0 <= j < i ==> r@[j] == (FrameStat {
                    frame_num: j as usize,
                    config: vc,
                    stat: stats@[j],
                }),
        decreases n - i,
    {
        r.push(FrameStat::new(i, vc, stats[i]));
        i = i + 1;
    }
    r
}

} // verus!
