//! Small helpers around video configurations.

use vstd::prelude::*;

use crate::evaluation::VideoConfig;

verus! {

/// Converts skips per second to frames per second: thirty frames per
/// second divided by one plus the skip, rounded to the nearest tenth and
/// then truncated to a whole number.
pub fn skip_to_fps(skip: usize) -> (r: usize)
    requires
        2 * skip + 601 <= usize::MAX,
    ensures
        r == ((601 + skip) / (2 * skip + 2)) / 10,
{
    ((601 + skip) / (2 * skip + 2)) / 10
}

/// The width ladder, best first.
pub open spec fn spec_width_at(i: int) -> usize {
    if i == 0 {
        1920usize
    } else if i == 1 {
        1600usize
    } else if i == 2 {
        1280usize
    } else if i == 3 {
        960usize
    } else if i == 4 {
        640usize
    } else {
        320usize
    }
}

/// The skip ladder, least first.
pub open spec fn spec_skip_at(i: int) -> usize {
    if i == 0 {
        0usize
    } else if i == 1 {
        2usize
    } else if i == 2 {
        5usize
    } else if i == 3 {
        9usize
    } else if i == 4 {
        14usize
    } else {
        29usize
    }
}

/// The quantization ladder, least first.
pub open spec fn spec_quant_at(i: int) -> usize {
    if i == 0 {
        0usize
    } else if i == 1 {
        10usize
    } else if i == 2 {
        20usize
    } else if i == 3 {
        30usize
    } else if i == 4 {
        40usize
    } else {
        50usize
    }
}

/// The configuration at position `i` of the full product: quantization
/// varies fastest, then skip, then width.
pub open spec fn spec_config_at(i: int) -> VideoConfig {
    VideoConfig {
        width: spec_width_at(i / 36),
        skip: spec_skip_at((i / 6) % 6),
        quant: spec_quant_at(i % 6),
    }
}

fn width_at(i: usize) -> (r: usize)
    ensures
        r == spec_width_at(i as int),
{
    if i == 0 {
        1920
    } else if i == 1 {
        1600
    } else if i == 2 {
        1280
    } else if i == 3 {
        960
    } else if i == 4 {
        640
    } else {
        320
    }
}

fn skip_at(i: usize) -> (r: usize)
    ensures
        r == spec_skip_at(i as int),
{
    if i == 0 {
        0
    } else if i == 1 {
        2
    } else if i == 2 {
        5
    } else if i == 3 {
        9
    } else if i == 4 {
        14
    } else {
        29
    }
}

fn quant_at(i: usize) -> (r: usize)
    ensures
        r == spec_quant_at(i as int),
{
    if i == 0 {
        0
    } else if i == 1 {
        10
    } else if i == 2 {
        20
    } else if i == 3 {
        30
    } else if i == 4 {
        40
    } else {
        50
    }
}

/// Returns the list of all 216 configurations: the product of the six
/// widths, six skips and six quantizations, quantization varying fastest.
pub fn all_configurations() -> (r: Vec<VideoConfig>)
    ensures
        r@.len() == 216,
        forall|i: int| 0 <= i < 216 ==> r@[i] == spec_config_at(i),
{
    let mut r: Vec<VideoConfig> = Vec::new();
    let mut i: usize = 0;
    while i < 216
        invariant
            i <= 216,
            r@.len() == i,
            forall|j: int| 0 <= j < i ==> r@[j] == spec_config_at(j),
        decreases 216 - i,
    {
        let c = VideoConfig {
            width: width_at(i / 36),
            skip: skip_at((i / 6) % 6),
            quant: quant_at(i % 6),
        };
        r.push(c);
        i = i + 1;
    }
    r
}

} // verus!
