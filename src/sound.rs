//! The sound visualizer: a window of microphone samples becomes a loudness
//! level from 0 to 5.
use vstd::prelude::*;

verus! {

/// Peak-to-peak amplitude under which the level is 0.
pub const QUIET_THRESHOLD: u32 = 5;

/// Peak-to-peak amplitude, above the quiet threshold, that counts as loudest.
pub const MAX_LEVEL: u32 = 150;

/// The highest level.
pub const TOP_LEVEL: usize = 5;

/// The largest sample of a non-empty window.
pub open spec fn window_max(s: Seq<i16>) -> int
    decreases s.len(),
{
    if s.len() <= 1 {
        s[0] as int
    } else if window_max(s.drop_last()) >= s.last() {
        window_max(s.drop_last())
    } else {
        s.last() as int
    }
}

/// The smallest sample of a non-empty window.
pub open spec fn window_min(s: Seq<i16>) -> int
    decreases s.len(),
{
    if s.len() <= 1 {
        s[0] as int
    } else if window_min(s.drop_last()) <= s.last() {
        window_min(s.drop_last())
    } else {
        s.last() as int
    }
}

/// Peak-to-peak amplitude of a window: its largest sample less its smallest,
/// and 0 for an empty window.
pub open spec fn amplitude(s: Seq<i16>) -> int {
    if s.len() == 0 {
        0
    } else {
        window_max(s) - window_min(s)
    }
}

/// The level for a peak-to-peak amplitude: 0 under the quiet threshold, then
/// five steps over the next `MAX_LEVEL`, capped at `TOP_LEVEL`.
pub open spec fn level_of(amp: int) -> int {
    if amp < QUIET_THRESHOLD {
        0
    } else if (amp - QUIET_THRESHOLD) * 5 / (MAX_LEVEL as int) >= TOP_LEVEL {
        TOP_LEVEL as int
    } else {
        (amp - QUIET_THRESHOLD) * 5 / (MAX_LEVEL as int)
    }
}

/// The peak-to-peak amplitude of `samples`.
pub fn peak_to_peak(samples: &Vec<i16>) -> (r: u32)
    ensures
        r == amplitude(samples@),
{
    if samples.len() == 0 {
        return 0;
    }
    let mut lo: i16 = samples[0];
    let mut hi: i16 = samples[0];
    let mut i: usize = 1;
    while i < samples.len()
        invariant
            1 <= i <= samples.len(),
            lo == window_min(samples@.subrange(0, i as int)),
            hi == window_max(samples@.subrange(0, i as int)),
        decreases samples.len() - i,
    {
        assert(samples@.subrange(0, i as int + 1).drop_last() =~= samples@.subrange(0, i as int));
        let x = samples[i];
        if x < lo {
            lo = x;
        }
        if x > hi {
            hi = x;
        }
        i = i + 1;
    }
    assert(samples@.subrange(0, i as int) =~= samples@);
    proof {
        lemma_min_le_max(samples@);
    }
    (hi as i32 - lo as i32) as u32
}

proof fn lemma_min_le_max(s: Seq<i16>)
    requires
        s.len() > 0,
    ensures
        window_min(s) <= window_max(s),
    decreases s.len(),
{
    if s.len() > 1 {
        lemma_min_le_max(s.drop_last());
    }
}

/// The level for peak-to-peak amplitude `amp`.
pub fn sound_level(amp: u32) -> (r: usize)
    ensures
        r == level_of(amp as int),
        r <= TOP_LEVEL,
{
    if amp < QUIET_THRESHOLD {
        return 0;
    }
    let scaled: u64 = (amp - QUIET_THRESHOLD) as u64 * 5 / MAX_LEVEL as u64;
    if scaled >= TOP_LEVEL as u64 {
        TOP_LEVEL
    } else {
        scaled as usize
    }
}

} // verus!
