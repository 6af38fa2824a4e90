//! Audio facts that need no samples: how long a recording must be to be worth transcribing.

use vstd::prelude::*;

verus! {

/// Whisper's fixed input rate.
pub const WHISPER_SAMPLE_RATE: u32 = 16_000;

/// Whisper refuses very short clips; below a quarter of a second a recording is a mis-press,
/// not speech.
pub open spec fn long_enough(sample_count: nat, sample_rate: nat) -> bool {
    sample_rate > 0 && 4 * sample_count >= sample_rate
}

/// At least a quarter of a second of audio at `sample_rate`. A rate of zero has no duration.
pub fn is_long_enough(sample_count: usize, sample_rate: u32) -> (r: bool)
    ensures
        r == long_enough(sample_count as nat, sample_rate as nat),
{
    if sample_rate == 0 {
        return false;
    }
    let count = sample_count as u128;
    count * 4 >= sample_rate as u128
}

} // verus!
