//! Timing of animated images: which frame is due after a given time.

use vstd::prelude::*;

verus! {

/// Delay of a frame whose file gives none, in milliseconds.
pub const DEFAULT_FRAME_DELAY_MS: u32 = 100;

/// The delay of a frame in milliseconds, from the hundredths of a second
/// that its file gives; a frame without delay gets the default.
pub open spec fn frame_delay_spec(hundredths: u16) -> int {
    if hundredths == 0 {
        DEFAULT_FRAME_DELAY_MS as int
    } else {
        hundredths * 10
    }
}

/// The sum of the delays from `from` on.
pub open spec fn delays_from(delays: Seq<u32>, from: int) -> int
    decreases delays.len() - from,
{
    if from < 0 || from >= delays.len() {
        0
    } else {
        delays[from] + delays_from(delays, from + 1)
    }
}

/// Length of one run through all frames, at least one millisecond.
pub open spec fn cycle_length(delays: Seq<u32>) -> int {
    if delays_from(delays, 0) < 1 {
        1
    } else {
        delays_from(delays, 0)
    }
}

/// The first frame from `from` on whose share of the cycle holds `moment`,
/// where `before` is the time taken by the frames before `from`; the number
/// of frames if there is none.
pub open spec fn frame_holding(delays: Seq<u32>, moment: int, from: int, before: int) -> int
    decreases delays.len() - from,
{
    if from < 0 || from >= delays.len() {
        delays.len() as int
    } else if moment < before + delays[from] {
        from
    } else {
        frame_holding(delays, moment, from + 1, before + delays[from])
    }
}

/// The frame that is due `elapsed` milliseconds after the animation began:
/// the animation repeats, and with no frame that holds the moment the first
/// frame is shown.
pub open spec fn frame_due(delays: Seq<u32>, elapsed: int) -> int {
    let moment = elapsed % cycle_length(delays);
    if frame_holding(delays, moment, 0, 0) < delays.len() {
        frame_holding(delays, moment, 0, 0)
    } else {
        0
    }
}

/// The delay of a frame in milliseconds.
pub fn frame_delay(hundredths: u16) -> (millis: u32)
    ensures
        millis == frame_delay_spec(hundredths),
{
    if hundredths == 0 {
        DEFAULT_FRAME_DELAY_MS
    } else {
        hundredths as u32 * 10
    }
}

/// Length of one run through all frames, at least one millisecond.
pub fn total_duration(delays: &Vec<u32>) -> (total: u128)
    ensures
        total == cycle_length(delays@),
{
    let mut sum: u128 = 0;
    let mut i: usize = delays.len();
    while i > 0
        invariant
            i <= delays.len(),
            sum == delays_from(delays@, i as int),
            sum <= (delays@.len() - i) * 0xffff_ffff,
        decreases i,
    {
        i -= 1;
        assert((delays@.len() - i) * 0xffff_ffff <= 0xffff_ffff_ffff_ffff * 0xffff_ffff)
            by (nonlinear_arith)
            requires
                0 <= delays@.len() - i <= 0xffff_ffff_ffff_ffff,
        ;
        sum = sum + delays[i] as u128;
    }
    if sum < 1 {
        1
    } else {
        sum
    }
}

/// The frame that is due `elapsed_ms` after the animation began.
pub fn frame_at(delays: &Vec<u32>, elapsed_ms: u64) -> (frame: usize)
    ensures
        frame == frame_due(delays@, elapsed_ms as int),
        delays@.len() > 0 ==> frame < delays@.len(),
{
    let total = total_duration(delays);
    let moment: u128 = elapsed_ms as u128 % total;
    let mut before: u128 = 0;
    let mut i: usize = 0;
    while i < delays.len()
        invariant
            i <= delays.len(),
            before <= i * 0xffff_ffff,
            moment == (elapsed_ms as int) % cycle_length(delays@),
            frame_holding(delays@, moment as int, 0, 0) == frame_holding(
                delays@,
                moment as int,
                i as int,
                before as int,
            ),
        decreases delays.len() - i,
    {
        assert(i * 0xffff_ffff + 0xffff_ffff <= 0xffff_ffff_ffff_ffff * 0xffff_ffff)
            by (nonlinear_arith)
            requires
                0 <= i < 0xffff_ffff_ffff_ffff,
        ;
        if moment < before + delays[i] as u128 {
            return i;
        }
        before = before + delays[i] as u128;
        i += 1;
    }
    0
}

} // verus!
