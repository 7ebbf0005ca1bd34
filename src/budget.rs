use vstd::prelude::*;

verus! {

/// Default scheduling priority asked of the broker when the caller names none.
pub const RT_PRIO_DEFAULT: u32 = 10;

/// The time slice, in microseconds, that a thread processing `buffer_frames`
/// frames at `sample_rate` frames per second needs for one buffer.
/// No buffer size means a 50 ms slice, that is a twentieth of a second of frames.
pub open spec fn budget_spec(buffer_frames: u32, sample_rate: u32) -> int
    recommends
        sample_rate > 0,
{
    let frames: int = if buffer_frames > 0 {
        buffer_frames as int
    } else {
        sample_rate as int / 20
    };
    frames * 1_000_000 / sample_rate as int
}

/// Computes the real-time CPU-time budget, in microseconds, for one audio buffer.
pub fn compute_budget_us(buffer_frames: u32, sample_rate: u32) -> (r: u64)
    requires
        sample_rate > 0,
    ensures
        r as int == budget_spec(buffer_frames, sample_rate),
        buffer_frames > 0 ==> r as int == buffer_frames as int * 1_000_000 / sample_rate as int,
        buffer_frames == 0 ==> r as int == (sample_rate as int / 20) * 1_000_000
            / sample_rate as int,
{
    let frames: u64 = if buffer_frames > 0 {
        buffer_frames as u64
    } else {
        (sample_rate / 20) as u64
    };
    assert(frames * 1_000_000 <= u32::MAX * 1_000_000) by (nonlinear_arith)
        requires
            frames <= u32::MAX,
    ;
    let scaled: u64 = frames * 1_000_000;
    scaled / (sample_rate as u64)
}

} // verus!
