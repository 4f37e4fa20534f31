//! The mixing stage: each input sample is written into its channel's delay
//! line, every tap reads a delayed sample back, a gate decides whether the
//! tap contributes, and the wet sum is crossfaded with the dry input.
//!
//! Samples and gains are fixed point: a value `x` stands for `x / UNITY`.
use vstd::prelude::*;

use crate::circular_buffer::{after_write, after_writes, CircleBuffer};

verus! {

/// Unity gain: the fixed-point value that stands for `1.0`.
pub const UNITY: i64 = 65536;

/// Share of the wet signal in the output, in the fixed-point format (one half).
pub const CROSSFADE: i64 = 32768;

/// Most taps a single mixing call takes; keeps the wet sum within range.
pub const MAX_TAPS: usize = 4294967295;

/// One delay tap, as a snapshot of its parameters.
#[derive(Clone, Copy, Debug, PartialEq, Eq)]
pub struct DelayTap {
    /// Delay time in seconds, fixed point.
    pub delay: u32,
    /// Delayed samples must lie strictly above this level to be let through.
    pub threshold: i32,
    /// Delayed samples must lie strictly below this level to be let through.
    pub ceiling: i32,
    /// Gain applied to a delayed sample that is let through.
    pub factor: i32,
}

/// The age of the sample a tap with delay `delay` reads from a line of
/// `capacity` samples: `delay / max_delay_seconds` of the line's span,
/// rounded half up, and never past its oldest sample.
pub open spec fn tap_offset(delay: int, max_delay_seconds: int, capacity: int) -> int {
    let span = max_delay_seconds * UNITY;
    let r = (2 * delay * (capacity - 1) + span) / (2 * span);
    if r > capacity - 1 {
        capacity - 1
    } else {
        r
    }
}

/// The gain a tap gives a delayed sample: the tap's factor inside the
/// open band between threshold and ceiling, nothing outside it.
pub open spec fn gate(delayed: int, tap: DelayTap) -> int {
    if tap.threshold < delayed && delayed < tap.ceiling {
        tap.factor as int
    } else {
        0
    }
}

/// What tap `tap` contributes to the wet sum, at scale `UNITY * UNITY`, when
/// the line holds `line` newest first.
pub open spec fn tap_term(line: Seq<i32>, tap: DelayTap, max_delay_seconds: int) -> int {
    let delayed = line[tap_offset(tap.delay as int, max_delay_seconds, line.len() as int)];
    delayed * gate(delayed as int, tap)
}

/// The wet sum of all taps, at scale `UNITY * UNITY`.
pub open spec fn wet_sum(line: Seq<i32>, taps: Seq<DelayTap>, max_delay_seconds: int) -> int
    decreases taps.len(),
{
    if taps.len() == 0 {
        0
    } else {
        wet_sum(line, taps.drop_last(), max_delay_seconds) + tap_term(
            line,
            taps.last(),
            max_delay_seconds,
        )
    }
}

/// `x` limited to the range of a sample.
pub open spec fn saturate(x: int) -> int {
    if x < i32::MIN {
        i32::MIN as int
    } else if x > i32::MAX {
        i32::MAX as int
    } else {
        x
    }
}

/// The output sample for dry input `input` and wet sum `wet`: the crossfade
/// of the two, rounded down to the sample grid and saturated.
pub open spec fn blend(input: int, wet: int) -> int {
    saturate(
        (input * (UNITY - CROSSFADE) * UNITY + wet * CROSSFADE) / (UNITY * UNITY),
    )
}

/// The output for `input` when the line, after writing it, holds `line`.
pub open spec fn sample_output(
    line: Seq<i32>,
    input: i32,
    taps: Seq<DelayTap>,
    max_delay_seconds: int,
) -> int {
    blend(input as int, wet_sum(line, taps, max_delay_seconds))
}

/// The read offset of a tap with delay `delay`, for a line of `capacity`
/// samples spanning `max_delay_seconds`.
pub fn read_offset(delay: u32, max_delay_seconds: usize, capacity: usize) -> (r: usize)
    requires
        capacity > 0,
        max_delay_seconds > 0,
    ensures
        r == tap_offset(delay as int, max_delay_seconds as int, capacity as int),
        r < capacity,
{
    let span: u128 = (max_delay_seconds as u128) * (UNITY as u128);
    let last: u128 = (capacity - 1) as u128;
    assert((delay as u128) * last <= 0xffff_ffff * 0xffff_ffff_ffff_ffffu128) by (nonlinear_arith)
        requires
            delay <= 0xffff_ffff,
            last <= 0xffff_ffff_ffff_ffff,
    ;
    assert(span <= 0xffff_ffff_ffff_ffff * 65536) by (nonlinear_arith)
        requires
            max_delay_seconds <= 0xffff_ffff_ffff_ffffu128,
            span == max_delay_seconds * 65536,
    ;
    let numerator: u128 = 2 * ((delay as u128) * last) + span;
    assert(numerator == 2 * delay * (capacity - 1) + max_delay_seconds * UNITY) by (nonlinear_arith)
        requires
            numerator == 2 * (delay * last) + span,
            last == capacity - 1,
            span == max_delay_seconds * 65536,
    ;
    let q: u128 = numerator / (2 * span);
    if q > last {
        capacity - 1
    } else {
        q as usize
    }
}

/// The gain `tap` gives the delayed sample `delayed`.
pub fn gate_gain(delayed: i32, tap: &DelayTap) -> (r: i32)
    ensures
        r == gate(delayed as int, *tap),
{
    if tap.threshold < delayed && delayed < tap.ceiling {
        tap.factor
    } else {
        0
    }
}

/// What `tap` contributes for the delayed sample `delayed`, at scale
/// `UNITY * UNITY`.
pub fn tap_contribution(delayed: i32, tap: &DelayTap) -> (r: i64)
    ensures
        r == delayed * gate(delayed as int, *tap),
{
    let g = gate_gain(delayed, tap);
    assert(-0x4000_0000_0000_0000 <= delayed * g <= 0x4000_0000_0000_0000) by (nonlinear_arith)
        requires
            -0x8000_0000 <= delayed <= 0x7fff_ffff,
            -0x8000_0000 <= g <= 0x7fff_ffff,
    ;
    (delayed as i64) * (g as i64)
}

/// The crossfade of dry input `input` with the wet sum `wet` (at scale
/// `UNITY * UNITY`), as an output sample.
pub fn crossfade(input: i32, wet: i128) -> (r: i32)
    requires
        -0x1_0000_0000_0000_0000_0000_0000 <= wet <= 0x1_0000_0000_0000_0000_0000_0000,
    ensures
        r == blend(input as int, wet as int),
{
    let dry_gain: i128 = ((UNITY - CROSSFADE) * UNITY) as i128;
    assert(-0x1_0000_0000_0000_0000 <= input * dry_gain <= 0x1_0000_0000_0000_0000) by (nonlinear_arith)
        requires
            -0x8000_0000 <= input <= 0x7fff_ffff,
            dry_gain == 0x8000_0000,
    ;
    let dry: i128 = (input as i128) * dry_gain;
    let x: i128 = dry + wet * (CROSSFADE as i128);
    assert(x == input * (UNITY - CROSSFADE) * UNITY + wet * CROSSFADE) by (nonlinear_arith)
        requires
            x == input * dry_gain + wet * CROSSFADE,
            dry_gain == (UNITY - CROSSFADE) * UNITY,
    ;
    let y: i128 = x >> 32u32;
    assert(y == x / 0x1_0000_0000) by (bit_vector)
        requires
            y == x >> 32u32,
    ;
    if y < i32::MIN as i128 {
        i32::MIN
    } else if y > i32::MAX as i128 {
        i32::MAX
    } else {
        y as i32
    }
}

/// Processes one input sample: writes it into `line`, sums the gated taps
/// read back from the line, and returns the crossfade with the input.
pub fn process_sample(
    line: &mut CircleBuffer,
    input: i32,
    taps: &Vec<DelayTap>,
    max_delay_seconds: usize,
) -> (r: i32)
    requires
        old(line).wf(),
        old(line).capacity() > 0,
        max_delay_seconds > 0,
        taps.len() <= MAX_TAPS,
    ensures
        final(line).wf(),
        final(line).capacity() == old(line).capacity(),
        final(line).rate() == old(line).rate(),
        final(line)@ == after_write(old(line)@, input),
        r == sample_output(final(line)@, input, taps@, max_delay_seconds as int),
{
    line.write(input);
    let ghost written = *line;
    let n = line.samples();
    let mut wet: i128 = 0;
    let mut j: usize = 0;
    while j < taps.len()
        invariant
            *line == written,
            written.wf(),
            n == written@.len(),
            n == written.capacity(),
            n > 0,
            max_delay_seconds > 0,
            taps.len() <= MAX_TAPS,
            j <= taps.len(),
            wet == wet_sum(written@, taps@.take(j as int), max_delay_seconds as int),
            -(j as int) * 0x8000_0000_0000_0000 <= wet <= (j as int) * 0x8000_0000_0000_0000,
        decreases taps.len() - j,
    {
        let tap = &taps[j];
        let offset = read_offset(tap.delay, max_delay_seconds, n);
        let delayed = line.read(offset);
        let term = tap_contribution(delayed, tap);
        assert(taps@.take(j + 1).drop_last() =~= taps@.take(j as int));
        wet = wet + term as i128;
        j = j + 1;
    }
    assert(taps@.take(j as int) =~= taps@);
    crossfade(input, wet)
}

/// Processes a block of samples in place, one after another, through `line`.
pub fn process_block(
    line: &mut CircleBuffer,
    samples: &mut Vec<i32>,
    taps: &Vec<DelayTap>,
    max_delay_seconds: usize,
)
    requires
        old(line).wf(),
        old(line).capacity() > 0,
        max_delay_seconds > 0,
        taps.len() <= MAX_TAPS,
    ensures
        final(line).wf(),
        final(line).capacity() == old(line).capacity(),
        final(line).rate() == old(line).rate(),
        final(line)@ == after_writes(old(line)@, old(samples)@),
        final(samples)@.len() == old(samples)@.len(),
        forall|i: int|
            0 <= i < old(samples)@.len() ==> final(samples)@[i] == sample_output(
                after_writes(old(line)@, old(samples)@.take(i + 1)),
                old(samples)@[i],
                taps@,
                max_delay_seconds as int,
            ),
{
    let ghost line0 = *line;
    let ghost inputs = samples@;
    let mut i: usize = 0;
    while i < samples.len()
        invariant
            line.wf(),
            line.capacity() == line0.capacity(),
            line.rate() == line0.rate(),
            line0.capacity() > 0,
            max_delay_seconds > 0,
            taps.len() <= MAX_TAPS,
            samples@.len() == inputs.len(),
            i <= inputs.len(),
            line@ == after_writes(line0@, inputs.take(i as int)),
            forall|k: int| i <= k < inputs.len() ==> samples@[k] == inputs[k],
            forall|k: int|
                0 <= k < i ==> samples@[k] == sample_output(
                    after_writes(line0@, inputs.take(k + 1)),
                    inputs[k],
                    taps@,
                    max_delay_seconds as int,
                ),
        decreases inputs.len() - i,
    {
        let input = samples[i];
        assert(inputs.take(i + 1).drop_last() =~= inputs.take(i as int));
        let out = process_sample(line, input, taps, max_delay_seconds);
        samples.set(i, out);
        i = i + 1;
    }
    assert(inputs.take(i as int) =~= inputs);
}

} // verus!
