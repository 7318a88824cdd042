//! The random draws behind the channel and tape artifacts.
//!
//! Each oversampled sample of a line consumes the generator in a fixed
//! order: horizontal timebase jitter, phase noise of the PLL, head-switching
//! noise, dropout. Which draws happen depends on the switches, on the line
//! and on the dropout counter alone, so the noise of a whole frame follows
//! from the seed and the switches.

use vstd::prelude::*;
use crate::dsp::{lcg_next, signed_numerator, state_after, unit_numerator, SimpleRng};

verus! {

/// The settings that decide which draws happen.
#[derive(Debug, Clone, Copy, PartialEq, Eq, Structural)]
pub struct ArtifactSwitches {
    /// Whether each sample draws horizontal timebase jitter.
    pub horizontal_tbc_enabled: bool,
    /// Whether the head-switching band is drawn.
    pub head_switch_enabled: bool,
    /// First line of the head-switching band.
    pub head_switch_start: usize,
    /// Whether dropouts occur.
    pub dropout_enabled: bool,
    /// A dropout starts where a unit sample's numerator is below this.
    pub dropout_threshold: u32,
    /// Length of a dropout in samples.
    pub dropout_run: usize,
}

/// The noise drawn for one sample, each as the numerator of a signed sample.
#[derive(Debug, Clone, Copy, PartialEq, Eq, Structural)]
pub struct SampleNoise {
    /// Horizontal timebase jitter, where enabled.
    pub timebase: Option<i32>,
    /// Phase noise of the PLL.
    pub pll: i32,
    /// Head-switching noise, inside the band.
    pub head_switch: Option<i32>,
    /// Dropout noise, during a dropout.
    pub dropout: Option<i32>,
}

/// State and result of a conditional draw: one step and its signed sample
/// where `drawn`, else nothing.
pub open spec fn optional_draw(state: u32, drawn: bool) -> (u32, Option<i32>) {
    if drawn {
        (lcg_next(state), Some(signed_numerator(lcg_next(state))))
    } else {
        (state, None)
    }
}

/// Whether line `y` of a frame of `height` lines lies in the head-switching
/// band.
pub open spec fn in_head_switch_band(switches: ArtifactSwitches, y: nat, height: nat) -> bool {
    switches.head_switch_enabled && height != 0 && y >= switches.head_switch_start
}

/// One sample of the dropout machine, from generator state and counter to
/// the next state, the next counter and the noise.
///
/// Idle (counter zero), it draws a unit sample and starts a run of `run`
/// samples where the sample is below `threshold`. In a run, it draws the
/// noise and counts down.
pub open spec fn dropout_step(state: u32, remaining: nat, threshold: u32, run: nat) -> (
    u32,
    nat,
    Option<i32>,
) {
    let probed = if remaining == 0 {
        lcg_next(state)
    } else {
        state
    };
    let counter = if remaining == 0 && unit_numerator(probed) < threshold {
        run
    } else {
        remaining
    };
    if counter > 0 {
        (lcg_next(probed), (counter - 1) as nat, Some(signed_numerator(lcg_next(probed))))
    } else {
        (probed, 0, None)
    }
}

/// All draws of one sample of line `y`: the state and the dropout counter
/// after it, and its noise.
pub open spec fn sample_draws(
    state: u32,
    remaining: nat,
    switches: ArtifactSwitches,
    y: nat,
    height: nat,
) -> (u32, nat, SampleNoise) {
    let (after_timebase, timebase) = optional_draw(state, switches.horizontal_tbc_enabled);
    let after_pll = lcg_next(after_timebase);
    let (after_head, head_switch) = optional_draw(
        after_pll,
        in_head_switch_band(switches, y, height),
    );
    let (after_dropout, counter, dropout) = if switches.dropout_enabled {
        dropout_step(after_head, remaining, switches.dropout_threshold, switches.dropout_run as nat)
    } else {
        (after_head, remaining, None)
    };
    (
        after_dropout,
        counter,
        SampleNoise { timebase, pll: signed_numerator(after_pll), head_switch, dropout },
    )
}

/// All draws of the first `samples` samples of line `y`.
pub open spec fn line_draws(
    state: u32,
    remaining: nat,
    switches: ArtifactSwitches,
    y: nat,
    height: nat,
    samples: nat,
) -> (u32, nat, Seq<SampleNoise>)
    decreases samples,
{
    if samples == 0 {
        (state, remaining, Seq::empty())
    } else {
        let (before, counter, track) = line_draws(
            state,
            remaining,
            switches,
            y,
            height,
            (samples - 1) as nat,
        );
        let (after, left, noise) = sample_draws(before, counter, switches, y, height);
        (after, left, track.push(noise))
    }
}

/// Draws the horizontal timebase jitter of one sample, where enabled.
pub fn draw_timebase(rng: &mut SimpleRng, switches: &ArtifactSwitches) -> (noise: Option<i32>)
    ensures
        (final(rng)@, noise) == optional_draw(old(rng)@, switches.horizontal_tbc_enabled),
{
    if switches.horizontal_tbc_enabled {
        Some(rng.next_signed())
    } else {
        None
    }
}

/// Draws the head-switching noise of one sample of line `y`, inside the
/// band.
pub fn draw_head_switch(
    rng: &mut SimpleRng,
    switches: &ArtifactSwitches,
    y: usize,
    height: usize,
) -> (noise: Option<i32>)
    ensures
        (final(rng)@, noise) == optional_draw(
            old(rng)@,
            in_head_switch_band(*switches, y as nat, height as nat),
        ),
{
    if !switches.head_switch_enabled || height == 0 {
        return None;
    }
    if y >= switches.head_switch_start {
        Some(rng.next_signed())
    } else {
        None
    }
}

/// Runs the dropout machine for one sample: may start a run, and inside a
/// run draws the noise and counts down.
pub fn draw_dropout(
    rng: &mut SimpleRng,
    remaining: &mut usize,
    threshold: u32,
    run: usize,
) -> (noise: Option<i32>)
    ensures
        (final(rng)@, *final(remaining) as nat, noise) == dropout_step(
            old(rng)@,
            *old(remaining) as nat,
            threshold,
            run as nat,
        ),
{
    if *remaining == 0 {
        let probe: u32 = rng.next_f32();
        if probe < threshold {
            *remaining = run;
        }
    }
    if *remaining > 0 {
        let noise: i32 = rng.next_signed();
        *remaining = *remaining - 1;
        Some(noise)
    } else {
        None
    }
}

/// Draws all the noise of one sample of line `y`.
pub fn draw_sample(
    rng: &mut SimpleRng,
    remaining: &mut usize,
    switches: &ArtifactSwitches,
    y: usize,
    height: usize,
) -> (noise: SampleNoise)
    ensures
        (final(rng)@, *final(remaining) as nat, noise) == sample_draws(
            old(rng)@,
            *old(remaining) as nat,
            *switches,
            y as nat,
            height as nat,
        ),
{
    let timebase: Option<i32> = draw_timebase(rng, switches);
    let pll: i32 = rng.next_signed();
    let head_switch: Option<i32> = draw_head_switch(rng, switches, y, height);
    let dropout: Option<i32> = if switches.dropout_enabled {
        draw_dropout(rng, remaining, switches.dropout_threshold, switches.dropout_run)
    } else {
        None
    };
    SampleNoise { timebase, pll, head_switch, dropout }
}

/// Draws the noise of the `samples` samples of line `y`, in order.
pub fn draw_line(
    rng: &mut SimpleRng,
    remaining: &mut usize,
    switches: &ArtifactSwitches,
    y: usize,
    height: usize,
    samples: usize,
) -> (track: Vec<SampleNoise>)
    ensures
        (final(rng)@, *final(remaining) as nat, track@) == line_draws(
            old(rng)@,
            *old(remaining) as nat,
            *switches,
            y as nat,
            height as nat,
            samples as nat,
        ),
        track@.len() == samples,
{
    let mut track: Vec<SampleNoise> = Vec::with_capacity(samples);
    let mut done: usize = 0;
    while done < samples
        invariant
            done <= samples,
            track@.len() == done,
            (rng@, *remaining as nat, track@) == line_draws(
                old(rng)@,
                *old(remaining) as nat,
                *switches,
                y as nat,
                height as nat,
                done as nat,
            ),
        decreases samples - done,
    {
        let noise: SampleNoise = draw_sample(rng, remaining, switches, y, height);
        track.push(noise);
        done = done + 1;
    }
    track
}

/// The noise of a line has one entry for each sample.
pub proof fn lemma_track_length(
    state: u32,
    remaining: nat,
    switches: ArtifactSwitches,
    y: nat,
    height: nat,
    samples: nat,
)
    ensures
        line_draws(state, remaining, switches, y, height, samples).2.len() == samples,
    decreases samples,
{
    if samples > 0 {
        lemma_track_length(state, remaining, switches, y, height, (samples - 1) as nat);
    }
}

/// The noise of a line is a function of the generator state, the dropout
/// counter, the switches and the line: two runs that start alike end alike.
pub proof fn lemma_line_draws_reproducible(
    first: SimpleRng,
    second: SimpleRng,
    remaining: nat,
    switches: ArtifactSwitches,
    y: nat,
    height: nat,
    samples: nat,
)
    requires
        first@ == second@,
    ensures
        line_draws(first@, remaining, switches, y, height, samples) == line_draws(
            second@,
            remaining,
            switches,
            y,
            height,
            samples,
        ),
{
}

/// The dropout machine has two states and three transitions. In a run it
/// draws noise and counts down by one. Idle, it either stays idle without
/// noise, or starts a run, draws the run's first noise and is left with the
/// rest of the run; it starts exactly where the probing sample is below the
/// threshold.
pub proof fn lemma_dropout_transitions(state: u32, remaining: nat, threshold: u32, run: nat)
    ensures
        remaining > 0 ==> dropout_step(state, remaining, threshold, run) == (
            lcg_next(state),
            (remaining - 1) as nat,
            Some(signed_numerator(lcg_next(state))),
        ),
        remaining == 0 && (unit_numerator(lcg_next(state)) >= threshold || run == 0)
            ==> dropout_step(state, remaining, threshold, run) == (
            lcg_next(state),
            0nat,
            None::<i32>,
        ),
        remaining == 0 && unit_numerator(lcg_next(state)) < threshold && run > 0 ==> dropout_step(
            state,
            remaining,
            threshold,
            run,
        ) == (
            lcg_next(lcg_next(state)),
            (run - 1) as nat,
            Some(signed_numerator(lcg_next(lcg_next(state)))),
        ),
{
}

/// A dropout lasts its whole run, across samples and lines alike: while the
/// counter covers the samples of a line, every one of them gets dropout
/// noise and the counter falls by one per sample.
pub proof fn lemma_run_covers_line(
    state: u32,
    remaining: nat,
    switches: ArtifactSwitches,
    y: nat,
    height: nat,
    samples: nat,
)
    requires
        switches.dropout_enabled,
        remaining >= samples,
    ensures
        line_draws(state, remaining, switches, y, height, samples).1 == remaining - samples,
        line_draws(state, remaining, switches, y, height, samples).2.len() == samples,
        forall|s: int|
            0 <= s < samples ==> (#[trigger] line_draws(
                state,
                remaining,
                switches,
                y,
                height,
                samples,
            ).2[s]).dropout.is_some(),
    decreases samples,
{
    if samples > 0 {
        lemma_run_covers_line(state, remaining, switches, y, height, (samples - 1) as nat);
    }
}

/// With a threshold of zero no dropout ever starts: an idle machine stays
/// idle and adds no noise.
pub proof fn lemma_no_dropout_at_zero_rate(state: u32, run: nat)
    ensures
        dropout_step(state, 0, 0, run) == (lcg_next(state), 0nat, None::<i32>),
{
}

/// With every switch off a sample draws the phase noise of the PLL and
/// nothing else, and leaves the dropout counter alone.
pub proof fn lemma_quiet_sample(
    state: u32,
    remaining: nat,
    switches: ArtifactSwitches,
    y: nat,
    height: nat,
)
    requires
        !switches.horizontal_tbc_enabled,
        !switches.head_switch_enabled,
        !switches.dropout_enabled,
    ensures
        sample_draws(state, remaining, switches, y, height) == (
            lcg_next(state),
            remaining,
            (SampleNoise {
                timebase: None,
                pll: signed_numerator(lcg_next(state)),
                head_switch: None,
                dropout: None,
            }),
        ),
{
}

/// With every switch off a line of `samples` samples steps the generator
/// once per sample: it leaves the state that `samples` draws reach, and the
/// phase noise of sample `s` is read off the state after `s + 1` draws.
pub proof fn lemma_quiet_line(
    state: u32,
    remaining: nat,
    switches: ArtifactSwitches,
    y: nat,
    height: nat,
    samples: nat,
)
    requires
        !switches.horizontal_tbc_enabled,
        !switches.head_switch_enabled,
        !switches.dropout_enabled,
    ensures
        line_draws(state, remaining, switches, y, height, samples).0 == state_after(state, samples),
        line_draws(state, remaining, switches, y, height, samples).1 == remaining,
        line_draws(state, remaining, switches, y, height, samples).2.len() == samples,
        forall|s: int|
            0 <= s < samples ==> (#[trigger] line_draws(
                state,
                remaining,
                switches,
                y,
                height,
                samples,
            ).2[s]) == (SampleNoise {
                timebase: None,
                pll: signed_numerator(state_after(state, (s + 1) as nat)),
                head_switch: None,
                dropout: None,
            }),
    decreases samples,
{
    if samples > 0 {
        lemma_quiet_line(state, remaining, switches, y, height, (samples - 1) as nat);
    }
}

/// The head-switching band reaches the bottom of the frame: a line below a
/// line of the band lies in the band.
pub proof fn lemma_band_reaches_bottom(switches: ArtifactSwitches, y: nat, below: nat, height: nat)
    requires
        in_head_switch_band(switches, y, height),
        y <= below,
    ensures
        in_head_switch_band(switches, below, height),
{
}

} // verus!
