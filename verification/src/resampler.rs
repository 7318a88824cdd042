//! The tap plan of the windowed-sinc resampler: which source samples a
//! fractional read touches.

use vstd::prelude::*;

verus! {

/// Fewest taps a resampler works with.
pub const MIN_TAPS: usize = 4;

/// The source index that a tap reads: `position` held inside a buffer of
/// `len` samples.
pub open spec fn clamp_index(position: int, len: int) -> int {
    if position < 0 {
        0
    } else if position >= len {
        len - 1
    } else {
        position
    }
}

/// Taps keep their order: a later position never reads an earlier sample.
pub proof fn lemma_clamp_monotone(first: int, second: int, len: int)
    requires
        len > 0,
        first <= second,
    ensures
        clamp_index(first, len) <= clamp_index(second, len),
{
}

/// Away from the edges a tap reads its own position, and everywhere it
/// reads inside the buffer.
pub proof fn lemma_clamp_inside(position: int, len: int)
    requires
        len > 0,
    ensures
        0 <= clamp_index(position, len) < len,
        0 <= position < len ==> clamp_index(position, len) == position,
{
}

/// The tap count that a request for `taps` taps gives: at least four.
pub open spec fn effective_taps(taps: nat) -> nat {
    if taps < 4 {
        4
    } else {
        taps
    }
}

/// The tap count used for a frame: the configured one, or the coarse four
/// where the correction of vertical stripes is switched off.
pub open spec fn precision_taps(fix_vertical_stripes: bool, resample_taps: u8) -> nat {
    if fix_vertical_stripes {
        effective_taps(resample_taps as nat)
    } else {
        4
    }
}

/// A resampler that reads `taps / 2` samples to each side of a position.
#[derive(Debug, Clone, Copy)]
pub struct SincResampler {
    taps: usize,
}

impl View for SincResampler {
    type V = nat;

    /// The number of taps.
    closed spec fn view(&self) -> nat {
        self.taps as nat
    }
}

impl SincResampler {
    #[verifier::type_invariant]
    spec fn at_least_four(&self) -> bool {
        self.taps >= 4
    }

    /// Offset of the outermost tap: half the tap count, rounded down.
    pub open spec fn reach(&self) -> nat {
        self@ / 2
    }

    /// A resampler with `taps` taps; fewer than four are raised to four.
    pub fn new(taps: usize) -> (resampler: Self)
        ensures
            resampler@ == effective_taps(taps as nat),
    {
        if taps < MIN_TAPS {
            SincResampler { taps: MIN_TAPS }
        } else {
            SincResampler { taps }
        }
    }

    /// The resampler for a frame: `resample_taps` taps where vertical
    /// stripes are corrected, else four.
    pub fn for_precision(fix_vertical_stripes: bool, resample_taps: u8) -> (resampler: Self)
        ensures
            resampler@ == precision_taps(fix_vertical_stripes, resample_taps),
    {
        if fix_vertical_stripes {
            Self::new(resample_taps as usize)
        } else {
            Self::new(MIN_TAPS)
        }
    }

    /// The number of taps, which is the period of the window.
    pub fn taps(&self) -> (taps: usize)
        ensures
            taps == self@,
            taps >= 4,
    {
        proof {
            use_type_invariant(self);
        }
        self.taps
    }

    /// Offset of the outermost tap.
    pub fn half(&self) -> (half: usize)
        ensures
            half == self.reach(),
            half >= 2,
    {
        proof {
            use_type_invariant(self);
        }
        self.taps / 2
    }

    /// Number of source reads per position: one for each offset from
    /// `-half` to `half`.
    pub fn tap_count(&self) -> (count: usize)
        ensures
            count == 2 * self.reach() + 1,
    {
        let half: usize = self.taps / 2;
        half * 2 + 1
    }

    /// The source index read by tap number `tap` (from 0, window phase
    /// `tap / taps`) around `center`: the position `center + tap - half`
    /// held inside the buffer.
    pub fn tap_index(&self, center: i32, tap: usize, len: usize) -> (index: usize)
        requires
            len > 0,
            tap <= 2 * self.reach(),
        ensures
            index == clamp_index(center + tap - self.reach(), len as int),
            index < len,
    {
        let half: usize = self.taps / 2;
        if tap >= half {
            shifted_up(center, tap - half, len)
        } else {
            shifted_down(center, half - tap, len)
        }
    }
}

/// The index `center + ahead`, held inside a buffer of `len` samples.
fn shifted_up(center: i32, ahead: usize, len: usize) -> (index: usize)
    requires
        len > 0,
    ensures
        index == clamp_index(center + ahead, len as int),
{
    if center < 0 {
        let deficit: u32 = (-(center as i64)) as u32;
        if ahead as u64 <= deficit as u64 {
            0
        } else {
            let position: usize = ahead - deficit as usize;
            if position >= len {
                len - 1
            } else {
                position
            }
        }
    } else {
        let start: u32 = center as u32;
        if ahead >= len || start as u64 >= len as u64 {
            len - 1
        } else if start as usize >= len - ahead {
            len - 1
        } else {
            start as usize + ahead
        }
    }
}

/// The index `center - behind`, held inside a buffer of `len` samples.
fn shifted_down(center: i32, behind: usize, len: usize) -> (index: usize)
    requires
        len > 0,
    ensures
        index == clamp_index(center - behind, len as int),
{
    if center <= 0 {
        0
    } else {
        let start: u32 = center as u32;
        if start as u64 <= behind as u64 {
            0
        } else {
            let position: usize = start as usize - behind;
            if position >= len {
                len - 1
            } else {
                position
            }
        }
    }
}

/// The source index nearest to `center`, read where the tap weights cancel.
pub fn nearest_index(center: i32, len: usize) -> (index: usize)
    requires
        len > 0,
    ensures
        index == clamp_index(center as int, len as int),
        index < len,
{
    shifted_up(center, 0, len)
}

} // verus!
