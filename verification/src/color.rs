//! The colour matrices between RGB and YIQ, in thousandths, and what holds
//! of them in exact arithmetic.

use vstd::prelude::*;

verus! {

/// Denominator of every coefficient below.
pub const COEFFICIENT_SCALE: i32 = 1000;

/// Weight of red in luma.
pub const Y_FROM_R: i32 = 299;

/// Weight of green in luma.
pub const Y_FROM_G: i32 = 587;

/// Weight of blue in luma.
pub const Y_FROM_B: i32 = 114;

/// Weight of red in the in-phase chroma axis.
pub const I_FROM_R: i32 = 596;

/// Weight of green in the in-phase chroma axis.
pub const I_FROM_G: i32 = -274;

/// Weight of blue in the in-phase chroma axis.
pub const I_FROM_B: i32 = -322;

/// Weight of red in the quadrature chroma axis.
pub const Q_FROM_R: i32 = 211;

/// Weight of green in the quadrature chroma axis.
pub const Q_FROM_G: i32 = -523;

/// Weight of blue in the quadrature chroma axis.
pub const Q_FROM_B: i32 = 312;

/// Weight of the in-phase axis in red.
pub const R_FROM_I: i32 = 956;

/// Weight of the quadrature axis in red.
pub const R_FROM_Q: i32 = 621;

/// Weight of the in-phase axis in green.
pub const G_FROM_I: i32 = -272;

/// Weight of the quadrature axis in green.
pub const G_FROM_Q: i32 = -647;

/// Weight of the in-phase axis in blue.
pub const B_FROM_I: i32 = -1106;

/// Weight of the quadrature axis in blue.
pub const B_FROM_Q: i32 = 1703;

/// Luma of a colour, a thousand times over.
pub open spec fn luma(r: int, g: int, b: int) -> int {
    Y_FROM_R * r + Y_FROM_G * g + Y_FROM_B * b
}

/// In-phase chroma of a colour, a thousand times over.
pub open spec fn in_phase(r: int, g: int, b: int) -> int {
    I_FROM_R * r + I_FROM_G * g + I_FROM_B * b
}

/// Quadrature chroma of a colour, a thousand times over.
pub open spec fn quadrature(r: int, g: int, b: int) -> int {
    Q_FROM_R * r + Q_FROM_G * g + Q_FROM_B * b
}

/// Red of a YIQ sample, a thousand times over.
pub open spec fn red(y: int, i: int, q: int) -> int {
    COEFFICIENT_SCALE * y + R_FROM_I * i + R_FROM_Q * q
}

/// Green of a YIQ sample, a thousand times over.
pub open spec fn green(y: int, i: int, q: int) -> int {
    COEFFICIENT_SCALE * y + G_FROM_I * i + G_FROM_Q * q
}

/// Blue of a YIQ sample, a thousand times over.
pub open spec fn blue(y: int, i: int, q: int) -> int {
    COEFFICIENT_SCALE * y + B_FROM_I * i + B_FROM_Q * q
}

/// Luma of the colour that comes back when a colour is taken to YIQ and
/// back to RGB, a thousand million times over.
pub open spec fn round_trip_luma(r: int, g: int, b: int) -> int {
    let y = luma(r, g, b);
    let i = in_phase(r, g, b);
    let q = quadrature(r, g, b);
    luma(red(y, i, q), green(y, i, q), blue(y, i, q))
}

/// In exact arithmetic the round trip through YIQ keeps the luma of every
/// colour in gamut within a hundredth of full scale, and in fact within a
/// ten-thousandth. The channels are whole numbers from 0 to `full`, the
/// full scale.
pub proof fn lemma_round_trip_keeps_luma(r: int, g: int, b: int, full: int)
    requires
        full >= 1,
        0 <= r <= full,
        0 <= g <= full,
        0 <= b <= full,
    ensures
        round_trip_luma(r, g, b) - 1_000_000 * luma(r, g, b) < 10_000_000 * full,
        1_000_000 * luma(r, g, b) - round_trip_luma(r, g, b) < 10_000_000 * full,
        round_trip_luma(r, g, b) - 1_000_000 * luma(r, g, b) <= 100_000 * full,
        1_000_000 * luma(r, g, b) - round_trip_luma(r, g, b) <= 100_000 * full,
{
    let i = in_phase(r, g, b);
    let q = quadrature(r, g, b);
    assert(round_trip_luma(r, g, b) == 1_000_000 * luma(r, g, b) + 96 * i + 32 * q);
}

/// Colours in gamut have luma between zero and full scale, in-phase chroma
/// within 0.596 of it and quadrature chroma within 0.523 of it.
pub proof fn lemma_yiq_ranges(r: int, g: int, b: int, full: int)
    requires
        0 <= r <= full,
        0 <= g <= full,
        0 <= b <= full,
    ensures
        0 <= luma(r, g, b) <= 1000 * full,
        -596 * full <= in_phase(r, g, b) <= 596 * full,
        -523 * full <= quadrature(r, g, b) <= 523 * full,
{
}

/// Grey has no chroma: equal channels give luma equal to the channel and
/// both chroma axes zero.
pub proof fn lemma_grey_has_no_chroma(level: int)
    ensures
        luma(level, level, level) == 1000 * level,
        in_phase(level, level, level) == 0,
        quadrature(level, level, level) == 0,
{
}

} // verus!
