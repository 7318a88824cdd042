//! Settings that select between strategies.

use vstd::prelude::*;

verus! {

/// The strategy that separates luma from chroma when the composite signal is
/// decoded.
#[derive(Debug, Clone, Copy, PartialEq, Eq, Structural)]
pub enum DemodulationFilter {
    Lowpass,
    Box,
    Notch,
    Comb1D,
    Comb2D,
}

impl Default for DemodulationFilter {
    /// The low-pass strategy.
    fn default() -> (filter: Self)
        ensures
            filter == DemodulationFilter::Lowpass,
    {
        DemodulationFilter::Lowpass
    }
}

/// What `str::to_lowercase` returns for a text: its lowercase equivalent
/// under the Unicode rules.
pub uninterp spec fn lowercase_of(text: Seq<char>) -> Seq<char>;

/// Calls `str::to_lowercase` of the standard library. Taken on trust: the
/// result depends on the text alone, so it has the name [`lowercase_of`].
/// Nothing else is claimed of it.
#[verifier::external_body]
fn to_lowercase(value: &str) -> (lower: String)
    ensures
        lower@ == lowercase_of(value@),
{
    value.to_lowercase()
}

/// The strategy that a lowercase name selects. Any name but `box`, `notch`,
/// `comb1d` and `comb2d` selects the low-pass strategy.
pub open spec fn demod_for_name(lower: Seq<char>) -> DemodulationFilter {
    if lower == "box"@ {
        DemodulationFilter::Box
    } else if lower == "notch"@ {
        DemodulationFilter::Notch
    } else if lower == "comb1d"@ {
        DemodulationFilter::Comb1D
    } else if lower == "comb2d"@ {
        DemodulationFilter::Comb2D
    } else {
        DemodulationFilter::Lowpass
    }
}

/// Whether `text` reads exactly `name`.
fn reads(text: &String, name: &str) -> (same: bool)
    ensures
        same == (text@ == name@),
{
    let owned: String = name.to_owned();
    *text == owned
}

/// The strategy that a name in lowercase selects.
pub fn demod_from_lowercase(name: &str) -> (filter: DemodulationFilter)
    ensures
        filter == demod_for_name(name@),
{
    let owned: String = name.to_owned();
    let lower: &String = &owned;
    if reads(lower, "box") {
        DemodulationFilter::Box
    } else if reads(lower, "notch") {
        DemodulationFilter::Notch
    } else if reads(lower, "comb1d") {
        DemodulationFilter::Comb1D
    } else if reads(lower, "comb2d") {
        DemodulationFilter::Comb2D
    } else {
        DemodulationFilter::Lowpass
    }
}

/// The strategy that a name selects, whatever its letter case.
pub fn parse_demod(value: &str) -> (filter: DemodulationFilter)
    ensures
        filter == demod_for_name(lowercase_of(value@)),
{
    let lower: String = to_lowercase(value);
    demod_from_lowercase(lower.as_str())
}

/// The built-in looks.
#[derive(Debug, Clone, Copy, PartialEq, Eq, Structural)]
pub enum Preset {
    CleanBroadcast,
    ConsumerVhs,
    DamagedTape,
    SevereTracking,
    VintageCamcorder,
}

/// The look that a lowercase name selects. Any name but `clean-broadcast`,
/// `damaged-tape`, `severe-tracking` and `vintage-camcorder` selects the
/// consumer tape deck.
pub open spec fn preset_for_name(lower: Seq<char>) -> Preset {
    if lower == "clean-broadcast"@ {
        Preset::CleanBroadcast
    } else if lower == "damaged-tape"@ {
        Preset::DamagedTape
    } else if lower == "severe-tracking"@ {
        Preset::SevereTracking
    } else if lower == "vintage-camcorder"@ {
        Preset::VintageCamcorder
    } else {
        Preset::ConsumerVhs
    }
}

/// The strategy that a look decodes with.
pub open spec fn preset_demodulation(preset: Preset) -> DemodulationFilter {
    match preset {
        Preset::CleanBroadcast => DemodulationFilter::Comb2D,
        Preset::ConsumerVhs => DemodulationFilter::Comb1D,
        Preset::DamagedTape => DemodulationFilter::Lowpass,
        Preset::SevereTracking => DemodulationFilter::Box,
        Preset::VintageCamcorder => DemodulationFilter::Notch,
    }
}

impl Preset {
    /// The look that a name in lowercase selects.
    pub fn from_lowercase(name: &str) -> (preset: Self)
        ensures
            preset == preset_for_name(name@),
    {
        let owned: String = name.to_owned();
        let lower: &String = &owned;
        if reads(lower, "clean-broadcast") {
            Preset::CleanBroadcast
        } else if reads(lower, "damaged-tape") {
            Preset::DamagedTape
        } else if reads(lower, "severe-tracking") {
            Preset::SevereTracking
        } else if reads(lower, "vintage-camcorder") {
            Preset::VintageCamcorder
        } else {
            Preset::ConsumerVhs
        }
    }

    /// The look that a name selects, whatever its letter case.
    pub fn parse(name: &str) -> (preset: Self)
        ensures
            preset == preset_for_name(lowercase_of(name@)),
    {
        let lower: String = to_lowercase(name);
        Self::from_lowercase(lower.as_str())
    }

    /// The strategy that the look decodes with.
    pub fn demodulation(&self) -> (filter: DemodulationFilter)
        ensures
            filter == preset_demodulation(*self),
    {
        match self {
            Preset::CleanBroadcast => DemodulationFilter::Comb2D,
            Preset::ConsumerVhs => DemodulationFilter::Comb1D,
            Preset::DamagedTape => DemodulationFilter::Lowpass,
            Preset::SevereTracking => DemodulationFilter::Box,
            Preset::VintageCamcorder => DemodulationFilter::Notch,
        }
    }
}

/// Diagnostic overlays drawn over the decoded picture.
#[derive(Debug, Clone, Copy, PartialEq, Eq, Structural)]
pub struct DebugConfig {
    /// Master switch of the overlays.
    pub diagnostic_mode: bool,
    /// Shows the resampled composite signal as grey.
    pub show_composite: bool,
    /// Shows the recovered chroma as red and green.
    pub show_iq: bool,
    /// Marks every sixteenth column and line.
    pub show_grid: bool,
}

impl Default for DebugConfig {
    /// Every overlay off.
    fn default() -> (debug: Self)
        ensures
            debug == (DebugConfig {
                diagnostic_mode: false,
                show_composite: false,
                show_iq: false,
                show_grid: false,
            }),
    {
        DebugConfig {
            diagnostic_mode: false,
            show_composite: false,
            show_iq: false,
            show_grid: false,
        }
    }
}

/// What an output pixel shows.
#[derive(Debug, Clone, Copy, PartialEq, Eq, Structural)]
pub enum Overlay {
    /// The decoded picture.
    Picture,
    /// The composite signal as grey.
    Composite,
    /// The recovered chroma as red and green.
    Chroma,
    /// A grid marker.
    Grid,
}

/// Distance between grid markers, in pixels and in lines.
pub const GRID_SPACING: usize = 16;

/// Whether the pixel in column `x` of line `y` lies on a grid marker.
pub open spec fn on_grid(x: nat, y: nat) -> bool {
    x % 16 == 0 || y % 16 == 0
}

/// What the pixel in column `x` of line `y` shows. The overlays are written
/// in the order composite, chroma, grid, and the last one written stays.
pub open spec fn overlay_of(debug: DebugConfig, x: nat, y: nat) -> Overlay {
    let first = if debug.show_composite {
        Overlay::Composite
    } else {
        Overlay::Picture
    };
    let second = if debug.show_iq {
        Overlay::Chroma
    } else {
        first
    };
    let third = if debug.show_grid && on_grid(x, y) {
        Overlay::Grid
    } else {
        second
    };
    if debug.diagnostic_mode {
        third
    } else {
        Overlay::Picture
    }
}

impl DebugConfig {
    /// What the pixel in column `x` of line `y` shows.
    pub fn overlay_at(&self, x: usize, y: usize) -> (overlay: Overlay)
        ensures
            overlay == overlay_of(*self, x as nat, y as nat),
    {
        if !self.diagnostic_mode {
            Overlay::Picture
        } else if self.show_grid && (x % GRID_SPACING == 0 || y % GRID_SPACING == 0) {
            Overlay::Grid
        } else if self.show_iq {
            Overlay::Chroma
        } else if self.show_composite {
            Overlay::Composite
        } else {
            Overlay::Picture
        }
    }
}

} // verus!
