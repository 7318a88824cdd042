//! The walk of the frame driver: lines from top to bottom, and within a
//! line the oversampled samples from left to right.

use vstd::prelude::*;

verus! {

/// Colour subcarrier frequency in hertz.
pub const SUBCARRIER_HZ: u32 = 3_579_545;

/// Nominal pixel sample rate in hertz: four times the subcarrier.
pub const NOMINAL_SAMPLE_RATE_HZ: u32 = 14_318_180;

/// Seed of the generator in a plain render.
pub const RENDER_SEED: u32 = 0x1a2b_3c4d;

/// Seed of the generator in a render that reports progress.
pub const PROGRESS_RENDER_SEED: u32 = 0x1234_abcd;

/// The oversampling that a configured factor gives: at least one.
pub open spec fn effective_oversample(factor: u8) -> nat {
    if factor < 1 {
        1
    } else {
        factor as nat
    }
}

/// Geometry of one oversampled scanline.
#[derive(Debug, Clone, Copy)]
pub struct LineLayout {
    width: usize,
    oversample: usize,
}

impl LineLayout {
    #[verifier::type_invariant]
    spec fn fits(&self) -> bool {
        self.oversample >= 1 && self.width * self.oversample <= usize::MAX
    }

    /// Pixels per line.
    pub closed spec fn width(&self) -> nat {
        self.width as nat
    }

    /// Samples per pixel.
    pub closed spec fn oversample(&self) -> nat {
        self.oversample as nat
    }

    /// Samples per line.
    pub open spec fn samples(&self) -> nat {
        self.width() * self.oversample()
    }

    /// The layout of lines `width` pixels wide at the configured
    /// oversampling factor, where the machine can count a line's samples.
    pub fn new(width: usize, oversample_factor: u8) -> (layout: Option<Self>)
        ensures
            layout.is_some() <==> width * effective_oversample(oversample_factor) <= usize::MAX,
            layout.is_some() ==> layout.unwrap().width() == width && layout.unwrap().oversample()
                == effective_oversample(oversample_factor),
    {
        let oversample: usize = if oversample_factor < 1 {
            1
        } else {
            oversample_factor as usize
        };
        match width.checked_mul(oversample) {
            Some(_) => Some(LineLayout { width, oversample }),
            None => None,
        }
    }

    /// Samples per pixel.
    pub fn oversample_factor(&self) -> (factor: usize)
        ensures
            factor == self.oversample(),
            factor >= 1,
    {
        proof {
            use_type_invariant(self);
        }
        self.oversample
    }

    /// Samples per line.
    pub fn samples_per_line(&self) -> (samples: usize)
        ensures
            samples == self.samples(),
    {
        proof {
            use_type_invariant(self);
        }
        self.width * self.oversample
    }

    /// The pixel that sample `s` of a line belongs to.
    pub fn pixel_of(&self, s: usize) -> (pixel: usize)
        requires
            s < self.samples(),
        ensures
            pixel == s as nat / self.oversample(),
            pixel < self.width(),
    {
        proof {
            use_type_invariant(self);
            lemma_pixel_inside(s as nat, self.width as nat, self.oversample as nat);
        }
        s / self.oversample
    }

    /// The count of samples before sample `s` of line `y`, from the top of
    /// the frame, where the machine can count that far.
    pub fn sample_index(&self, y: usize, s: usize) -> (index: Option<usize>)
        ensures
            index.is_some() <==> y * self.samples() + s <= usize::MAX,
            index.is_some() ==> index.unwrap() == y * self.samples() + s,
    {
        let samples: usize = self.samples_per_line();
        match y.checked_mul(samples) {
            Some(before) => before.checked_add(s),
            None => None,
        }
    }

    /// The source sample directly under the centre of pixel `x`: the whole
    /// part of `(x + 1/2) * oversample`.
    pub fn center_of(&self, x: usize) -> (center: usize)
        requires
            x < self.width(),
        ensures
            center == (2 * x + 1) * self.oversample() / 2,
            center < self.samples(),
            center as nat / self.oversample() == x,
    {
        proof {
            use_type_invariant(self);
            lemma_center_inside(x as nat, self.width as nat, self.oversample as nat);
            lemma_center_in_own_pixel(x as nat, self.oversample as nat);
        }
        x * self.oversample + self.oversample / 2
    }
}

/// A sample of a line lies in one of the line's pixels.
pub proof fn lemma_pixel_inside(s: nat, width: nat, oversample: nat)
    requires
        oversample >= 1,
        s < width * oversample,
    ensures
        s / oversample < width,
{
    assert(s / oversample < width) by (nonlinear_arith)
        requires
            oversample >= 1,
            s < width * oversample,
    ;
}

/// The centre of a pixel lies among the samples of its line, and its whole
/// part is `x * oversample + oversample / 2`.
pub proof fn lemma_center_inside(x: nat, width: nat, oversample: nat)
    requires
        oversample >= 1,
        x < width,
    ensures
        (2 * x + 1) * oversample / 2 == x * oversample + oversample / 2,
        x * oversample + oversample / 2 < width * oversample,
{
    assert((2 * x + 1) * oversample == 2 * (x * oversample) + oversample) by (nonlinear_arith);
    assert(x * oversample + oversample <= width * oversample) by (nonlinear_arith)
        requires
            x < width,
    ;
}

/// Each pixel owns `oversample` samples in a row: sample `k` of pixel `x`
/// is sample `x * oversample + k` of the line.
pub proof fn lemma_pixel_owns_its_samples(x: nat, k: nat, oversample: nat)
    requires
        k < oversample,
    ensures
        (x * oversample + k) / oversample == x,
{
    assert((x * oversample + k) / oversample == x) by (nonlinear_arith)
        requires
            0 <= k < oversample,
    ;
}

/// The sample under the centre of a pixel belongs to that pixel.
pub proof fn lemma_center_in_own_pixel(x: nat, oversample: nat)
    requires
        oversample >= 1,
    ensures
        (x * oversample + oversample / 2) / oversample == x,
{
    lemma_pixel_owns_its_samples(x, oversample / 2, oversample);
}

/// The frame driver's position: how many lines are done.
#[derive(Debug, Clone, Copy)]
pub struct LineScan {
    height: usize,
    done: usize,
}

impl LineScan {
    #[verifier::type_invariant]
    spec fn inside(&self) -> bool {
        self.done <= self.height
    }

    /// Lines in the frame.
    pub closed spec fn height(&self) -> nat {
        self.height as nat
    }

    /// Lines done so far.
    pub closed spec fn done(&self) -> nat {
        self.done as nat
    }

    /// A scan at the top of a frame of `height` lines.
    pub fn new(height: usize) -> (scan: Self)
        ensures
            scan.height() == height,
            scan.done() == 0,
    {
        LineScan { height, done: 0 }
    }

    /// The next line to process, top to bottom, or nothing once every line
    /// is done. Taking a line counts it as done.
    pub fn next_line(&mut self) -> (line: Option<usize>)
        ensures
            final(self).height() == old(self).height(),
            old(self).done() <= old(self).height(),
            old(self).done() < old(self).height() ==> line == Some(old(self).done() as usize)
                && final(self).done() == old(self).done() + 1,
            old(self).done() == old(self).height() ==> line.is_none() && final(self).done()
                == old(self).done(),
    {
        proof {
            use_type_invariant(&*self);
        }
        if self.done < self.height {
            let line: usize = self.done;
            self.done = self.done + 1;
            Some(line)
        } else {
            None
        }
    }

    /// Progress as a fraction: lines done over lines in the frame.
    pub fn progress(&self) -> (fraction: (usize, usize))
        ensures
            fraction.0 == self.done(),
            fraction.1 == self.height(),
            fraction.0 <= fraction.1,
    {
        proof {
            use_type_invariant(self);
        }
        (self.done, self.height)
    }
}

} // verus!
