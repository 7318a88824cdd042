//! Frames: interleaved RGB rasters in scanline order, and the walk over
//! their lines.

use vstd::prelude::*;

verus! {

/// Pixel layout of a frame.
#[derive(Debug, Clone, Copy, PartialEq, Eq, Structural)]
pub enum FrameFormat {
    /// Three samples per pixel: red, green, blue.
    RgbF32,
}

/// Number of samples per pixel.
pub const CHANNELS: usize = 3;

/// Number of samples in the buffer of a `width` by `height` frame.
pub open spec fn buffer_len(width: nat, height: nat) -> nat {
    width * height * 3
}

/// Index in the buffer of the red sample of the pixel in column `x` of line
/// `y`, in a frame `width` pixels wide.
pub open spec fn offset_of(width: nat, x: nat, y: nat) -> nat {
    (y * width + x) * 3
}

/// Every pixel of a frame has its three samples inside the buffer.
pub proof fn lemma_offset_in_buffer(width: nat, height: nat, x: nat, y: nat)
    requires
        x < width,
        y < height,
    ensures
        offset_of(width, x, y) + 3 <= buffer_len(width, height),
        y * width + x < width * height,
{
    assert(y * width + x < width * height) by (nonlinear_arith)
        requires
            x < width,
            y < height,
    ;
}

/// Pixels follow one another in scanline order, three samples apart: the
/// right neighbour comes next, and after the last pixel of a line the first
/// of the line below.
pub proof fn lemma_scan_order(width: nat, x: nat, y: nat)
    requires
        x < width,
    ensures
        x + 1 < width ==> offset_of(width, x + 1, y) == offset_of(width, x, y) + 3,
        x + 1 == width ==> offset_of(width, 0, y + 1) == offset_of(width, x, y) + 3,
{
    assert((y + 1) * width == y * width + width) by (nonlinear_arith);
}

/// Distinct pixels have disjoint samples: the offset determines the pixel.
pub proof fn lemma_offset_injective(width: nat, x1: nat, y1: nat, x2: nat, y2: nat)
    requires
        x1 < width,
        x2 < width,
        offset_of(width, x1, y1) == offset_of(width, x2, y2),
    ensures
        x1 == x2,
        y1 == y2,
{
    assert(y1 == y2 && x1 == x2) by (nonlinear_arith)
        requires
            x1 < width,
            x2 < width,
            y1 * width + x1 == y2 * width + x2,
    ;
}

/// A raster of `width` by `height` pixels with samples of type `T`.
pub struct Frame<T> {
    pub width: usize,
    pub height: usize,
    pub format: FrameFormat,
    pub data: Vec<T>,
}

impl<T: Copy> Frame<T> {
    /// The buffer holds exactly three samples for each pixel.
    pub open spec fn wf(&self) -> bool {
        self.data@.len() == buffer_len(self.width as nat, self.height as nat)
    }

    /// The samples of the pixel in column `x` of line `y`.
    pub open spec fn pixel_at(&self, x: nat, y: nat) -> (T, T, T) {
        let offset = offset_of(self.width as nat, x, y) as int;
        (self.data@[offset], self.data@[offset + 1], self.data@[offset + 2])
    }

    /// The buffer length of a `width` by `height` frame, where the machine
    /// can hold it.
    pub fn checked_len(width: usize, height: usize) -> (len: Option<usize>)
        ensures
            len.is_some() <==> buffer_len(width as nat, height as nat) <= usize::MAX,
            len.is_some() ==> len.unwrap() == buffer_len(width as nat, height as nat),
    {
        match width.checked_mul(height) {
            Some(pixels) => {
                let len: Option<usize> = pixels.checked_mul(CHANNELS);
                len
            },
            None => {
                assert(width * height * 3 > usize::MAX) by (nonlinear_arith)
                    requires
                        width * height > usize::MAX,
                ;
                None
            },
        }
    }

    /// A frame with every sample equal to `fill`.
    pub fn new(width: usize, height: usize, fill: T) -> (frame: Self)
        requires
            buffer_len(width as nat, height as nat) <= usize::MAX,
        ensures
            frame.width == width,
            frame.height == height,
            frame.format == FrameFormat::RgbF32,
            frame.data@ == Seq::new(buffer_len(width as nat, height as nat), |i: int| fill),
            frame.wf(),
    {
        let len: usize = match Self::checked_len(width, height) {
            Some(len) => len,
            None => 0,
        };
        let data: Vec<T> = filled(len, fill);
        Frame { width, height, format: FrameFormat::RgbF32, data }
    }

    /// A new frame of the same dimensions with every sample equal to `fill`.
    pub fn blank_like(&self, fill: T) -> (frame: Self)
        requires
            self.wf(),
        ensures
            frame.width == self.width,
            frame.height == self.height,
            frame.format == FrameFormat::RgbF32,
            frame.data@ == Seq::new(self.data@.len(), |i: int| fill),
            frame.data@.len() == self.data@.len(),
            frame.wf(),
    {
        assert(self.data@.len() == self.data.len());
        Self::new(self.width, self.height, fill)
    }

    /// Index in the buffer of the red sample of the pixel in column `x` of
    /// line `y`; green and blue follow it.
    pub fn pixel_offset(&self, x: usize, y: usize) -> (offset: usize)
        requires
            self.wf(),
            x < self.width,
            y < self.height,
        ensures
            offset == offset_of(self.width as nat, x as nat, y as nat),
            offset + 2 < self.data.len(),
    {
        proof {
            lemma_offset_in_buffer(self.width as nat, self.height as nat, x as nat, y as nat);
            assert(self.data@.len() == self.data.len());
        }
        (y * self.width + x) * CHANNELS
    }

    /// The samples of the pixel in column `x` of line `y`.
    pub fn pixel(&self, x: usize, y: usize) -> (rgb: (T, T, T))
        requires
            self.wf(),
            x < self.width,
            y < self.height,
        ensures
            rgb == self.pixel_at(x as nat, y as nat),
    {
        let offset: usize = self.pixel_offset(x, y);
        (self.data[offset], self.data[offset + 1], self.data[offset + 2])
    }

    /// Overwrites the pixel in column `x` of line `y`; every other sample
    /// stays.
    pub fn set_pixel(&mut self, x: usize, y: usize, rgb: (T, T, T))
        requires
            old(self).wf(),
            x < old(self).width,
            y < old(self).height,
        ensures
            final(self).width == old(self).width,
            final(self).height == old(self).height,
            final(self).format == old(self).format,
            final(self).wf(),
            final(self).data@ == ({
                let offset = offset_of(old(self).width as nat, x as nat, y as nat) as int;
                old(self).data@.update(offset, rgb.0).update(offset + 1, rgb.1).update(
                    offset + 2,
                    rgb.2,
                )
            }),
            final(self).pixel_at(x as nat, y as nat) == rgb,
    {
        let offset: usize = self.pixel_offset(x, y);
        self.data[offset] = rgb.0;
        self.data[offset + 1] = rgb.1;
        self.data[offset + 2] = rgb.2;
    }
}

/// A vector of `len` copies of `fill`.
pub fn filled<T: Copy>(len: usize, fill: T) -> (samples: Vec<T>)
    ensures
        samples@ == Seq::new(len as nat, |i: int| fill),
{
    let mut samples: Vec<T> = Vec::with_capacity(len);
    let mut count: usize = 0;
    while count < len
        invariant
            count <= len,
            samples@ == Seq::new(count as nat, |i: int| fill),
        decreases len - count,
    {
        samples.push(fill);
        count = count + 1;
        assert(samples@ =~= Seq::new(count as nat, |i: int| fill));
    }
    samples
}

} // verus!
