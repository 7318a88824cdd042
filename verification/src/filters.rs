//! Sample memories of the decoder: the sliding window of the box filter, the
//! line memories of the comb filters and the footprint of the chroma blur.

use vstd::prelude::*;
use crate::config::DemodulationFilter;
use crate::frame::filled;

verus! {

/// The window length that a request for `size` samples gives: at least one.
pub open spec fn effective_window(size: nat) -> nat {
    if size < 1 {
        1
    } else {
        size
    }
}

/// The last samples fed to a moving average, in a ring of fixed length.
pub struct BoxWindow<T> {
    buffer: Vec<T>,
    index: usize,
}

impl<T> View for BoxWindow<T> {
    type V = Seq<T>;

    /// The samples of the window, oldest first.
    closed spec fn view(&self) -> Seq<T> {
        self.buffer@.subrange(self.index as int, self.buffer@.len() as int)
            + self.buffer@.subrange(0, self.index as int)
    }
}

impl<T> BoxWindow<T> {
    #[verifier::type_invariant]
    spec fn cursor_inside(&self) -> bool {
        self.index < self.buffer@.len()
    }
}

impl<T: Copy> BoxWindow<T> {
    /// A window of `size` samples, each equal to `fill`; a size of zero is
    /// raised to one.
    pub fn new(size: usize, fill: T) -> (window: Self)
        ensures
            window@ == Seq::new(effective_window(size as nat), |i: int| fill),
    {
        let len: usize = if size < 1 {
            1
        } else {
            size
        };
        let buffer: Vec<T> = filled(len, fill);
        let window = BoxWindow { buffer, index: 0 };
        assert(window@ =~= Seq::new(effective_window(size as nat), |i: int| fill));
        window
    }

    /// The number of samples in the window.
    pub fn len(&self) -> (len: usize)
        ensures
            len == self@.len(),
            len >= 1,
    {
        proof {
            use_type_invariant(self);
        }
        self.buffer.len()
    }

    /// Feeds `sample` to the window and returns the sample that leaves it:
    /// the oldest one.
    pub fn push(&mut self, sample: T) -> (evicted: T)
        ensures
            old(self)@.len() >= 1,
            evicted == old(self)@[0],
            final(self)@ == old(self)@.drop_first().push(sample),
            final(self)@ == fed(old(self)@, seq![sample]),
            final(self)@.len() == old(self)@.len(),
    {
        proof {
            use_type_invariant(&*self);
        }
        let size: usize = self.buffer.len();
        let slot: usize = self.index;
        let evicted: T = self.buffer[slot];
        self.buffer[slot] = sample;
        self.index = if slot + 1 == size {
            0
        } else {
            slot + 1
        };
        assert(self@ =~= old(self)@.drop_first().push(sample));
        assert(fed(old(self)@, seq![sample]) == fed(
            old(self)@,
            seq![sample].drop_last(),
        ).drop_first().push(sample));
        evicted
    }
}

/// A window after the samples of `inputs` were fed to it in order.
pub open spec fn fed<T>(window: Seq<T>, inputs: Seq<T>) -> Seq<T>
    decreases inputs.len(),
{
    if inputs.len() == 0 {
        window
    } else {
        fed(window, inputs.drop_last()).drop_first().push(inputs.last())
    }
}

/// Feeding keeps the length of the window, which then holds the last
/// samples of what it held followed by what it was fed.
pub proof fn lemma_fed_slides<T>(window: Seq<T>, inputs: Seq<T>)
    requires
        window.len() >= 1,
    ensures
        fed(window, inputs) == (window + inputs).subrange(
            inputs.len() as int,
            (inputs.len() + window.len()) as int,
        ),
    decreases inputs.len(),
{
    if inputs.len() > 0 {
        let earlier = inputs.drop_last();
        lemma_fed_slides(window, earlier);
        assert(inputs =~= earlier.push(inputs.last()));
        assert(fed(window, inputs) =~= (window + inputs).subrange(
            inputs.len() as int,
            (inputs.len() + window.len()) as int,
        ));
    } else {
        assert(fed(window, inputs) =~= (window + inputs).subrange(0, window.len() as int));
    }
}

/// The window has no memory beyond its length: once it was fed as many
/// samples as it holds, it holds exactly the last of them, whatever it held
/// before.
pub proof fn lemma_window_forgets<T>(window: Seq<T>, inputs: Seq<T>)
    requires
        window.len() >= 1,
        inputs.len() >= window.len(),
    ensures
        fed(window, inputs) == inputs.subrange(
            inputs.len() - window.len(),
            inputs.len() as int,
        ),
{
    lemma_fed_slides(window, inputs);
    assert(fed(window, inputs) =~= inputs.subrange(
        inputs.len() - window.len(),
        inputs.len() as int,
    ));
}

/// The two line memories of the comb filters: the composite samples of the
/// previous line and of the line before it, one per column.
pub struct CombMemory<T> {
    previous: Vec<T>,
    before_previous: Vec<T>,
}

impl<T> CombMemory<T> {
    #[verifier::type_invariant]
    spec fn same_width(&self) -> bool {
        self.previous@.len() == self.before_previous@.len()
    }

    /// The memory of the previous line.
    pub closed spec fn previous(&self) -> Seq<T> {
        self.previous@
    }

    /// The memory of the line before the previous one.
    pub closed spec fn before_previous(&self) -> Seq<T> {
        self.before_previous@
    }
}

impl<T: Copy> CombMemory<T> {
    /// Memories for lines of `width` columns, each sample equal to `fill`.
    pub fn new(width: usize, fill: T) -> (memory: Self)
        ensures
            memory.previous() == Seq::new(width as nat, |i: int| fill),
            memory.before_previous() == Seq::new(width as nat, |i: int| fill),
    {
        CombMemory { previous: filled(width, fill), before_previous: filled(width, fill) }
    }

    /// The number of columns.
    pub fn width(&self) -> (width: usize)
        ensures
            width == self.previous().len(),
            width == self.before_previous().len(),
    {
        proof {
            use_type_invariant(self);
        }
        self.previous.len()
    }

    /// One-line comb: returns the previous line's sample of column `x` and
    /// stores `sample` in its place. The older memory stays.
    pub fn exchange(&mut self, x: usize, sample: T) -> (previous: T)
        requires
            x < old(self).previous().len(),
        ensures
            previous == old(self).previous()[x as int],
            final(self).previous() == old(self).previous().update(x as int, sample),
            final(self).before_previous() == old(self).before_previous(),
    {
        proof {
            use_type_invariant(&*self);
        }
        let previous: T = self.previous[x];
        self.previous[x] = sample;
        previous
    }

    /// Two-line comb: returns the samples of column `x` one and two lines
    /// back, then moves the first into the older memory and stores `sample`
    /// in the newer.
    pub fn shift(&mut self, x: usize, sample: T) -> (lines: (T, T))
        requires
            x < old(self).previous().len(),
        ensures
            lines.0 == old(self).previous()[x as int],
            lines.1 == old(self).before_previous()[x as int],
            final(self).previous() == old(self).previous().update(x as int, sample),
            final(self).before_previous() == old(self).before_previous().update(
                x as int,
                old(self).previous()[x as int],
            ),
    {
        proof {
            use_type_invariant(&*self);
        }
        let previous: T = self.previous[x];
        let before: T = self.before_previous[x];
        self.before_previous[x] = previous;
        self.previous[x] = sample;
        (previous, before)
    }
}

/// Number of earlier lines that a strategy reads: one for the one-line
/// comb, two for the two-line comb, none for the others.
pub open spec fn lines_back(filter: DemodulationFilter) -> nat {
    match filter {
        DemodulationFilter::Comb1D => 1,
        DemodulationFilter::Comb2D => 2,
        _ => 0,
    }
}

impl<T: Copy> CombMemory<T> {
    /// Feeds the composite sample of column `x` to the memory as `filter`
    /// asks: the one-line comb exchanges, the two-line comb shifts, and the
    /// other strategies leave the memory alone. Returns the samples one and
    /// two lines back, as far as the strategy reads them.
    pub fn feed(&mut self, filter: DemodulationFilter, x: usize, sample: T) -> (lines: (
        Option<T>,
        Option<T>,
    ))
        requires
            x < old(self).previous().len(),
        ensures
            lines.0 == if lines_back(filter) >= 1 {
                Some(old(self).previous()[x as int])
            } else {
                None
            },
            lines.1 == if lines_back(filter) >= 2 {
                Some(old(self).before_previous()[x as int])
            } else {
                None
            },
            final(self).previous() == if lines_back(filter) >= 1 {
                old(self).previous().update(x as int, sample)
            } else {
                old(self).previous()
            },
            final(self).before_previous() == if lines_back(filter) >= 2 {
                old(self).before_previous().update(x as int, old(self).previous()[x as int])
            } else {
                old(self).before_previous()
            },
    {
        match filter {
            DemodulationFilter::Comb1D => {
                let previous: T = self.exchange(x, sample);
                (Some(previous), None)
            },
            DemodulationFilter::Comb2D => {
                let (previous, before): (T, T) = self.shift(x, sample);
                (Some(previous), Some(before))
            },
            _ => (None, None),
        }
    }
}

/// The columns that the three-tap chroma blur reads beside column `x` of a
/// line of `len` columns: the left and right neighbours, or `x` itself at
/// an edge.
pub fn blur_neighbors(x: usize, len: usize) -> (sides: (usize, usize))
    requires
        x < len,
    ensures
        sides.0 == if x == 0 { 0 } else { x - 1 },
        sides.1 == if x + 1 >= len { x as int } else { x + 1 },
        sides.0 < len,
        sides.1 < len,
{
    let left: usize = if x == 0 {
        x
    } else {
        x - 1
    };
    let right: usize = if x + 1 >= len {
        x
    } else {
        x + 1
    };
    (left, right)
}

} // verus!
