use vstd::prelude::*;

use crate::color::Rgba;

verus! {

/// A square raster of RGBA pixels, stored row-major.
///
/// The pixel at column `x` and row `y` sits at index `y * side + x` of the
/// view.  Every constructor establishes `wf()` and every method preserves it.
pub struct PixelGrid {
    pixels: Vec<Rgba>,
    size: usize,
}

impl View for PixelGrid {
    type V = Seq<Rgba>;

    closed spec fn view(&self) -> Seq<Rgba> {
        self.pixels@
    }
}

impl PixelGrid {
    /// The edge length in pixels.
    pub closed spec fn side(self) -> nat {
        self.size as nat
    }

    /// The buffer holds exactly `side * side` pixels.
    pub open spec fn wf(self) -> bool {
        self@.len() == self.side() * self.side()
    }

    /// A `size` by `size` grid with every pixel set to `fill`.
    pub fn new(size: usize, fill: Rgba) -> (g: PixelGrid)
        requires
            size * size <= usize::MAX,
        ensures
            g.wf(),
            g.side() == size,
            g@ == Seq::new((size * size) as nat, |i: int| fill),
    {
        let n = size * size;
        let mut pixels: Vec<Rgba> = Vec::new();
        for k in 0..n
            invariant
                pixels@.len() == k,
                forall|j: int| 0 <= j < k ==> pixels@[j] == fill,
        {
            pixels.push(fill);
        }
        assert(pixels@ =~= Seq::new((size * size) as nat, |i: int| fill));
        PixelGrid { pixels, size }
    }

    /// Wraps an existing row-major buffer of `size * size` pixels.
    pub fn from_pixels(pixels: Vec<Rgba>, size: usize) -> (g: PixelGrid)
        requires
            pixels@.len() == size * size,
        ensures
            g.wf(),
            g.side() == size,
            g@ == pixels@,
    {
        PixelGrid { pixels, size }
    }

    /// The edge length in pixels.
    pub fn size_px(&self) -> (s: usize)
        ensures
            s == self.side(),
    {
        self.size
    }

    /// The pixel at column `x`, row `y`.
    pub fn get(&self, x: usize, y: usize) -> (c: Rgba)
        requires
            self.wf(),
            x < self.side(),
            y < self.side(),
        ensures
            c == self@[y * self.side() + x],
    {
        let n = self.pixels.len();
        proof {
            lemma_row_major_index_in_bounds(x as nat, y as nat, self.side());
        }
        self.pixels[y * self.size + x]
    }

    /// Overwrites the pixel at column `x`, row `y`.
    pub fn set(&mut self, x: usize, y: usize, c: Rgba)
        requires
            old(self).wf(),
            x < old(self).side(),
            y < old(self).side(),
        ensures
            final(self).wf(),
            final(self).side() == old(self).side(),
            final(self)@ == old(self)@.update((y * old(self).side() + x) as int, c),
    {
        let n = self.pixels.len();
        proof {
            lemma_row_major_index_in_bounds(x as nat, y as nat, self.side());
        }
        let i = y * self.size + x;
        self.pixels[i] = c;
    }

    /// Hands the pixel buffer back, row-major.
    pub fn into_pixels(self) -> (v: Vec<Rgba>)
        ensures
            v@ == self@,
    {
        self.pixels
    }

    /// Borrows the pixel buffer, row-major.
    pub fn pixels(&self) -> (v: &Vec<Rgba>)
        ensures
            v@ == self@,
    {
        &self.pixels
    }
}

/// A flat index below `size * size` has in-range coordinates.
pub proof fn lemma_flat_index_coords(size: nat, i: nat)
    requires
        i < size * size,
    ensures
        (i as int) % (size as int) < size,
        (i as int) / (size as int) < size,
        ((i as int) / (size as int)) * size + (i as int) % (size as int) == i,
{
    vstd::arithmetic::div_mod::lemma_fundamental_div_mod(i as int, size as int);
    assert(size != 0) by {
        if size == 0 {
            assert(size * size == 0);
        }
    }
    vstd::arithmetic::div_mod::lemma_mod_bound(i as int, size as int);
    let q = (i as int) / (size as int);
    assert(q * size + (i as int) % (size as int) == i) by {
        assert((size as int) * q == q * (size as int)) by (nonlinear_arith);
    }
    assert(q < size) by (nonlinear_arith)
        requires
            q * size + (i as int) % (size as int) == i,
            0 <= (i as int) % (size as int),
            i < size * size,
            size >= 1,
    ;
}

/// A row-major index built from in-range coordinates is in range.
pub proof fn lemma_row_major_index_in_bounds(x: nat, y: nat, side: nat)
    requires
        x < side,
        y < side,
    ensures
        y * side + x < side * side,
{
    assert(y * side + x < side * side) by (nonlinear_arith)
        requires
            x < side,
            y < side,
    ;
}

} // verus!
