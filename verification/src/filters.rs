use vstd::prelude::*;

use crate::color::{black, clear_white, white, Rgba};
use crate::grid::{lemma_flat_index_coords, PixelGrid};

verus! {

/// The buffer after the transparency filter: every pure opaque white pixel
/// turned into fully transparent white, everything else untouched.
pub open spec fn transparentized(s: Seq<Rgba>) -> Seq<Rgba> {
    s.map_values(|p: Rgba| if p == white() { clear_white() } else { p })
}

/// The buffer after a flat recolor: every pure opaque black pixel set to
/// `color`, everything else untouched.
pub open spec fn flat_colored(s: Seq<Rgba>, color: Rgba) -> Seq<Rgba> {
    s.map_values(|p: Rgba| if p == black() { color } else { p })
}

/// Replaces every pure-white pixel of the image with a transparent one,
/// in place.
pub fn make_transparent(qr: &mut PixelGrid)
    requires
        old(qr).wf(),
    ensures
        final(qr).wf(),
        final(qr).side() == old(qr).side(),
        final(qr)@ == transparentized(old(qr)@),
{
    let ghost orig = qr@;
    let size = qr.size_px();
    let n = qr.pixels().len();
    for i in 0..n
        invariant
            qr.wf(),
            qr.side() == size,
            n == qr@.len(),
            n == orig.len(),
            forall|t: int| 0 <= t < i ==> qr@[t] == transparentized(orig)[t],
            forall|t: int| i <= t < n ==> qr@[t] == orig[t],
    {
        proof {
            lemma_flat_index_coords(size as nat, i as nat);
        }
        let x = i % size;
        let y = i / size;
        let c = qr.get(x, y);
        if c == (Rgba { r: 255, g: 255, b: 255, a: 255 }) {
            qr.set(x, y, Rgba { r: 255, g: 255, b: 255, a: 0 });
        }
    }
    assert(qr@ =~= transparentized(orig));
}

/// Overwrites every pure-black pixel of the image with one flat color,
/// in place.
pub fn apply_color(qr: &mut PixelGrid, color: Rgba)
    requires
        old(qr).wf(),
    ensures
        final(qr).wf(),
        final(qr).side() == old(qr).side(),
        final(qr)@ == flat_colored(old(qr)@, color),
{
    let ghost orig = qr@;
    let size = qr.size_px();
    let n = qr.pixels().len();
    for i in 0..n
        invariant
            qr.wf(),
            qr.side() == size,
            n == qr@.len(),
            n == orig.len(),
            forall|t: int| 0 <= t < i ==> qr@[t] == flat_colored(orig, color)[t],
            forall|t: int| i <= t < n ==> qr@[t] == orig[t],
    {
        proof {
            lemma_flat_index_coords(size as nat, i as nat);
        }
        let x = i % size;
        let y = i / size;
        let c = qr.get(x, y);
        if c == (Rgba { r: 0, g: 0, b: 0, a: 255 }) {
            qr.set(x, y, color);
        }
    }
    assert(qr@ =~= flat_colored(orig, color));
}

/// The transparency filter is idempotent: a second application finds no
/// opaque white pixel left and changes nothing.
pub proof fn lemma_transparency_idempotent(s: Seq<Rgba>)
    ensures
        transparentized(transparentized(s)) == transparentized(s),
{
    assert(transparentized(transparentized(s)) =~= transparentized(s));
}

} // verus!
