use vstd::prelude::*;

use crate::color::{black, Rgba};
use crate::grid::{lemma_flat_index_coords, PixelGrid};

verus! {

/// What colorgrad returns for a stop list sampled at `n` evenly spaced
/// points of its domain: a function of the stops and `n` alone.
pub uninterp spec fn gradient_samples(stops: Seq<Rgba>, n: nat) -> Seq<Rgba>;

/// Channel `a` comes no later than channel `b` on the way from `lo` to `hi`.
pub open spec fn channel_toward(a: u8, b: u8, lo: u8, hi: u8) -> bool {
    if lo <= hi {
        a <= b
    } else {
        b <= a
    }
}

/// Pixel `a` comes no later than pixel `b` on the way from `c0` to `c1`,
/// channel by channel.
pub open spec fn toward(a: Rgba, b: Rgba, c0: Rgba, c1: Rgba) -> bool {
    &&& channel_toward(a.r, b.r, c0.r, c1.r)
    &&& channel_toward(a.g, b.g, c0.g, c1.g)
    &&& channel_toward(a.b, b.b, c0.b, c1.b)
    &&& channel_toward(a.a, b.a, c0.a, c1.a)
}

/// Every channel of the samples moves monotonically from `c0` toward `c1`.
pub open spec fn monotone_between(s: Seq<Rgba>, c0: Rgba, c1: Rgba) -> bool {
    forall|i: int, j: int| 0 <= i <= j < s.len() ==> #[trigger] toward(s[i], s[j], c0, c1)
}

/// Channel value `v` of sample `i` out of `n` is within one unit of the
/// exact linear interpolation `(lo * (n - 1 - i) + hi * i) / (n - 1)`,
/// stated multiplied through by `n - 1`.
pub open spec fn channel_near_lerp(v: u8, lo: u8, hi: u8, i: int, n: int) -> bool {
    &&& v * (n - 1) <= lo * (n - 1 - i) + hi * i + (n - 1)
    &&& lo * (n - 1 - i) + hi * i <= v * (n - 1) + (n - 1)
}

/// Every channel of the sample lies within one unit of the exact linear
/// interpolation between `c0` and `c1` at position `i` of `n`.
pub open spec fn near_lerp(v: Rgba, c0: Rgba, c1: Rgba, i: int, n: int) -> bool {
    &&& channel_near_lerp(v.r, c0.r, c1.r, i, n)
    &&& channel_near_lerp(v.g, c0.g, c1.g, i, n)
    &&& channel_near_lerp(v.b, c0.b, c1.b, i, n)
    &&& channel_near_lerp(v.a, c0.a, c1.a, i, n)
}

/// Relies on colorgrad's `CustomGradient` and `Gradient::colors`: builds a
/// gradient from explicit color stops (default `[0, 1]` domain,
/// componentwise linear blending of the RGBA channels) and takes `n`
/// samples at evenly spaced positions, so sample `i` is the gradient at
/// `i / (n - 1)`.  The samples are a function of the stop list and `n`
/// alone.  The gradient returns its first and last stop exactly at the ends
/// of the domain; a single stop is duplicated, giving a constant gradient;
/// with two stops, per-channel linear interpolation makes every sampled
/// channel monotone from the first stop to the second and keeps it, after
/// rounding to a byte, within one unit of the exact interpolated value.  An
/// empty stop list falls back to the library's built-in black-to-white
/// pair.
#[verifier::external_body]
fn sample_gradient(stops: &Vec<Rgba>, n: usize) -> (r: Vec<Rgba>)
    requires
        n >= 2,
    ensures
        r@.len() == n,
        r@ == gradient_samples(stops@, n as nat),
        stops@.len() >= 1 ==> r@[0] == stops@[0] && r@[n - 1] == stops@.last(),
        stops@.len() == 1 ==> (forall|i: int| 0 <= i < n ==> r@[i] == stops@[0]),
        stops@.len() == 2 ==> monotone_between(r@, stops@[0], stops@[1]),
        stops@.len() == 2 ==> (forall|i: int|
            0 <= i < n ==> #[trigger] near_lerp(r@[i], stops@[0], stops@[1], i, n as int)),
{
    let mut cs: Vec<colorgrad::Color> = Vec::new();
    for c in stops.iter() {
        cs.push(colorgrad::Color::from_rgba8(c.r, c.g, c.b, c.a));
    }
    let grad = colorgrad::CustomGradient::new().colors(&cs).build().unwrap();
    let mut out: Vec<Rgba> = Vec::new();
    for q in grad.colors(n).iter().map(|c| c.to_rgba8()) {
        out.push(Rgba { r: q[0], g: q[1], b: q[2], a: q[3] });
    }
    out
}

/// The flat color of each animation frame: `n` gradient samples through the
/// parsed color stops, one per frame.
///
/// Frame 0 gets the first stop exactly and frame `n - 1` the last stop
/// exactly; with two stops every color channel moves monotonically from the
/// first to the second across the frames and stays within one unit of the
/// exact linear interpolation between them.
pub fn frame_colors(stops: &Vec<Rgba>, n: usize) -> (r: Vec<Rgba>)
    requires
        n >= 2,
    ensures
        r@.len() == n,
        r@ == gradient_samples(stops@, n as nat),
        stops@.len() >= 1 ==> r@[0] == stops@[0] && r@[n - 1] == stops@.last(),
        stops@.len() == 1 ==> (forall|i: int| 0 <= i < n ==> r@[i] == stops@[0]),
        stops@.len() == 2 ==> monotone_between(r@, stops@[0], stops@[1]),
        stops@.len() == 2 ==> (forall|i: int|
            0 <= i < n ==> #[trigger] near_lerp(r@[i], stops@[0], stops@[1], i, n as int)),
{
    sample_gradient(stops, n)
}

/// The two fixed stops of the still-image gradient: a deep magenta fading
/// into a dark violet.
pub open spec fn still_gradient_stops() -> Seq<Rgba> {
    seq![Rgba { r: 100, g: 0, b: 100, a: 255 }, Rgba { r: 30, g: 5, b: 60, a: 255 }]
}

/// The Manhattan distance of a pixel from the image center, capped at
/// `size`: the index into a table of `size + 1` gradient samples, so that an
/// uncapped distance `d` samples the gradient at `d / size` and anything
/// farther out keeps the endpoint color.
pub open spec fn center_distance_index(size: nat, x: int, y: int) -> int {
    let c = size as int / 2;
    let dx = if x >= c {
        x - c
    } else {
        c - x
    };
    let dy = if y >= c {
        y - c
    } else {
        c - y
    };
    if dx + dy > size {
        size as int
    } else {
        dx + dy
    }
}

/// The buffer after the gradient colorizer: every pure opaque black pixel
/// replaced by the gradient sample for its distance from the center, every
/// other pixel untouched.
pub open spec fn gradient_recolored(s: Seq<Rgba>, size: nat, table: Seq<Rgba>) -> Seq<Rgba> {
    Seq::new(
        s.len(),
        |i: int|
            if s[i] == black() {
                table[center_distance_index(size, i % (size as int), i / (size as int))]
            } else {
                s[i]
            },
    )
}

/// Recolors every pure-black pixel with a two-stop linear gradient keyed by
/// normalized Manhattan distance from the image center, in place; past the
/// far end of the gradient the endpoint color is used.  All other pixels,
/// including transparent background, are untouched.
pub fn add_gradient(qr: &mut PixelGrid)
    requires
        old(qr).wf(),
        1 <= old(qr).side() <= 0xFFFF_FFFFusize,
    ensures
        final(qr).wf(),
        final(qr).side() == old(qr).side(),
        final(qr)@ == gradient_recolored(
            old(qr)@,
            old(qr).side(),
            gradient_samples(still_gradient_stops(), old(qr).side() + 1),
        ),
{
    let ghost orig = qr@;
    let size = qr.size_px();
    let mut stops: Vec<Rgba> = Vec::new();
    stops.push(Rgba { r: 100, g: 0, b: 100, a: 255 });
    stops.push(Rgba { r: 30, g: 5, b: 60, a: 255 });
    assert(stops@ =~= still_gradient_stops());
    let n = qr.pixels().len();
    proof {
        if size >= 2 {
            assert(size * size >= 2 * size) by (nonlinear_arith)
                requires
                    size >= 2,
            ;
        }
    }
    let table = sample_gradient(&stops, size + 1);
    let ghost tab = table@;
    let center = size / 2;
    for i in 0..n
        invariant
            qr.wf(),
            qr.side() == size,
            size >= 1,
            n == qr@.len(),
            n == orig.len(),
            center == size as int / 2,
            tab == gradient_samples(still_gradient_stops(), size as nat + 1),
            table@ == tab,
            table@.len() == size + 1,
            forall|t: int| 0 <= t < i ==> qr@[t] == gradient_recolored(orig, size as nat, tab)[t],
            forall|t: int| i <= t < n ==> qr@[t] == orig[t],
    {
        proof {
            lemma_flat_index_coords(size as nat, i as nat);
        }
        let x = i % size;
        let y = i / size;
        let c = qr.get(x, y);
        if c == (Rgba { r: 0, g: 0, b: 0, a: 255 }) {
            let dx = if x >= center {
                x - center
            } else {
                center - x
            };
            let dy = if y >= center {
                y - center
            } else {
                center - y
            };
            let d = if dx + dy > size {
                size
            } else {
                dx + dy
            };
            qr.set(x, y, table[d]);
        }
    }
    assert(qr@ =~= gradient_recolored(orig, size as nat, tab));
}

/// The gradient colorizer touches only pixels that were pure opaque black;
/// every other pixel is byte-identical before and after.
pub proof fn lemma_gradient_touches_only_black(s: Seq<Rgba>, size: nat, table: Seq<Rgba>)
    ensures
        gradient_recolored(s, size, table).len() == s.len(),
        forall|i: int|
            0 <= i < s.len() && s[i] != black() ==> gradient_recolored(s, size, table)[i] == s[i],
{
}

} // verus!
