use vstd::prelude::*;

use crate::color::Rgba;
use crate::detect::{get_qr_element_size, lemma_module_size_bounds, module_size_spec};
use crate::errors::QrError;
use crate::grid::{lemma_flat_index_coords, PixelGrid};

verus! {

/// What the external decoder and resizer make of the logo bytes when asked
/// to fit a `target` square: the RGBA pixels, the width and the height, or
/// `None` when the bytes do not decode.  A function of the bytes and the
/// target edge alone.
pub uninterp spec fn logo_render(bytes: Seq<u8>, target: nat) -> Option<(Seq<Rgba>, nat, nat)>;

/// Relies on image's format-guessing reader, `DynamicImage::resize` and the
/// RGBA conversion: decodes the logo bytes and scales them, preserving the
/// aspect ratio with Lanczos resampling, to the largest size that fits a
/// `target` by `target` square; both result edges stay between 1 and
/// `target`.  Whether the bytes decode, and the pixels they decode to, are
/// functions of the bytes and the target edge alone; `None` exactly when
/// the bytes are not a decodable image.
#[verifier::external_body]
fn decode_and_fit(bytes: &[u8], target: usize) -> (r: Option<(Vec<Rgba>, usize, usize)>)
    requires
        1 <= target <= 0xFFFF_FFFFusize,
    ensures
        r is Some <==> logo_render(bytes@, target as nat) is Some,
        r matches Some(t) ==> {
            &&& Some((t.0@, t.1 as nat, t.2 as nat)) == logo_render(bytes@, target as nat)
            &&& 1 <= t.1 <= target
            &&& 1 <= t.2 <= target
            &&& t.0@.len() == t.1 * t.2
        },
{
    let reader = image::io::Reader::new(std::io::Cursor::new(bytes)).with_guessed_format().ok()?;
    let decoded = reader.decode().ok()?;
    let img = decoded.resize(target as u32, target as u32, image::imageops::FilterType::Lanczos3);
    let buf = img.to_rgba8();
    let (w, h) = buf.dimensions();
    let mut px: Vec<Rgba> = Vec::new();
    for p in buf.pixels() {
        px.push(Rgba { r: p.0[0], g: p.0[1], b: p.0[2], a: p.0[3] });
    }
    Some((px, w as usize, h as usize))
}

/// The logo edge after growing from `l` by steps of two modules, stopping
/// as soon as one more step would pass 5/16 of the image edge.
pub open spec fn grown_logo_size(l: nat, m: nat, size: nat) -> nat
    decreases 5 * size / 16 - l,
    when m >= 1
{
    if l + 2 * m <= 5 * size / 16 {
        grown_logo_size((l + 2 * m) as nat, m, size)
    } else {
        l
    }
}

/// The logo edge chosen for module size `m`: one module, grown by two
/// modules at a time within the 5/16 bound.
pub open spec fn logo_size_spec(m: nat, size: nat) -> nat {
    grown_logo_size(m, m, size)
}

/// What the growth loop guarantees: the edge never shrinks, never leaves
/// the 5/16 bound once inside it, and lands inside the bound whenever it
/// grew at all.
pub proof fn lemma_grown_logo_size(l: nat, m: nat, size: nat)
    requires
        m >= 1,
    ensures
        grown_logo_size(l, m, size) >= l,
        l <= 5 * size / 16 ==> grown_logo_size(l, m, size) <= 5 * size / 16,
        grown_logo_size(l, m, size) != l ==> grown_logo_size(l, m, size) <= 5 * size / 16,
    decreases 5 * size / 16 - l,
{
    if l + 2 * m <= 5 * size / 16 {
        lemma_grown_logo_size((l + 2 * m) as nat, m, size);
    }
}

/// The logo footprint bound: when one module fits 5/16 of the image edge,
/// the chosen logo edge `L` also fits it, so `L * L` never exceeds the
/// square of `5 * size / 16` — about 10% of the image area, which quartile
/// error correction tolerates.  Whatever the module size, any edge the loop
/// grew past its starting module respects the bound: the loop accepts a
/// step only when the grown edge stays within it.
pub proof fn lemma_logo_footprint(m: nat, size: nat)
    requires
        m >= 1,
    ensures
        logo_size_spec(m, size) >= m,
        m <= 5 * size / 16 ==> logo_size_spec(m, size) <= 5 * size / 16,
        logo_size_spec(m, size) != m ==> logo_size_spec(m, size) <= 5 * size / 16,
{
    lemma_grown_logo_size(m, m, size);
}

/// Picks the logo edge for module size `m`: start at one module and grow by
/// two modules at a time — keeping the logo centered on module boundaries —
/// while the edge stays within 5/16 of the image edge.
pub fn logo_edge(m: usize, size: usize) -> (l: usize)
    requires
        1 <= m <= size,
        size * size <= usize::MAX,
    ensures
        l == logo_size_spec(m as nat, size as nat),
        m <= l <= size,
{
    proof {
        if size >= 5 {
            assert(size * size >= 5 * size) by (nonlinear_arith)
                requires
                    size >= 5,
            ;
        }
    }
    let bound = 5 * size / 16;
    let mut l = m;
    while l + 2 * m <= bound
        invariant
            1 <= m <= size,
            size * size <= usize::MAX,
            3 * size <= usize::MAX,
            5 * size <= usize::MAX,
            bound == 5 * size / 16,
            bound <= size,
            l == m || l <= bound,
            l >= m,
            grown_logo_size(l as nat, m as nat, size as nat) == logo_size_spec(
                m as nat,
                size as nat,
            ),
        decreases bound - l,
    {
        l = l + 2 * m;
    }
    l
}

/// The buffer after pasting a `lw` by `lh` image over it with its top-left
/// corner at `(x0, y0)`, overwriting the pixels under it.
pub open spec fn pasted(
    s: Seq<Rgba>,
    size: nat,
    logo: Seq<Rgba>,
    lw: nat,
    lh: nat,
    x0: nat,
    y0: nat,
) -> Seq<Rgba> {
    Seq::new(
        s.len(),
        |i: int|
            {
                let x = i % (size as int);
                let y = i / (size as int);
                if x0 <= x < x0 + lw && y0 <= y < y0 + lh {
                    logo[(y - y0) * lw + (x - x0)]
                } else {
                    s[i]
                }
            },
    )
}

/// Pastes `logo` (a `lw` by `lh` row-major buffer) over the grid with its
/// top-left corner at `(x0, y0)`: an opaque composite, not a blend.
pub fn paste(qr: &mut PixelGrid, logo: &Vec<Rgba>, lw: usize, lh: usize, x0: usize, y0: usize)
    requires
        old(qr).wf(),
        logo@.len() == lw * lh,
        x0 + lw <= old(qr).side(),
        y0 + lh <= old(qr).side(),
    ensures
        final(qr).wf(),
        final(qr).side() == old(qr).side(),
        final(qr)@ == pasted(
            old(qr)@,
            old(qr).side(),
            logo@,
            lw as nat,
            lh as nat,
            x0 as nat,
            y0 as nat,
        ),
{
    let ghost orig = qr@;
    let size = qr.size_px();
    let n = qr.pixels().len();
    let llen = logo.len();
    let ghost target = pasted(orig, size as nat, logo@, lw as nat, lh as nat, x0 as nat, y0 as nat);
    for i in 0..n
        invariant
            qr.wf(),
            qr.side() == size,
            n == qr@.len(),
            n == orig.len(),
            logo@.len() == lw * lh,
            llen == logo@.len(),
            x0 + lw <= size,
            y0 + lh <= size,
            target == pasted(orig, size as nat, logo@, lw as nat, lh as nat, x0 as nat, y0 as nat),
            forall|t: int| 0 <= t < i ==> qr@[t] == target[t],
            forall|t: int| i <= t < n ==> qr@[t] == orig[t],
    {
        proof {
            lemma_flat_index_coords(size as nat, i as nat);
        }
        let x = i % size;
        let y = i / size;
        if x0 <= x && x < x0 + lw && y0 <= y && y < y0 + lh {
            proof {
                crate::grid::lemma_row_major_index_in_bounds(
                    (x - x0) as nat,
                    (y - y0) as nat,
                    if lw >= lh {
                        lw as nat
                    } else {
                        lh as nat
                    },
                );
                assert((y - y0) * lw <= lw * lh && (y - y0) * lw + (x - x0) < lw * lh)
                    by (nonlinear_arith)
                    requires
                        x0 <= x < x0 + lw,
                        y0 <= y < y0 + lh,
                ;
            }
            let li = (y - y0) * lw + (x - x0);
            qr.set(x, y, logo[li]);
        }
    }
    assert(qr@ =~= target);
}

/// The detected module size, the logo edge grown from it, and the rendered
/// logo pasted centered: what `add_logo` leaves behind on success.
pub open spec fn with_logo(s: Seq<Rgba>, size: nat, bytes: Seq<u8>) -> Seq<Rgba> {
    let m = module_size_spec(s, size);
    let l = logo_size_spec(m, size);
    let rendered = logo_render(bytes, l)->Some_0;
    pasted(
        s,
        size,
        rendered.0,
        rendered.1,
        rendered.2,
        (((size - l) / 2) as nat),
        (((size - l) / 2) as nat),
    )
}

/// Whether the logo bytes decode for the edge the compositor would ask of
/// this bitmap: when `add_logo` succeeds.
pub open spec fn logo_fits(s: Seq<Rgba>, size: nat, bytes: Seq<u8>) -> bool {
    logo_render(bytes, logo_size_spec(module_size_spec(s, size), size)) is Some
}

/// Detects the module size, grows the logo edge from it, asks the external
/// facility to decode and fit the logo, and pastes it centered over the
/// image, in place.  Fails — leaving the image untouched — exactly when the
/// logo bytes do not decode, an asset defect rather than a user error.
pub fn add_logo(qr: &mut PixelGrid, logo: &[u8]) -> (r: Result<(), QrError>)
    requires
        old(qr).wf(),
        1 <= old(qr).side() <= 0xFFFF_FFFFusize,
    ensures
        final(qr).wf(),
        final(qr).side() == old(qr).side(),
        r is Ok <==> logo_fits(old(qr)@, old(qr).side(), logo@),
        r is Ok ==> final(qr)@ == with_logo(old(qr)@, old(qr).side(), logo@),
        r is Err ==> r == Err::<(), QrError>(QrError::AssetDecode) && final(qr)@ == old(qr)@,
{
    let size = qr.size_px();
    let n = qr.pixels().len();
    let m = get_qr_element_size(qr);
    proof {
        lemma_module_size_bounds(qr@, size as nat);
    }
    let l = logo_edge(m, size);
    match decode_and_fit(logo, l) {
        Some((px, lw, lh)) => {
            let x0 = (size - l) / 2;
            proof {
                assert(x0 + l <= size);
            }
            paste(qr, &px, lw, lh, x0, x0);
            Ok(())
        },
        None => Err(QrError::AssetDecode),
    }
}

} // verus!
