use vstd::prelude::*;

use crate::color::{black, black_pixel, Rgba};
use crate::grid::PixelGrid;

verus! {

/// The pixel of a row-major square buffer at column `x`, row `y`.
pub open spec fn pix(s: Seq<Rgba>, size: nat, x: int, y: int) -> Rgba {
    s[y * size + x]
}

/// The pixel on the main diagonal at offset `i`.
pub open spec fn diag(s: Seq<Rgba>, size: nat, i: nat) -> Rgba {
    pix(s, size, i as int, i as int)
}

/// The first index at or after `i` whose diagonal pixel is pure black, or
/// `size` when the diagonal stays free of black.
pub open spec fn first_black_from(s: Seq<Rgba>, size: nat, i: nat) -> nat
    decreases size - i,
{
    if i >= size {
        size
    } else if diag(s, size, i) == black() {
        i
    } else {
        first_black_from(s, size, i + 1)
    }
}

/// Where the diagonal enters the finder pattern: the first black diagonal
/// pixel, or `size` when there is none.
pub open spec fn diag_start(s: Seq<Rgba>, size: nat) -> nat {
    first_black_from(s, size, 0)
}

/// Scanning diagonal offsets `j, j + 1, ...` past `start`: the first offset
/// whose pixel is not black, or 1 when the color never changes before the
/// border.
pub open spec fn first_change_from(s: Seq<Rgba>, size: nat, start: nat, j: nat) -> nat
    decreases size - start - j,
{
    if j >= size - start {
        1
    } else if diag(s, size, start + j) != black() {
        j
    } else {
        first_change_from(s, size, start, j + 1)
    }
}

/// The module size the detector reads off a bitmap: the length of the first
/// black run on the main diagonal.
pub open spec fn module_size_spec(s: Seq<Rgba>, size: nat) -> nat {
    first_change_from(s, size, diag_start(s, size), 0)
}

/// A finder pattern is visible on the diagonal: some black pixel, and after
/// the first one some later pixel of another color.
pub open spec fn pattern_detectable(s: Seq<Rgba>, size: nat) -> bool {
    &&& diag_start(s, size) < size
    &&& exists|j: int|
        0 <= j < size - diag_start(s, size) && #[trigger] diag(
            s,
            size,
            (diag_start(s, size) + j) as nat,
        ) != black()
}

/// Returns the pixel size of one QR module by walking the main diagonal from
/// the top-left corner: the quiet zone is background, so the first black
/// pixel marks the finder pattern, and the offset at which the color first
/// changes again is the module size.  Without a black pixel, or without a
/// later color change, the result degenerates to 1.
pub fn get_qr_element_size(qr: &PixelGrid) -> (m: usize)
    requires
        qr.wf(),
    ensures
        m == module_size_spec(qr@, qr.side()),
{
    let size = qr.size_px();

    // Find the first black pixel on the diagonal.
    let mut start: usize = 0;
    while start < size && qr.get(start, start) != black_pixel()
        invariant
            qr.wf(),
            size == qr.side(),
            start <= size,
            first_black_from(qr@, size as nat, 0) == first_black_from(
                qr@,
                size as nat,
                start as nat,
            ),
        decreases size - start,
    {
        start += 1;
    }
    assert(start == diag_start(qr@, size as nat));

    // Continue until the color switches.
    let mut j: usize = 0;
    while j < size - start && qr.get(start + j, start + j) == black_pixel()
        invariant
            qr.wf(),
            size == qr.side(),
            start <= size,
            start == diag_start(qr@, size as nat),
            j <= size - start,
            first_change_from(qr@, size as nat, start as nat, 0) == first_change_from(
                qr@,
                size as nat,
                start as nat,
                j as nat,
            ),
        decreases size - start - j,
    {
        j += 1;
    }
    if j < size - start {
        j
    } else {
        1
    }
}

/// What the first-black scan guarantees: nothing before the result is black,
/// and the result itself is black unless the scan ran off the border.
pub proof fn lemma_first_black_props(s: Seq<Rgba>, size: nat, i: nat)
    requires
        i <= size,
    ensures
        i <= first_black_from(s, size, i) <= size,
        first_black_from(s, size, i) < size ==> diag(s, size, first_black_from(s, size, i))
            == black(),
        forall|t: nat|
            i <= t < first_black_from(s, size, i) ==> diag(s, size, t) != black(),
    decreases size - i,
{
    if i < size && diag(s, size, i) != black() {
        lemma_first_black_props(s, size, i + 1);
    }
}

/// Skipping a run of non-black diagonal pixels does not move the first black
/// index.
proof fn lemma_first_black_run(s: Seq<Rgba>, size: nat, i: nat, j: nat)
    requires
        i <= j <= size,
        forall|t: nat| i <= t < j ==> diag(s, size, t) != black(),
    ensures
        first_black_from(s, size, i) == first_black_from(s, size, j),
    decreases j - i,
{
    if i < j {
        assert(diag(s, size, i) != black());
        lemma_first_black_run(s, size, i + 1, j);
    }
}

/// Skipping a run of black diagonal pixels does not move the first change
/// offset.
proof fn lemma_first_change_run(s: Seq<Rgba>, size: nat, start: nat, j1: nat, j2: nat)
    requires
        j1 <= j2,
        j2 <= size - start,
        forall|t: nat| j1 <= t < j2 ==> #[trigger] diag(s, size, (start + t) as nat) == black(),
    ensures
        first_change_from(s, size, start, j1) == first_change_from(s, size, start, j2),
    decreases j2 - j1,
{
    if j1 < j2 {
        assert(diag(s, size, (start + j1) as nat) == black());
        lemma_first_change_run(s, size, start, j1 + 1, j2);
    }
}

/// What the change scan returns when a change exists at or after `j`: the
/// least offset in `[j, size - start)` whose pixel is not black.
pub proof fn lemma_first_change_props(s: Seq<Rgba>, size: nat, start: nat, j: nat, c: nat)
    requires
        j <= c,
        c < size - start,
        diag(s, size, (start + c) as nat) != black(),
    ensures
        j <= first_change_from(s, size, start, j) <= c,
        diag(s, size, (start + first_change_from(s, size, start, j)) as nat) != black(),
        forall|t: nat|
            j <= t < first_change_from(s, size, start, j) ==> #[trigger] diag(
                s,
                size,
                (start + t) as nat,
            ) == black(),
    decreases c - j,
{
    if diag(s, size, (start + j) as nat) == black() {
        lemma_first_change_props(s, size, start, j + 1, c);
    }
}

/// The change scan either degenerates to 1 or stops strictly before the
/// border.
proof fn lemma_first_change_range(s: Seq<Rgba>, size: nat, start: nat, j: nat)
    ensures
        first_change_from(s, size, start, j) == 1 || (j <= first_change_from(s, size, start, j)
            && first_change_from(s, size, start, j) < size - start),
    decreases size - start - j,
{
    if j >= size - start {
    } else if diag(s, size, (start + j) as nat) != black() {
    } else {
        lemma_first_change_range(s, size, start, j + 1);
    }
}

/// On any non-empty bitmap the detector returns between 1 and `size`.
pub proof fn lemma_module_size_bounds(s: Seq<Rgba>, size: nat)
    requires
        size >= 1,
    ensures
        1 <= module_size_spec(s, size) <= size,
{
    let start = diag_start(s, size);
    lemma_first_black_props(s, size, 0);
    if start < size {
        assert(diag(s, size, start) == black());
        lemma_first_change_range(s, size, start, 1);
    }
}

/// `t` is `s` scaled up by the integer factor `k`: pixel `(x, y)` of `t` is
/// pixel `(x / k, y / k)` of `s`.
pub open spec fn is_scaled_by(s: Seq<Rgba>, size: nat, t: Seq<Rgba>, k: nat) -> bool {
    &&& t.len() == (k * size) * (k * size)
    &&& forall|x: int, y: int|
        0 <= x < k * size && 0 <= y < k * size ==> #[trigger] pix(t, (k * size) as nat, x, y)
            == pix(s, size, x / (k as int), y / (k as int))
}

/// A diagonal pixel of the scaled bitmap shows the diagonal pixel of the
/// source module it falls into.
proof fn lemma_scaled_diag(s: Seq<Rgba>, size: nat, t: Seq<Rgba>, k: nat, i: nat, a: nat)
    requires
        is_scaled_by(s, size, t, k),
        k >= 1,
        a < size,
        k * a <= i < k * a + k,
    ensures
        diag(t, (k * size) as nat, i) == diag(s, size, a),
{
    assert(i as int == (a as int) * (k as int) + (i - k * a)) by (nonlinear_arith)
        requires
            k * a <= i,
    ;
    vstd::arithmetic::div_mod::lemma_fundamental_div_mod_converse(
        i as int,
        k as int,
        a as int,
        i - k * a,
    );
    assert(k * a + k <= k * size) by (nonlinear_arith)
        requires
            a < size,
            k >= 1,
    ;
    assert(pix(t, (k * size) as nat, i as int, i as int) == pix(
        s,
        size,
        i as int / (k as int),
        i as int / (k as int),
    ));
}

/// The first black diagonal index scales with the bitmap.
proof fn lemma_scaled_first_black(s: Seq<Rgba>, size: nat, t: Seq<Rgba>, k: nat, a: nat)
    requires
        is_scaled_by(s, size, t, k),
        k >= 1,
        a <= size,
    ensures
        first_black_from(t, (k * size) as nat, (k * a) as nat) == k * first_black_from(
            s,
            size,
            a,
        ),
    decreases size - a,
{
    let ksize = (k * size) as nat;
    if a >= size {
        assert(k * a >= k * size) by (nonlinear_arith)
            requires
                a >= size,
                k >= 0,
        ;
    } else if diag(s, size, a) == black() {
        assert(k * a < k * size) by (nonlinear_arith)
            requires
                a < size,
                k >= 1,
        ;
        lemma_scaled_diag(s, size, t, k, (k * a) as nat, a);
    } else {
        assert forall|o: nat| k * a <= o < k * a + k implies diag(t, ksize, o) != black() by {
            lemma_scaled_diag(s, size, t, k, o, a);
        };
        assert(k * (a + 1) == k * a + k) by (nonlinear_arith);
        assert(k * (a + 1) <= k * size) by (nonlinear_arith)
            requires
                a + 1 <= size,
                k >= 0,
        ;
        lemma_first_black_run(t, ksize, (k * a) as nat, (k * a + k) as nat);
        lemma_scaled_first_black(s, size, t, k, a + 1);
    }
}

/// As long as a later color change exists, the first change offset scales
/// with the bitmap.
proof fn lemma_scaled_first_change(
    s: Seq<Rgba>,
    size: nat,
    t: Seq<Rgba>,
    k: nat,
    start: nat,
    j: nat,
    c: nat,
)
    requires
        is_scaled_by(s, size, t, k),
        k >= 1,
        start < size,
        j <= c,
        c < size - start,
        diag(s, size, (start + c) as nat) != black(),
    ensures
        first_change_from(t, (k * size) as nat, (k * start) as nat, (k * j) as nat) == k
            * first_change_from(s, size, start, j),
    decreases c - j,
{
    let ksize = (k * size) as nat;
    let kstart = (k * start) as nat;
    assert(k * start + k * j == k * (start + j) && k * j + k == k * (j + 1) && k * (start + j) + k
        == k * (start + j + 1)) by (nonlinear_arith);
    if diag(s, size, (start + j) as nat) != black() {
        assert(k * j < k * size - k * start) by (nonlinear_arith)
            requires
                j < size - start,
                k >= 1,
        ;
        lemma_scaled_diag(s, size, t, k, (k * start + k * j) as nat, (start + j) as nat);
    } else {
        assert forall|o: nat| k * j <= o < k * j + k implies #[trigger] diag(
            t,
            ksize,
            (kstart + o) as nat,
        ) == black() by {
            lemma_scaled_diag(s, size, t, k, (kstart + o) as nat, (start + j) as nat);
        };
        assert(k * (j + 1) <= k * size - k * start) by (nonlinear_arith)
            requires
                j + 1 <= size - start,
                k >= 1,
        ;
        lemma_first_change_run(t, ksize, kstart, (k * j) as nat, (k * j + k) as nat);
        lemma_scaled_first_change(s, size, t, k, start, j + 1, c);
    }
}

/// Scaling invariance of the module-size detector: on a bitmap whose
/// diagonal shows a finder pattern the detector returns a positive module
/// size, and on the same bitmap scaled up by any integer factor `k` it
/// returns exactly `k` times as much.
pub proof fn lemma_module_size_scales(s: Seq<Rgba>, size: nat, t: Seq<Rgba>, k: nat)
    requires
        is_scaled_by(s, size, t, k),
        k >= 1,
        pattern_detectable(s, size),
    ensures
        module_size_spec(s, size) >= 1,
        module_size_spec(t, (k * size) as nat) == k * module_size_spec(s, size),
{
    lemma_module_size_pos(s, size);
    let start = diag_start(s, size);
    lemma_scaled_first_black(s, size, t, k, 0);
    assert(diag_start(t, (k * size) as nat) == k * start);
    let c = choose|c: int|
        0 <= c < size - start && #[trigger] diag(s, size, (start + c) as nat) != black();
    lemma_scaled_first_change(s, size, t, k, start, 0, c as nat);
}

/// With a detectable pattern the detector returns a positive module size.
pub proof fn lemma_module_size_pos(s: Seq<Rgba>, size: nat)
    requires
        pattern_detectable(s, size),
    ensures
        module_size_spec(s, size) >= 1,
{
    let start = diag_start(s, size);
    let j = choose|j: int|
        0 <= j < size - start && #[trigger] diag(s, size, (start + j) as nat) != black();
    lemma_first_black_props(s, size, 0);
    lemma_first_change_props(s, size, start, 0, j as nat);
    let m = first_change_from(s, size, start, 0);
    if m == 0 {
        assert(diag(s, size, start) != black());
    }
}

} // verus!
