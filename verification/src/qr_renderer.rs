//! Drawing a login QR code as text: from a picture the provider sends, by
//! finding the code's modules in its pixels, or from a URL, by encoding it.
use vstd::prelude::*;
use crate::text::{join, join_strings, push_str, to_owned_string, views};

verus! {

/// What a provider hands over to show as a QR code.
pub enum QrData {
    /// An encoded picture of the code.
    Image(Vec<u8>),
    /// The text that the code stands for.
    Url(String),
}

/// The grey values of a picture decoded by the `image` crate, as width,
/// height and row-major pixels, or none when it cannot be decoded.
pub uninterp spec fn decoded_luma(bytes: Seq<u8>) -> Option<(u32, u32, Seq<u8>)>;

/// Decodes a picture with `image::load_from_memory` and converts it to 8-bit
/// grey with `to_luma8`. Claimed: the result is a function of the bytes
/// (named `decoded_luma`), and an image buffer holds at least width × height
/// values, pixel (x, y) at index `y * width + x`.
#[verifier::external_body]
fn decode_luma(bytes: &[u8]) -> (res: Option<(u32, u32, Vec<u8>)>)
    ensures
        match res {
            Some((w, h, p)) => decoded_luma(bytes@) == Some((w, h, p@)) && p@.len() >= w * h,
            None => decoded_luma(bytes@) is None,
        },
{
    match image::load_from_memory(bytes) {
        Ok(img) => {
            let luma = img.to_luma8();
            let (w, h) = luma.dimensions();
            Some((w, h, luma.into_raw()))
        },
        Err(_) => None,
    }
}

/// The modules of the QR code that the `qrcode` crate makes for a text: its
/// width and the dark flags row by row, or none when the text does not fit.
pub uninterp spec fn qr_modules(data: Seq<char>) -> Option<(usize, Seq<bool>)>;

/// Encodes a text with `qrcode::QrCode::new` (medium error correction, the
/// smallest version that holds it) and reads its modules with `width` and
/// `to_colors`. Claimed: the result is a function of the text (named
/// `qr_modules`), none exactly when `new` fails, and there are width × width
/// modules, row by row, dark ones `true`.
#[verifier::external_body]
fn encode_qr(url: &str) -> (res: Option<(usize, Vec<bool>)>)
    ensures
        match res {
            Some((w, m)) => qr_modules(url@) == Some((w, m@)) && m@.len() == w * w,
            None => qr_modules(url@) is None,
        },
{
    match qrcode::QrCode::new(url) {
        Ok(code) => Some((code.width(), code.to_colors().into_iter().map(|c| c == qrcode::Color::Dark).collect())),
        Err(_) => None,
    }
}

/// The text shown when a picture cannot be turned into a code.
pub open spec fn unreadable_text() -> Seq<char> {
    "  (无法显示二维码)"@
}

/// One module drawn as two characters: a full block or two spaces.
pub open spec fn cell_text(dark: bool) -> Seq<char> {
    if dark { "██"@ } else { "  "@ }
}

/// A row of modules as text.
pub open spec fn row_text(row: Seq<bool>) -> Seq<char>
    decreases row.len(),
{
    if row.len() == 0 {
        Seq::empty()
    } else {
        row_text(row.drop_last()) + cell_text(row.last())
    }
}

/// A grid of modules as text, one line per row.
pub open spec fn grid_text(grid: Seq<Seq<bool>>) -> Seq<char> {
    join(grid.map_values(|r: Seq<bool>| row_text(r)), "\n"@)
}

/// Pixel (x, y) lies in the picture and is dark (grey value below 128).
pub open spec fn is_black(w: u32, h: u32, p: Seq<u8>, x: int, y: int) -> bool {
    0 <= x < w && 0 <= y < h && p[y * w + x] < 128
}

/// Some pixel of row `y` is dark.
pub open spec fn row_black(w: u32, h: u32, p: Seq<u8>, y: int) -> bool {
    exists|x: int| #[trigger] is_black(w, h, p, x, y)
}

/// Some pixel of column `x` between rows `top` and `bottom` is dark.
pub open spec fn col_black(w: u32, h: u32, p: Seq<u8>, x: int, top: int, bottom: int) -> bool {
    exists|y: int| top <= y <= bottom && #[trigger] is_black(w, h, p, x, y)
}

/// The first row with a dark pixel, or 0.
#[verifier::opaque]
pub open spec fn spec_top(w: u32, h: u32, p: Seq<u8>) -> int {
    if exists|y: int| #[trigger] row_black(w, h, p, y) {
        choose|y: int| row_black(w, h, p, y) && forall|z: int| z < y ==> !#[trigger] row_black(w, h, p, z)
    } else {
        0
    }
}

/// The last row with a dark pixel, or the last row (0 for an empty picture).
#[verifier::opaque]
pub open spec fn spec_bottom(w: u32, h: u32, p: Seq<u8>) -> int {
    if exists|y: int| #[trigger] row_black(w, h, p, y) {
        choose|y: int| row_black(w, h, p, y) && forall|z: int| z > y ==> !#[trigger] row_black(w, h, p, z)
    } else if h > 0 {
        h - 1
    } else {
        0
    }
}

/// The first column with a dark pixel between `top` and `bottom`, or 0.
#[verifier::opaque]
pub open spec fn spec_left(w: u32, h: u32, p: Seq<u8>, top: int, bottom: int) -> int {
    if exists|x: int| #[trigger] col_black(w, h, p, x, top, bottom) {
        choose|x: int| col_black(w, h, p, x, top, bottom) && forall|z: int| z < x ==> !#[trigger] col_black(w, h, p, z, top, bottom)
    } else {
        0
    }
}

/// The last column with a dark pixel between `top` and `bottom`, or the last
/// column (0 for an empty picture).
#[verifier::opaque]
pub open spec fn spec_right(w: u32, h: u32, p: Seq<u8>, top: int, bottom: int) -> int {
    if exists|x: int| #[trigger] col_black(w, h, p, x, top, bottom) {
        choose|x: int| col_black(w, h, p, x, top, bottom) && forall|z: int| z > x ==> !#[trigger] col_black(w, h, p, z, top, bottom)
    } else if w > 0 {
        w - 1
    } else {
        0
    }
}

/// The side of the `k`-th QR version, `21 + 4k`, for `k` in `0..40`.
pub open spec fn version_side(k: int) -> int {
    21 + 4 * k
}

/// What is left of `avg` pixels after the most whole modules of version `k`.
pub open spec fn side_rem(avg: int, k: int) -> int {
    avg % version_side(k)
}

/// Version `k` is the first among those that fit into `avg` modules whose
/// side leaves the smallest remainder.
pub open spec fn best_version(avg: int, k: int) -> bool {
    &&& 0 <= k < 40
    &&& version_side(k) <= avg
    &&& forall|j: int| 0 <= j < 40 && version_side(j) <= avg ==> side_rem(avg, k) <= #[trigger] side_rem(avg, j)
    &&& forall|j: int| 0 <= j < k && version_side(j) <= avg ==> side_rem(avg, k) < #[trigger] side_rem(avg, j)
}

/// The estimated pixel size of a module for a code of `cw` × `ch` pixels: the
/// average side divided by the side of the QR version that fits it best;
/// 1 when no version fits.
pub open spec fn spec_block_size(cw: u32, ch: u32) -> int {
    let avg = (cw + ch) / 2;
    if avg < 21 {
        1
    } else {
        avg / version_side(choose|k: int| best_version(avg, k))
    }
}

/// Estimates the pixel size of one module of the code.
pub fn estimate_block_size(cw: u32, ch: u32) -> (res: u32)
    requires
        cw + ch <= u32::MAX,
    ensures
        res as int == spec_block_size(cw, ch),
        res >= 1,
{
    let avg = (cw + ch) / 2;
    let ghost a = avg as int;
    let mut best_diff = u32::MAX;
    let mut best_bs = 1u32;
    let mut best_k: usize = 0;
    let mut k: usize = 0;
    while k < 40
        invariant
            k <= 40,
            a == avg as int,
            avg == (cw + ch) / 2,
            best_bs >= 1,
            best_diff == u32::MAX <==> (k == 0 || a < 21),
            best_diff < u32::MAX ==> {
                &&& best_k < k
                &&& version_side(best_k as int) <= a
                &&& best_diff == side_rem(a, best_k as int)
                &&& best_bs == a / version_side(best_k as int)
                &&& forall|j: int| 0 <= j < k && version_side(j) <= a ==> best_diff <= #[trigger] side_rem(a, j)
                &&& forall|j: int| 0 <= j < best_k && version_side(j) <= a ==> best_diff < #[trigger] side_rem(a, j)
            },
            best_diff == u32::MAX ==> best_bs == 1,
        decreases 40 - k,
    {
        let vs: u32 = 21 + 4 * (k as u32);
        assert(vs as int == version_side(k as int));
        let bs = avg / vs;
        if bs != 0 {
            proof {
                assert(bs * vs <= avg) by (nonlinear_arith)
                    requires bs == avg / vs, vs > 0;
                assert(vs <= avg) by (nonlinear_arith)
                    requires bs == avg / vs, bs != 0, vs > 0;
            }
            let est = bs * vs;
            proof {
                assert(est as int == a - a % (vs as int)) by (nonlinear_arith)
                    requires bs == avg / vs, est == bs * vs, vs > 0, a == avg as int;
                assert(a % (vs as int) < vs);
            }
            let diff = avg - est;
            assert(diff as int == side_rem(a, k as int));
            let ghost old_diff = best_diff;
            let ghost old_k = best_k;
            if diff < best_diff {
                best_diff = diff;
                best_bs = bs;
                best_k = k;
            }
            proof {
                assert forall|j: int| 0 <= j < k + 1 && version_side(j) <= a implies best_diff <= #[trigger] side_rem(a, j) by {
                    if j < k {
                        assert(old_diff <= side_rem(a, j));
                    }
                }
                assert forall|j: int| 0 <= j < best_k && version_side(j) <= a implies best_diff < #[trigger] side_rem(a, j) by {
                    if best_k == k && old_diff < u32::MAX {
                        assert(old_diff <= side_rem(a, j));
                    }
                }
            }
        } else {
            proof {
                assert(avg < vs) by (nonlinear_arith)
                    requires bs == avg / vs, bs == 0, vs > 0;
                assert forall|j: int| 0 <= j < k + 1 && version_side(j) <= a implies best_diff <= #[trigger] side_rem(a, j) by {
                }
            }
        }
        k += 1;
    }
    proof {
        if a < 21 {
        } else {
            assert(best_version(a, best_k as int));
            let c = choose|c: int| best_version(a, c);
            if c < best_k {
                assert(side_rem(a, best_k as int) < side_rem(a, c));
            } else if c > best_k {
                assert(side_rem(a, c) < side_rem(a, best_k as int));
            }
            assert(best_bs >= 1) by (nonlinear_arith)
                requires best_bs == a / version_side(best_k as int), version_side(best_k as int) <= a, version_side(best_k as int) > 0;
        }
    }
    best_bs
}

/// Dark and total counts of the in-picture pixels `(x0 .. x0 + n, y)`.
pub open spec fn row_counts(w: u32, h: u32, p: Seq<u8>, x0: int, y: int, n: nat) -> (nat, nat)
    decreases n,
{
    if n == 0 {
        (0, 0)
    } else {
        let (b, t) = row_counts(w, h, p, x0, y, (n - 1) as nat);
        let x = x0 + n - 1;
        if x < w && y < h {
            (if is_black(w, h, p, x, y) { b + 1 } else { b }, t + 1)
        } else {
            (b, t)
        }
    }
}

/// Dark and total counts of the in-picture pixels of the block with corner
/// `(x0, y0)`, side `bs`, rows `y0 .. y0 + m`.
pub open spec fn block_counts(w: u32, h: u32, p: Seq<u8>, x0: int, y0: int, bs: nat, m: nat) -> (nat, nat)
    decreases m,
{
    if m == 0 {
        (0, 0)
    } else {
        let (b, t) = block_counts(w, h, p, x0, y0, bs, (m - 1) as nat);
        let (rb, rt) = row_counts(w, h, p, x0, y0 + m - 1, bs);
        (b + rb, t + rt)
    }
}

/// A module is dark when more than half of its pixels are.
pub open spec fn cell_dark(w: u32, h: u32, p: Seq<u8>, x0: int, y0: int, bs: nat) -> bool {
    let (b, t) = block_counts(w, h, p, x0, y0, bs, bs);
    t > 0 && b * 2 > t
}

/// One row of modules, the first at `left`, all at height `y0`.
pub open spec fn module_row(w: u32, h: u32, p: Seq<u8>, left: int, y0: int, bs: nat, cols: nat) -> Seq<bool> {
    Seq::new(cols, |c: int| cell_dark(w, h, p, left + c * bs, y0, bs))
}

/// The module grid read from a picture whose code starts at `(left, top)`.
pub open spec fn module_grid(w: u32, h: u32, p: Seq<u8>, left: int, top: int, bs: nat, cols: nat, rows: nat) -> Seq<Seq<bool>> {
    Seq::new(rows, |r: int| module_row(w, h, p, left, top + r * bs, bs, cols))
}

/// Width plus height of the box that encloses the dark pixels; the drawing
/// adds them in 32 bits.
pub open spec fn crop_sum(w: u32, h: u32, p: Seq<u8>) -> int {
    let top = spec_top(w, h, p);
    let bottom = spec_bottom(w, h, p);
    let left = spec_left(w, h, p, top, bottom);
    let right = spec_right(w, h, p, top, bottom);
    (right - left + 1) + (bottom - top + 1)
}

/// The text drawn for the code in the box from `(left, top)` to
/// `(right, bottom)`: the box is cut into modules of the estimated size, and
/// each module drawn dark when most of its pixels are.
pub open spec fn spec_render_box(w: u32, h: u32, p: Seq<u8>, top: int, bottom: int, left: int, right: int) -> Seq<char> {
    let cw = (right - left + 1) as u32;
    let ch = (bottom - top + 1) as u32;
    let bs = spec_block_size(cw, ch);
    let cols = (cw as int) / bs;
    let rows = (ch as int) / bs;
    if cols == 0 || rows == 0 {
        unreadable_text()
    } else {
        grid_text(module_grid(w, h, p, left, top, bs as nat, cols as nat, rows as nat))
    }
}

/// The text drawn for a grey picture: the code is cropped to its dark pixels
/// and drawn module by module.
pub open spec fn spec_render_luma(w: u32, h: u32, p: Seq<u8>) -> Seq<char> {
    let top = spec_top(w, h, p);
    let bottom = spec_bottom(w, h, p);
    spec_render_box(w, h, p, top, bottom, spec_left(w, h, p, top, bottom), spec_right(w, h, p, top, bottom))
}

proof fn lemma_pixel_index(w: u32, h: u32, x: int, y: int)
    requires
        0 <= x < w,
        0 <= y < h,
    ensures
        0 <= y * w + x < w * h,
{
    assert(y * w + x < w * h) by (nonlinear_arith)
        requires 0 <= x < w, 0 <= y < h;
    assert(0 <= y * w) by (nonlinear_arith)
        requires 0 <= y, w >= 0;
}

/// Whether pixel (x, y) is dark.
fn black_at(w: u32, h: u32, p: &Vec<u8>, x: u32, y: u32) -> (res: bool)
    requires
        p@.len() >= w * h,
    ensures
        res == is_black(w, h, p@, x as int, y as int),
{
    if x >= w || y >= h {
        return false;
    }
    proof {
        lemma_pixel_index(w, h, x as int, y as int);
    }
    // The buffer's length bounds the index, so the index fits in `usize`.
    let len = p.len();
    assert(y * w + x < len);
    let i = (y as usize) * (w as usize) + (x as usize);
    p[i] < 128
}

/// Whether row `y` has a dark pixel.
fn row_has_black(w: u32, h: u32, p: &Vec<u8>, y: u32) -> (res: bool)
    requires
        p@.len() >= w * h,
    ensures
        res == row_black(w, h, p@, y as int),
{
    let mut x: u32 = 0;
    while x < w
        invariant
            x <= w,
            p@.len() >= w * h,
            forall|z: int| 0 <= z < x ==> !#[trigger] is_black(w, h, p@, z, y as int),
        decreases w - x,
    {
        if black_at(w, h, p, x, y) {
            return true;
        }
        x += 1;
    }
    assert forall|z: int| !#[trigger] is_black(w, h, p@, z, y as int) by {}
    false
}

/// Whether column `x` has a dark pixel in rows `top..=bottom`.
fn col_has_black(w: u32, h: u32, p: &Vec<u8>, x: u32, top: u32, bottom: u32) -> (res: bool)
    requires
        p@.len() >= w * h,
        top <= bottom,
    ensures
        res == col_black(w, h, p@, x as int, top as int, bottom as int),
{
    let mut y: u32 = top;
    loop
        invariant
            top <= y <= bottom,
            p@.len() >= w * h,
            forall|z: int| top <= z < y ==> !#[trigger] is_black(w, h, p@, x as int, z),
        decreases bottom - y,
    {
        if black_at(w, h, p, x, y) {
            return true;
        }
        if y == bottom {
            return false;
        }
        y += 1;
    }
}

/// No row outside the picture has a dark pixel.
proof fn lemma_rows_outside(w: u32, h: u32, p: Seq<u8>)
    ensures
        forall|z: int| (z < 0 || z >= h) ==> !#[trigger] row_black(w, h, p, z),
{
    assert forall|z: int| (z < 0 || z >= h) implies !#[trigger] row_black(w, h, p, z) by {
        if row_black(w, h, p, z) {
            let x = choose|x: int| #[trigger] is_black(w, h, p, x, z);
        }
    }
}

/// No column outside the picture has a dark pixel.
proof fn lemma_cols_outside(w: u32, h: u32, p: Seq<u8>, top: int, bottom: int)
    ensures
        forall|z: int| (z < 0 || z >= w) ==> !#[trigger] col_black(w, h, p, z, top, bottom),
{
    assert forall|z: int| (z < 0 || z >= w) implies !#[trigger] col_black(w, h, p, z, top, bottom) by {
        if col_black(w, h, p, z, top, bottom) {
            let y = choose|y: int| top <= y <= bottom && #[trigger] is_black(w, h, p, z, y);
        }
    }
}

/// The first row with a dark pixel.
fn first_black_row(w: u32, h: u32, p: &Vec<u8>) -> (res: Option<u32>)
    requires
        p@.len() >= w * h,
    ensures
        match res {
            Some(y) => y < h && row_black(w, h, p@, y as int) && forall|z: int| z < y ==> !#[trigger] row_black(w, h, p@, z),
            None => forall|z: int| !#[trigger] row_black(w, h, p@, z),
        },
{
    proof {
        lemma_rows_outside(w, h, p@);
    }
    let mut y: u32 = 0;
    while y < h
        invariant
            y <= h,
            p@.len() >= w * h,
            forall|z: int| z < y ==> !#[trigger] row_black(w, h, p@, z),
        decreases h - y,
    {
        if row_has_black(w, h, p, y) {
            return Some(y);
        }
        y += 1;
    }
    None
}

/// The last row with a dark pixel.
fn last_black_row(w: u32, h: u32, p: &Vec<u8>) -> (res: Option<u32>)
    requires
        p@.len() >= w * h,
    ensures
        match res {
            Some(y) => y < h && row_black(w, h, p@, y as int) && forall|z: int| z > y ==> !#[trigger] row_black(w, h, p@, z),
            None => forall|z: int| !#[trigger] row_black(w, h, p@, z),
        },
{
    proof {
        lemma_rows_outside(w, h, p@);
    }
    let mut y: u32 = h;
    while y > 0
        invariant
            y <= h,
            p@.len() >= w * h,
            forall|z: int| z >= y ==> !#[trigger] row_black(w, h, p@, z),
        decreases y,
    {
        if row_has_black(w, h, p, y - 1) {
            return Some(y - 1);
        }
        y -= 1;
    }
    None
}

/// The first column with a dark pixel between `top` and `bottom`.
fn first_black_col(w: u32, h: u32, p: &Vec<u8>, top: u32, bottom: u32) -> (res: Option<u32>)
    requires
        p@.len() >= w * h,
        top <= bottom,
    ensures
        match res {
            Some(x) => x < w && col_black(w, h, p@, x as int, top as int, bottom as int) && forall|z: int|
                z < x ==> !#[trigger] col_black(w, h, p@, z, top as int, bottom as int),
            None => forall|z: int| !#[trigger] col_black(w, h, p@, z, top as int, bottom as int),
        },
{
    proof {
        lemma_cols_outside(w, h, p@, top as int, bottom as int);
    }
    let mut x: u32 = 0;
    while x < w
        invariant
            x <= w,
            top <= bottom,
            p@.len() >= w * h,
            forall|z: int| z < x ==> !#[trigger] col_black(w, h, p@, z, top as int, bottom as int),
        decreases w - x,
    {
        if col_has_black(w, h, p, x, top, bottom) {
            return Some(x);
        }
        x += 1;
    }
    None
}

/// The last column with a dark pixel between `top` and `bottom`.
fn last_black_col(w: u32, h: u32, p: &Vec<u8>, top: u32, bottom: u32) -> (res: Option<u32>)
    requires
        p@.len() >= w * h,
        top <= bottom,
    ensures
        match res {
            Some(x) => x < w && col_black(w, h, p@, x as int, top as int, bottom as int) && forall|z: int|
                z > x ==> !#[trigger] col_black(w, h, p@, z, top as int, bottom as int),
            None => forall|z: int| !#[trigger] col_black(w, h, p@, z, top as int, bottom as int),
        },
{
    proof {
        lemma_cols_outside(w, h, p@, top as int, bottom as int);
    }
    let mut x: u32 = w;
    while x > 0
        invariant
            x <= w,
            top <= bottom,
            p@.len() >= w * h,
            forall|z: int| z >= x ==> !#[trigger] col_black(w, h, p@, z, top as int, bottom as int),
        decreases x,
    {
        if col_has_black(w, h, p, x - 1, top, bottom) {
            return Some(x - 1);
        }
        x -= 1;
    }
    None
}

/// The rows and columns that enclose the dark pixels.
fn crop(w: u32, h: u32, p: &Vec<u8>) -> (res: (u32, u32, u32, u32))
    requires
        p@.len() >= w * h,
    ensures
        res.0 as int == spec_top(w, h, p@),
        res.1 as int == spec_bottom(w, h, p@),
        res.2 as int == spec_left(w, h, p@, res.0 as int, res.1 as int),
        res.3 as int == spec_right(w, h, p@, res.0 as int, res.1 as int),
        res.0 <= res.1,
        res.2 <= res.3,
        res.1 < h || (h == 0 && res.1 == 0),
        res.3 < w || (w == 0 && res.3 == 0),
{
    reveal(spec_top);
    reveal(spec_bottom);
    reveal(spec_left);
    reveal(spec_right);
    let ghost pv = p@;
    let t = first_black_row(w, h, p);
    let b = last_black_row(w, h, p);
    let (top, bottom): (u32, u32) = match (t, b) {
        (Some(a), Some(c)) => (a, c),
        _ => (0, if h > 0 { h - 1 } else { 0 }),
    };
    proof {
        match (t, b) {
            (Some(a), Some(c)) => {
                let ct = choose|y: int| row_black(w, h, pv, y) && forall|z: int| z < y ==> !#[trigger] row_black(w, h, pv, z);
                assert(row_black(w, h, pv, a as int) && forall|z: int| z < a ==> !#[trigger] row_black(w, h, pv, z));
                if ct < a {
                    assert(!row_black(w, h, pv, ct));
                } else if ct > a {
                    assert(!row_black(w, h, pv, a as int));
                }
                let cb = choose|y: int| row_black(w, h, pv, y) && forall|z: int| z > y ==> !#[trigger] row_black(w, h, pv, z);
                assert(row_black(w, h, pv, c as int) && forall|z: int| z > c ==> !#[trigger] row_black(w, h, pv, z));
                if cb < c {
                    assert(!row_black(w, h, pv, c as int));
                } else if cb > c {
                    assert(!row_black(w, h, pv, cb));
                }
                if a > c {
                    assert(!row_black(w, h, pv, a as int));
                }
            },
            (Some(a), None) => {
                assert(!row_black(w, h, pv, a as int));
            },
            (None, Some(c)) => {
                assert(!row_black(w, h, pv, c as int));
            },
            (None, None) => {},
        }
    }
    let l = first_black_col(w, h, p, top, bottom);
    let r = last_black_col(w, h, p, top, bottom);
    let (left, right): (u32, u32) = match (l, r) {
        (Some(a), Some(c)) => (a, c),
        _ => (0, if w > 0 { w - 1 } else { 0 }),
    };
    proof {
        let ti = top as int;
        let bi = bottom as int;
        match (l, r) {
            (Some(a), Some(c)) => {
                let cl = choose|x: int| col_black(w, h, pv, x, ti, bi) && forall|z: int| z < x ==> !#[trigger] col_black(w, h, pv, z, ti, bi);
                assert(col_black(w, h, pv, a as int, ti, bi) && forall|z: int| z < a ==> !#[trigger] col_black(w, h, pv, z, ti, bi));
                if cl < a {
                    assert(!col_black(w, h, pv, cl, ti, bi));
                } else if cl > a {
                    assert(!col_black(w, h, pv, a as int, ti, bi));
                }
                let cr = choose|x: int| col_black(w, h, pv, x, ti, bi) && forall|z: int| z > x ==> !#[trigger] col_black(w, h, pv, z, ti, bi);
                assert(col_black(w, h, pv, c as int, ti, bi) && forall|z: int| z > c ==> !#[trigger] col_black(w, h, pv, z, ti, bi));
                if cr < c {
                    assert(!col_black(w, h, pv, c as int, ti, bi));
                } else if cr > c {
                    assert(!col_black(w, h, pv, cr, ti, bi));
                }
                if a > c {
                    assert(!col_black(w, h, pv, a as int, ti, bi));
                }
            },
            (Some(a), None) => {
                assert(!col_black(w, h, pv, a as int, ti, bi));
            },
            (None, Some(c)) => {
                assert(!col_black(w, h, pv, c as int, ti, bi));
            },
            (None, None) => {},
        }
    }
    (top, bottom, left, right)
}

/// Whether most in-picture pixels of the block with corner `(x0, y0)` and
/// side `bs` are dark.
fn block_is_dark(w: u32, h: u32, p: &Vec<u8>, x0: u32, y0: u32, bs: u32) -> (res: bool)
    requires
        p@.len() >= w * h,
        x0 + bs <= u32::MAX,
        y0 + bs <= u32::MAX,
    ensures
        res == cell_dark(w, h, p@, x0 as int, y0 as int, bs as nat),
{
    let mut black: u64 = 0;
    let mut total: u64 = 0;
    let mut dy: u32 = 0;
    proof {
        assert(bs * bs <= 0xffff_ffff_ffff_ffffu64) by (nonlinear_arith)
            requires bs <= 0xffff_ffffu32;
    }
    while dy < bs
        invariant
            dy <= bs,
            p@.len() >= w * h,
            x0 + bs <= u32::MAX,
            y0 + bs <= u32::MAX,
            bs * bs <= 0xffff_ffff_ffff_ffffu64,
            (black as nat, total as nat) == block_counts(w, h, p@, x0 as int, y0 as int, bs as nat, dy as nat),
            black <= total,
            total <= dy * bs,
        decreases bs - dy,
    {
        let ghost b0 = black;
        let ghost t0 = total;
        proof {
            assert(dy * bs + bs <= bs * bs) by (nonlinear_arith)
                requires dy < bs;
        }
        let py = y0 + dy;
        let mut dx: u32 = 0;
        while dx < bs
            invariant
                dx <= bs,
                dy < bs,
                py == y0 + dy,
                p@.len() >= w * h,
                x0 + bs <= u32::MAX,
                t0 + bs <= 0xffff_ffff_ffff_ffffu64,
                b0 <= t0,
                b0 <= black,
                t0 <= total,
                black - b0 <= total - t0,
                total - t0 <= dx,
                ((black - b0) as nat, (total - t0) as nat) == row_counts(w, h, p@, x0 as int, py as int, dx as nat),
            decreases bs - dx,
        {
            let px = x0 + dx;
            if px < w && py < h {
                total += 1;
                if black_at(w, h, p, px, py) {
                    black += 1;
                }
            }
            dx += 1;
        }
        proof {
            assert(total <= (dy + 1) * bs) by (nonlinear_arith)
                requires total <= t0 + bs, t0 <= dy * bs;
        }
        dy += 1;
    }
    total > 0 && black > total - black
}

/// Draws one row of modules, the first at `left`, all at height `y0`.
fn module_row_text(w: u32, h: u32, p: &Vec<u8>, left: u32, y0: u32, bs: u32, cols: u32) -> (res: String)
    requires
        p@.len() >= w * h,
        bs >= 1,
        left + cols * bs <= u32::MAX,
        y0 + bs <= u32::MAX,
    ensures
        res@ == row_text(module_row(w, h, p@, left as int, y0 as int, bs as nat, cols as nat)),
{
    let mut row = String::new();
    let mut c: u32 = 0;
    while c < cols
        invariant
            c <= cols,
            bs >= 1,
            p@.len() >= w * h,
            left + cols * bs <= u32::MAX,
            y0 + bs <= u32::MAX,
            row@ == row_text(module_row(w, h, p@, left as int, y0 as int, bs as nat, c as nat)),
        decreases cols - c,
    {
        proof {
            assert(c * bs + bs <= cols * bs) by (nonlinear_arith)
                requires c < cols, bs >= 1;
        }
        let x0 = left + c * bs;
        let dark = block_is_dark(w, h, p, x0, y0, bs);
        let ghost before = row@;
        if dark {
            push_str(&mut row, "██");
        } else {
            push_str(&mut row, "  ");
        }
        proof {
            let next = module_row(w, h, p@, left as int, y0 as int, bs as nat, (c + 1) as nat);
            assert(next.drop_last() =~= module_row(w, h, p@, left as int, y0 as int, bs as nat, c as nat));
            assert(next.last() == dark);
        }
        c += 1;
    }
    row
}

/// Draws the module grid, one string per row.
fn grid_lines(w: u32, h: u32, p: &Vec<u8>, left: u32, top: u32, bs: u32, cols: u32, rows: u32) -> (res: Vec<String>)
    requires
        p@.len() >= w * h,
        bs >= 1,
        left + cols * bs <= u32::MAX,
        top + rows * bs <= u32::MAX,
    ensures
        views(res@) == module_grid(w, h, p@, left as int, top as int, bs as nat, cols as nat, rows as nat).map_values(
            |row: Seq<bool>| row_text(row),
        ),
{
    let ghost grid = module_grid(w, h, p@, left as int, top as int, bs as nat, cols as nat, rows as nat);
    let mut lines: Vec<String> = Vec::new();
    let mut r: u32 = 0;
    while r < rows
        invariant
            r <= rows,
            bs >= 1,
            p@.len() >= w * h,
            left + cols * bs <= u32::MAX,
            top + rows * bs <= u32::MAX,
            grid == module_grid(w, h, p@, left as int, top as int, bs as nat, cols as nat, rows as nat),
            views(lines@) =~= grid.take(r as int).map_values(|row: Seq<bool>| row_text(row)),
        decreases rows - r,
    {
        proof {
            assert(r * bs + bs <= rows * bs) by (nonlinear_arith)
                requires r < rows, bs >= 1;
        }
        let y0 = top + r * bs;
        let line = module_row_text(w, h, p, left, y0, bs, cols);
        let ghost before = lines@;
        lines.push(line);
        proof {
            assert(grid[r as int] == module_row(w, h, p@, left as int, y0 as int, bs as nat, cols as nat));
            assert(views(lines@) =~= views(before).push(line@));
            assert(grid.take(r + 1).map_values(|row: Seq<bool>| row_text(row)) =~= grid.take(r as int).map_values(
                |row: Seq<bool>| row_text(row),
            ).push(row_text(grid[r as int])));
        }
        r += 1;
    }
    assert(grid.take(rows as int) =~= grid);
    lines
}

/// Draws a grey picture of `w` × `h` pixels as text; none when the box
/// around its dark pixels is too large for the 32-bit size arithmetic.
pub fn render_luma(w: u32, h: u32, p: &Vec<u8>) -> (res: Option<String>)
    requires
        p@.len() >= w * h,
    ensures
        match res {
            Some(s) => crop_sum(w, h, p@) <= u32::MAX && s@ == spec_render_luma(w, h, p@),
            None => crop_sum(w, h, p@) > u32::MAX,
        },
{
    let (top, bottom, left, right) = crop(w, h, p);
    let cw_minus = right - left;
    let ch_minus = bottom - top;
    if cw_minus as u64 + ch_minus as u64 + 2 > u32::MAX as u64 {
        return None;
    }
    let cw = cw_minus + 1;
    let ch = ch_minus + 1;
    let bs = estimate_block_size(cw, ch);
    let cols = cw / bs;
    let rows = ch / bs;
    if cols == 0 || rows == 0 {
        return Some(to_owned_string("  (无法显示二维码)"));
    }
    proof {
        assert(cols * bs <= cw) by (nonlinear_arith)
            requires cols == cw / bs, bs >= 1;
        assert(rows * bs <= ch) by (nonlinear_arith)
            requires rows == ch / bs, bs >= 1;
    }
    let lines = grid_lines(w, h, p, left, top, bs, cols, rows);
    Some(join_strings(&lines, "\n"))
}

/// The modules of a square code given row by row, as a grid of `w` rows.
pub open spec fn square_grid(w: nat, m: Seq<bool>) -> Seq<Seq<bool>> {
    Seq::new(w, |y: int| m.subrange(y * w, y * w + w))
}

/// Draws the modules of a square code of side `w`, given row by row.
pub fn render_modules(w: usize, dark: &Vec<bool>) -> (res: String)
    requires
        dark@.len() == w * w,
    ensures
        res@ == grid_text(square_grid(w as nat, dark@)),
{
    let ghost grid = square_grid(w as nat, dark@);
    let n = dark.len();
    let mut lines: Vec<String> = Vec::new();
    let mut y: usize = 0;
    while y < w
        invariant
            y <= w,
            n == w * w,
            dark@.len() == w * w,
            grid == square_grid(w as nat, dark@),
            views(lines@) =~= grid.take(y as int).map_values(|row: Seq<bool>| row_text(row)),
        decreases w - y,
    {
        proof {
            assert(y * w + w <= w * w) by (nonlinear_arith)
                requires y < w;
        }
        let base = y * w;
        let mut row = String::new();
        let mut x: usize = 0;
        while x < w
            invariant
                x <= w,
                y < w,
                base == y * w,
                base + w <= w * w,
                n == w * w,
                dark@.len() == w * w,
                row@ == row_text(dark@.subrange(base as int, base + x)),
            decreases w - x,
        {
            let d = dark[base + x];
            if d {
                push_str(&mut row, "██");
            } else {
                push_str(&mut row, "  ");
            }
            proof {
                let next = dark@.subrange(base as int, base + x + 1);
                assert(next.drop_last() =~= dark@.subrange(base as int, base + x));
            }
            x += 1;
        }
        let ghost before = lines@;
        lines.push(row);
        proof {
            assert(grid[y as int] =~= dark@.subrange(base as int, base + w));
            assert(views(lines@) =~= views(before).push(row@));
            assert(grid.take(y + 1).map_values(|row: Seq<bool>| row_text(row)) =~= grid.take(y as int).map_values(
                |row: Seq<bool>| row_text(row),
            ).push(row_text(grid[y as int])));
        }
        y += 1;
    }
    assert(grid.take(w as int) =~= grid);
    join_strings(&lines, "\n")
}

/// The text shown in place of a code for a URL that cannot be encoded.
pub open spec fn url_fallback(url: Seq<char>) -> Seq<char> {
    "请复制链接到浏览器打开:\n"@ + url
}

/// What is drawn for a URL: its code, or the URL itself when it cannot be
/// encoded.
pub open spec fn spec_render_url(url: Seq<char>) -> Seq<char> {
    match qr_modules(url) {
        Some((w, m)) => grid_text(square_grid(w as nat, m)),
        None => url_fallback(url),
    }
}

/// Draws the QR code of a URL.
fn render_url(url: &str) -> (res: String)
    ensures
        res@ == spec_render_url(url@),
{
    match encode_qr(url) {
        Some((w, dark)) => render_modules(w, &dark),
        None => {
            let mut s = to_owned_string("请复制链接到浏览器打开:\n");
            push_str(&mut s, url);
            s
        },
    }
}

/// What is drawn for an encoded picture: its code read from the pixels, or
/// the unreadable text when it cannot be decoded or its dark box is too
/// large for 32-bit sizes.
pub open spec fn spec_render_image(bytes: Seq<u8>) -> Seq<char> {
    match decoded_luma(bytes) {
        Some((w, h, p)) => if crop_sum(w, h, p) <= u32::MAX {
            spec_render_luma(w, h, p)
        } else {
            unreadable_text()
        },
        None => unreadable_text(),
    }
}

/// Draws the QR code in an encoded picture.
fn render_image(bytes: &[u8]) -> (res: String)
    ensures
        res@ == spec_render_image(bytes@),
{
    match decode_luma(bytes) {
        Some((w, h, p)) => match render_luma(w, h, &p) {
            Some(s) => s,
            None => to_owned_string("  (无法显示二维码)"),
        },
        None => to_owned_string("  (无法显示二维码)"),
    }
}

/// What is drawn for a provider's QR data.
pub open spec fn spec_render(data: QrData) -> Seq<char> {
    match data {
        QrData::Image(bytes) => spec_render_image(bytes@),
        QrData::Url(url) => spec_render_url(url@),
    }
}

/// Draws the QR code a provider handed over as text for the terminal.
pub fn render_to_string(data: &QrData) -> (res: String)
    ensures
        res@ == spec_render(*data),
{
    match data {
        QrData::Image(bytes) => render_image(bytes.as_slice()),
        QrData::Url(url) => render_url(url.as_str()),
    }
}

proof fn lemma_row_counts_bounded(w: u32, h: u32, p: Seq<u8>, x0: int, y: int, n: nat)
    ensures
        row_counts(w, h, p, x0, y, n).0 <= row_counts(w, h, p, x0, y, n).1,
    decreases n,
{
    if n > 0 {
        lemma_row_counts_bounded(w, h, p, x0, y, (n - 1) as nat);
    }
}

proof fn lemma_block_counts_bounded(w: u32, h: u32, p: Seq<u8>, x0: int, y0: int, bs: nat, m: nat)
    ensures
        block_counts(w, h, p, x0, y0, bs, m).0 <= block_counts(w, h, p, x0, y0, bs, m).1,
    decreases m,
{
    if m > 0 {
        lemma_block_counts_bounded(w, h, p, x0, y0, bs, (m - 1) as nat);
        lemma_row_counts_bounded(w, h, p, x0, y0 + m - 1, bs);
    }
}

proof fn lemma_cell_text_len(dark: bool)
    ensures
        cell_text(dark).len() == 2,
{
    reveal_strlit("██");
    reveal_strlit("  ");
}

/// Module `c` of a row takes characters `2c` and `2c + 1` of its text.
proof fn lemma_row_text_cell(row: Seq<bool>, c: int)
    requires
        0 <= c < row.len(),
    ensures
        row_text(row).len() == 2 * row.len(),
        row_text(row).subrange(2 * c, 2 * c + 2) == cell_text(row[c]),
    decreases row.len(),
{
    let init = row.drop_last();
    lemma_cell_text_len(row.last());
    if c + 1 < row.len() {
        lemma_row_text_cell(init, c);
        assert(row_text(row).subrange(2 * c, 2 * c + 2) =~= row_text(init).subrange(2 * c, 2 * c + 2));
    } else {
        if init.len() > 0 {
            lemma_row_text_cell(init, 0);
        }
        assert(row_text(init).len() == 2 * init.len());
        assert(row_text(row).subrange(2 * c, 2 * c + 2) =~= cell_text(row.last()));
    }
}

/// In lines of one length joined by a separator, line `r` starts after `r`
/// lines and separators.
proof fn lemma_join_uniform(parts: Seq<Seq<char>>, sep: Seq<char>, len: nat, r: int, k: int)
    requires
        forall|j: int| 0 <= j < parts.len() ==> #[trigger] parts[j].len() == len,
        0 <= r < parts.len(),
        0 <= k < len,
    ensures
        join(parts, sep).len() + sep.len() == parts.len() * (len + sep.len()),
        join(parts, sep)[r * (len + sep.len()) + k] == parts[r][k],
    decreases parts.len(),
{
    let n = parts.len();
    let step = len + sep.len();
    if n == 1 {
        assert(r == 0);
        assert(join(parts, sep) == parts[0]);
        assert(1 * step == step);
        assert(0 * step + k == k);
    } else {
        let init = parts.drop_last();
        assert(init.len() == n - 1);
        assert forall|j: int| 0 <= j < init.len() implies #[trigger] init[j].len() == len by {
            assert(init[j] == parts[j]);
        }
        let head = join(init, sep);
        let whole = head + sep + parts.last();
        assert(join(parts, sep) == whole);
        lemma_join_uniform(init, sep, len, 0, 0);
        assert(head.len() + sep.len() == (n - 1) * step);
        assert((n - 1) * step + step == n * step) by (nonlinear_arith);
        assert(parts.last().len() == len);
        assert(whole.len() == head.len() + sep.len() + len);
        if r + 1 < n {
            lemma_join_uniform(init, sep, len, r, k);
            assert(init[r] == parts[r]);
            assert(r * step + k + sep.len() < (n - 1) * step) by (nonlinear_arith)
                requires r + 1 < n, k < len, step == len + sep.len(), r >= 0;
            assert(0 <= r * step) by (nonlinear_arith)
                requires r >= 0, step >= 0;
            assert(r * step + k < head.len());
            assert(whole[r * step + k] == head[r * step + k]);
        } else {
            assert(r == n - 1);
            assert(r * step + k == head.len() + sep.len() + k);
            assert(whole[r * step + k] == parts.last()[k]);
        }
    }
}

/// Module `c` of row `r` of a grid of rows of `cols` modules stands at
/// `r * (2 * cols + 1) + 2 * c` in its text.
proof fn lemma_grid_text_cell(grid: Seq<Seq<bool>>, cols: nat, r: int, c: int)
    requires
        forall|j: int| 0 <= j < grid.len() ==> #[trigger] grid[j].len() == cols,
        0 <= r < grid.len(),
        0 <= c < cols,
    ensures
        grid_text(grid).len() + 1 == grid.len() * (2 * cols + 1),
        grid_text(grid).subrange(r * (2 * cols + 1) + 2 * c, r * (2 * cols + 1) + 2 * c + 2)
            == row_text(grid[r]).subrange(2 * c, 2 * c + 2),
{
    let lines = grid.map_values(|g: Seq<bool>| row_text(g));
    assert forall|j: int| 0 <= j < lines.len() implies #[trigger] lines[j].len() == 2 * cols by {
        lemma_row_text_cell(grid[j], 0);
    }
    reveal_strlit("\n");
    let sep = "\n"@;
    assert(sep.len() == 1);
    let line = row_text(grid[r]);
    let text = grid_text(grid);
    assert(text == join(lines, sep));
    lemma_join_uniform(lines, sep, 2 * cols, r, 2 * c);
    lemma_join_uniform(lines, sep, 2 * cols, r, 2 * c + 1);
    let at = r * (2 * cols + 1) + 2 * c;
    assert(r * (2 * cols + sep.len()) == r * (2 * cols + 1));
    assert(lines[r] == line);
    assert(at + 2 <= grid.len() * (2 * cols + 1) - 1) by (nonlinear_arith)
        requires at == r * (2 * cols + 1) + 2 * c, 0 <= r < grid.len(), 0 <= c < cols;
    assert(text[at] == line[2 * c]);
    assert(text[at + 1] == line[2 * c + 1]);
    assert(text.subrange(at, at + 2) =~= line.subrange(2 * c, 2 * c + 2));
}

/// Each module of the drawn code is two characters of its row's line, and of
/// the whole text, where line `r` starts after `r` lines and line breaks: a
/// full block exactly when its dark in-picture pixels are strictly more than
/// half of its in-picture pixels, and two spaces otherwise (a block with at
/// most half dark pixels, or with no pixel inside the picture).
pub proof fn law_module_drawn_by_majority(
    w: u32,
    h: u32,
    p: Seq<u8>,
    left: int,
    top: int,
    bs: nat,
    cols: nat,
    rows: nat,
    r: int,
    c: int,
)
    requires
        0 <= r < rows,
        0 <= c < cols,
    ensures
        ({
            let counts = block_counts(w, h, p, left + c * bs, top + r * bs, bs, bs);
            let dark = counts.0;
            let total = counts.1;
            let grid = module_grid(w, h, p, left, top, bs, cols, rows);
            let line = row_text(grid[r]);
            let text = grid_text(grid);
            let at = r * (2 * cols + 1) + 2 * c;
            &&& dark <= total
            &&& line.len() == 2 * cols
            &&& text.len() + 1 == rows * (2 * cols + 1)
            &&& text.subrange(at, at + 2) == line.subrange(2 * c, 2 * c + 2)
            &&& 2 * dark > total ==> line.subrange(2 * c, 2 * c + 2) == "██"@
            &&& 2 * dark <= total ==> line.subrange(2 * c, 2 * c + 2) == "  "@
        }),
{
    let grid = module_grid(w, h, p, left, top, bs, cols, rows);
    let row = grid[r];
    assert(row == module_row(w, h, p, left, top + r * bs, bs, cols));
    lemma_row_text_cell(row, c);
    lemma_block_counts_bounded(w, h, p, left + c * bs, top + r * bs, bs, bs);
    assert forall|j: int| 0 <= j < grid.len() implies #[trigger] grid[j].len() == cols by {}
    lemma_grid_text_cell(grid, cols, r, c);
}

} // verus!
