//! Integer layouts behind the renderer's primitive shapes and screen effects:
//! which axis-aligned pixel rectangles get filled.
use vstd::prelude::*;
use vstd::arithmetic::div_mod::{lemma_fundamental_div_mod, lemma_mod_pos_bound};

verus! {

/// An axis-aligned rectangle of pixels.
#[derive(Debug, Clone, Copy, PartialEq, Eq, Structural)]
pub struct PixelRect {
    pub x: i32,
    pub y: i32,
    pub w: u32,
    pub h: u32,
}

// ---------------------------------------------------------------------------
// Scanlines
// ---------------------------------------------------------------------------

/// Bar `k` of the scanline overlay: a `width`-wide bar at `k * step`, `lh` tall
/// but cut at the bottom edge `h`.
pub open spec fn scanline_bar(width: u32, h: int, lh: int, step: int, k: int) -> PixelRect {
    let y = k * step;
    let rest = h - y;
    PixelRect { x: 0, y: y as i32, w: width, h: (if lh < rest { lh } else { rest }) as u32 }
}

/// Horizontal dark bars for a CRT effect over a `width` x `h` screen: bars
/// `lh` pixels tall, repeated every `lh + sp` pixels from the top, the last
/// one cut at the bottom edge. A non-positive bar height or period, or an
/// empty screen, gives no bars.
pub fn scanline_bars(width: u32, h: i32, lh: i32, sp: i32) -> (bars: Vec<PixelRect>)
    requires
        i32::MIN <= lh + sp <= i32::MAX,
        h > 0 && lh + sp > 0 ==> h - 1 + lh + sp <= i32::MAX,
    ensures
        (h <= 0 || lh <= 0 || lh + sp <= 0) ==> bars@.len() == 0,
        (h > 0 && lh > 0 && lh + sp > 0) ==> {
            &&& bars@.len() * (lh + sp) >= h
            &&& (bars@.len() - 1) * (lh + sp) < h
            &&& forall|k: int| 0 <= k < bars@.len() ==> #[trigger] bars@[k] == scanline_bar(width, h as int, lh as int, (lh + sp) as int, k)
        },
{
    let mut bars: Vec<PixelRect> = Vec::new();
    let step = lh + sp;
    if step <= 0 {
        return bars;
    }
    if lh <= 0 {
        // No bar can have a positive height.
        return bars;
    }
    let mut y: i32 = 0;
    assert(bars@.len() == 0);
    assert(0 * (step as int) == 0) by (nonlinear_arith);
    while y < h
        invariant
            step == lh + sp,
            step > 0,
            lh > 0,
            h > 0 ==> h - 1 + step <= i32::MAX,
            y == bars@.len() * step,
            y >= 0,
            bars@.len() > 0 ==> (bars@.len() - 1) * step < h,
            forall|k: int| 0 <= k < bars@.len() ==> #[trigger] bars@[k] == scanline_bar(width, h as int, lh as int, step as int, k),
        decreases if y < h { h - y } else { 0 },
    {
        let rest = h - y;
        let bar_h: i32 = if lh < rest { lh } else { rest };
        let ghost n = bars@.len();
        bars.push(PixelRect { x: 0, y, w: width, h: bar_h as u32 });
        assert((n + 1) * step == n * step + step) by (nonlinear_arith);
        y = y + step;
    }
    bars
}

// ---------------------------------------------------------------------------
// Vignette
// ---------------------------------------------------------------------------

/// The border strips of one vignette layer: the `rect_w` x `rect_h` rectangle
/// at (`x`, `y`) is outlined with strips `thickness` pixels thick: a top and a
/// bottom strip across the full width, and a left and a right strip between
/// them. A strip that would be empty, or that would coincide with the opposite
/// one, is left out.
pub fn vignette_strips(x: i32, y: i32, rect_w: u32, rect_h: u32, thickness: i32) -> (strips: Vec<PixelRect>)
    requires
        rect_w <= i32::MAX,
        rect_h <= i32::MAX,
        y + rect_h <= i32::MAX,
        i32::MIN <= y + rect_h - thickness <= i32::MAX,
        i32::MIN <= 2 * thickness <= i32::MAX,
        x + rect_w <= i32::MAX,
        i32::MIN <= y + thickness <= i32::MAX,
        i32::MIN <= rect_h - 2 * thickness <= i32::MAX,
        i32::MIN <= x + rect_w - thickness <= i32::MAX,
    ensures
        strips@ == vignette_layout(x as int, y as int, rect_w as int, rect_h as int, thickness as int),
{
    let w = rect_w as i32;
    let h = rect_h as i32;
    let mut strips: Vec<PixelRect> = Vec::new();
    let top_h: i32 = if thickness < h { thickness } else { h };
    let top_h: i32 = if top_h > 0 { top_h } else { 0 };
    if top_h > 0 {
        strips.push(PixelRect { x, y, w: rect_w, h: top_h as u32 });
    }
    let bot_y = y + h - thickness;
    if bot_y > y && top_h > 0 {
        strips.push(PixelRect { x, y: bot_y, w: rect_w, h: top_h as u32 });
    }
    let inner_y = y + thickness;
    let inner: i32 = h - 2 * thickness;
    let inner_h: i32 = if inner > 0 { inner } else { 0 };
    let left: i32 = if thickness < w { thickness } else { w };
    let left_w: i32 = if left > 0 { left } else { 0 };
    if inner_h > 0 && left_w > 0 {
        strips.push(PixelRect { x, y: inner_y, w: left_w as u32, h: inner_h as u32 });
    }
    let right_x = x + w - thickness;
    if right_x > x && inner_h > 0 && left_w > 0 {
        strips.push(PixelRect { x: right_x, y: inner_y, w: left_w as u32, h: inner_h as u32 });
    }
    strips
}

/// `v` clamped below at 0.
pub open spec fn clamp0(v: int) -> int {
    if v > 0 { v } else { 0 }
}

/// `a` or `b`, whichever is smaller.
pub open spec fn min_int(a: int, b: int) -> int {
    if a < b { a } else { b }
}

/// The strips [`vignette_strips`] fills, in drawing order.
pub open spec fn vignette_layout(x: int, y: int, w: int, h: int, t: int) -> Seq<PixelRect> {
    let top_h = clamp0(min_int(t, h));
    let inner_h = clamp0(h - 2 * t);
    let side_w = clamp0(min_int(t, w));
    let top = if top_h > 0 {
        seq![PixelRect { x: x as i32, y: y as i32, w: w as u32, h: top_h as u32 }]
    } else {
        Seq::empty()
    };
    let bottom = if y + h - t > y && top_h > 0 {
        seq![PixelRect { x: x as i32, y: (y + h - t) as i32, w: w as u32, h: top_h as u32 }]
    } else {
        Seq::empty()
    };
    let left = if inner_h > 0 && side_w > 0 {
        seq![PixelRect { x: x as i32, y: (y + t) as i32, w: side_w as u32, h: inner_h as u32 }]
    } else {
        Seq::empty()
    };
    let right = if x + w - t > x && inner_h > 0 && side_w > 0 {
        seq![PixelRect { x: (x + w - t) as i32, y: (y + t) as i32, w: side_w as u32, h: inner_h as u32 }]
    } else {
        Seq::empty()
    };
    top + bottom + left + right
}

// ---------------------------------------------------------------------------
// Rectangle outline and thick lines
// ---------------------------------------------------------------------------

/// The outline of the `w` x `h` rectangle at (`x`, `y`), drawn inward with
/// thickness `t`: top, bottom, left and right strips, in that order.
pub fn outline_strips(x: i32, y: i32, w: i32, h: i32, t: i32) -> (strips: [PixelRect; 4])
    requires
        w >= 0,
        h >= 0,
        t >= 1,
        i32::MIN <= y + h - t <= i32::MAX,
        i32::MIN <= x + w - t <= i32::MAX,
    ensures
        strips[0] == (PixelRect { x, y, w: w as u32, h: t as u32 }),
        strips[1] == (PixelRect { x, y: (y + h - t) as i32, w: w as u32, h: t as u32 }),
        strips[2] == (PixelRect { x, y, w: t as u32, h: h as u32 }),
        strips[3] == (PixelRect { x: (x + w - t) as i32, y, w: t as u32, h: h as u32 }),
{
    [
        PixelRect { x, y, w: w as u32, h: t as u32 },
        PixelRect { x, y: y + (h - t), w: w as u32, h: t as u32 },
        PixelRect { x, y, w: t as u32, h: h as u32 },
        PixelRect { x: x + (w - t), y, w: t as u32, h: h as u32 },
    ]
}

/// `a` or `b`, whichever is larger.
pub open spec fn max_int(a: int, b: int) -> int {
    if a < b { b } else { a }
}

/// The absolute value of `v`.
pub open spec fn abs_int(v: int) -> int {
    if v < 0 { -v } else { v }
}

/// A line from (`x1`, `y1`) to (`x2`, `y2`) runs along the x axis when it is
/// at least as wide as it is tall.
pub open spec fn line_is_horizontal(x1: int, y1: int, x2: int, y2: int) -> bool {
    abs_int(x2 - x1) >= abs_int(y2 - y1)
}

/// Number of pixels along the major axis of the line, ends included.
pub open spec fn line_band_count(x1: int, y1: int, x2: int, y2: int) -> int {
    max_int(abs_int(x2 - x1), abs_int(y2 - y1)) + 1
}

/// How far the line has moved along its minor axis `k` pixels along its major
/// axis, rounded to the nearest pixel (halves away from the start): the line
/// moves `dmin` pixels over `dmaj`.
pub open spec fn line_offset(k: int, dmaj: int, dmin: int) -> int {
    if dmaj == 0 { 0 } else { (2 * k * dmin + dmaj) / (2 * dmaj) }
}

/// The pixel `k` columns along a mostly horizontal line starting at
/// (`ax`, `ay`), where `bx >= ax`, and ending at (`bx`, `by`).
pub open spec fn row_point(ax: int, ay: int, bx: int, by: int, k: int) -> (int, int) {
    let off = line_offset(k, bx - ax, abs_int(by - ay));
    (ax + k, if by >= ay { ay + off } else { ay - off })
}

/// The pixel `k` rows along a mostly vertical line starting at (`ax`, `ay`),
/// where `by >= ay`, and ending at (`bx`, `by`).
pub open spec fn column_point(ax: int, ay: int, bx: int, by: int, k: int) -> (int, int) {
    let off = line_offset(k, by - ay, abs_int(bx - ax));
    (if bx >= ax { ax + off } else { ax - off }, ay + k)
}

/// The pixel of the line `k` pixels along its major axis from its start (the
/// end with the smaller major coordinate).
pub open spec fn line_point(x1: int, y1: int, x2: int, y2: int, k: int) -> (int, int) {
    if line_is_horizontal(x1, y1, x2, y2) {
        if x1 <= x2 { row_point(x1, y1, x2, y2, k) } else { row_point(x2, y2, x1, y1, k) }
    } else {
        if y1 <= y2 { column_point(x1, y1, x2, y2, k) } else { column_point(x2, y2, x1, y1, k) }
    }
}

/// Band `k` of a line `t` pixels thick: across the major axis at the line's
/// `k`-th pixel, `t` pixels long with `t / 2` of them before the line.
pub open spec fn line_band(x1: int, y1: int, x2: int, y2: int, t: int, k: int) -> PixelRect {
    let p = line_point(x1, y1, x2, y2, k);
    if line_is_horizontal(x1, y1, x2, y2) {
        PixelRect { x: p.0 as i32, y: (p.1 - t / 2) as i32, w: 1, h: t as u32 }
    } else {
        PixelRect { x: (p.0 - t / 2) as i32, y: p.1 as i32, w: t as u32, h: 1 }
    }
}

/// The bands of a line `t` pixels thick (`t > 1`) from (`x1`, `y1`) to
/// (`x2`, `y2`): one band per pixel along the major axis, ends included, each
/// `t` pixels across the minor axis and centred on the line's pixel there.
pub fn thick_line_bands(x1: i32, y1: i32, x2: i32, y2: i32, t: i32) -> (bands: Vec<PixelRect>)
    requires
        t > 1,
        line_is_horizontal(x1 as int, y1 as int, x2 as int, y2 as int) ==> i32::MIN <= min_int(y1 as int, y2 as int)
            - t / 2,
        !line_is_horizontal(x1 as int, y1 as int, x2 as int, y2 as int) ==> i32::MIN <= min_int(x1 as int, x2 as int)
            - t / 2,
    ensures
        bands@.len() == line_band_count(x1 as int, y1 as int, x2 as int, y2 as int),
        forall|k: int|
            0 <= k < bands@.len() ==> #[trigger] bands@[k] == line_band(
                x1 as int,
                y1 as int,
                x2 as int,
                y2 as int,
                t as int,
                k,
            ),
{
    let half: i64 = (t / 2) as i64;
    let dx: i64 = x2 as i64 - x1 as i64;
    let dy: i64 = y2 as i64 - y1 as i64;
    let adx: i64 = if dx < 0 { -dx } else { dx };
    let ady: i64 = if dy < 0 { -dy } else { dy };
    let horizontal = adx >= ady;
    let ghost hz = line_is_horizontal(x1 as int, y1 as int, x2 as int, y2 as int);
    assert(hz == horizontal);
    // Start (a) and end (b) along the major axis; `dmaj` pixels long, moving
    // `dmin` pixels across.
    let (ax, ay, bx, by): (i64, i64, i64, i64) = if horizontal {
        if x1 <= x2 {
            (x1 as i64, y1 as i64, x2 as i64, y2 as i64)
        } else {
            (x2 as i64, y2 as i64, x1 as i64, y1 as i64)
        }
    } else {
        if y1 <= y2 {
            (x1 as i64, y1 as i64, x2 as i64, y2 as i64)
        } else {
            (x2 as i64, y2 as i64, x1 as i64, y1 as i64)
        }
    };
    let dmaj: i64 = if horizontal { bx - ax } else { by - ay };
    let dmin: i64 = if horizontal { ady } else { adx };
    let forward: bool = if horizontal { by >= ay } else { bx >= ax };
    assert(dmaj == max_int(adx as int, ady as int));
    let mut bands: Vec<PixelRect> = Vec::new();
    let mut k: i64 = 0;
    while k <= dmaj
        invariant
            0 <= k <= dmaj + 1,
            0 <= dmin <= dmaj <= 0xffff_ffff,
            half == t / 2,
            t > 1,
            hz == horizontal,
            hz == line_is_horizontal(x1 as int, y1 as int, x2 as int, y2 as int),
            hz ==> i32::MIN <= min_int(y1 as int, y2 as int) - t / 2,
            !hz ==> i32::MIN <= min_int(x1 as int, x2 as int) - t / 2,
            horizontal ==> (ax, ay, bx, by) == (if x1 <= x2 {
                (x1 as i64, y1 as i64, x2 as i64, y2 as i64)
            } else {
                (x2 as i64, y2 as i64, x1 as i64, y1 as i64)
            }),
            !horizontal ==> (ax, ay, bx, by) == (if y1 <= y2 {
                (x1 as i64, y1 as i64, x2 as i64, y2 as i64)
            } else {
                (x2 as i64, y2 as i64, x1 as i64, y1 as i64)
            }),
            dmaj == (if horizontal { bx - ax } else { by - ay }),
            dmin == (if horizontal { abs_int(by - ay) } else { abs_int(bx - ax) }),
            forward == (if horizontal { by >= ay } else { bx >= ax }),
            bands@.len() == k,
            forall|j: int|
                0 <= j < k ==> #[trigger] bands@[j] == line_band(
                    x1 as int,
                    y1 as int,
                    x2 as int,
                    y2 as int,
                    t as int,
                    j,
                ),
        decreases dmaj + 1 - k,
    {
        let off: i64 = if dmaj == 0 {
            0
        } else {
            assert(0 <= 2 * k * dmin <= 2 * 0xffff_ffffu64 * 0xffff_ffffu64) by (nonlinear_arith)
                requires
                    0 <= k <= 0xffff_ffff,
                    0 <= dmin <= 0xffff_ffff,
            ;
            let num: u128 = 2 * (k as u128) * (dmin as u128) + (dmaj as u128);
            let den: u128 = 2 * (dmaj as u128);
            proof {
                lemma_line_offset_bounds(k as int, dmaj as int, dmin as int);
            }
            (num / den) as i64
        };
        proof {
            lemma_line_offset_bounds(k as int, dmaj as int, dmin as int);
        }
        assert(off == line_offset(k as int, dmaj as int, dmin as int));
        let across: i64 = if forward {
            if horizontal { ay + off } else { ax + off }
        } else {
            if horizontal { ay - off } else { ax - off }
        };
        proof {
            let p = line_point(x1 as int, y1 as int, x2 as int, y2 as int, k as int);
            if horizontal {
                assert(p == row_point(ax as int, ay as int, bx as int, by as int, k as int));
            } else {
                assert(p == column_point(ax as int, ay as int, bx as int, by as int, k as int));
            }
        }
        let r = if horizontal {
            PixelRect { x: (ax + k) as i32, y: (across - half) as i32, w: 1, h: t as u32 }
        } else {
            PixelRect { x: (across - half) as i32, y: (ay + k) as i32, w: t as u32, h: 1 }
        };
        assert(r == line_band(x1 as int, y1 as int, x2 as int, y2 as int, t as int, k as int));
        bands.push(r);
        k = k + 1;
    }
    bands
}

/// The minor-axis offset stays between 0 and the whole move `dmin`, and is
/// the nearest pixel: `2 * dmaj * off` is within `dmaj` of `2 * k * dmin`.
proof fn lemma_line_offset_bounds(k: int, dmaj: int, dmin: int)
    requires
        0 <= k <= dmaj,
        0 <= dmin <= dmaj,
    ensures
        0 <= line_offset(k, dmaj, dmin) <= dmin,
        -dmaj <= 2 * dmaj * line_offset(k, dmaj, dmin) - 2 * k * dmin <= dmaj,
        k == dmaj ==> line_offset(k, dmaj, dmin) == dmin,
        k == 0 ==> line_offset(k, dmaj, dmin) == 0,
{
    if dmaj > 0 {
        let n = 2 * k * dmin + dmaj;
        let d = 2 * dmaj;
        assert(0 <= 2 * k * dmin <= 2 * dmaj * dmin) by (nonlinear_arith)
            requires
                0 <= k <= dmaj,
                0 <= dmin,
        ;
        lemma_fundamental_div_mod(n, d);
        lemma_mod_pos_bound(n, d);
        let q = n / d;
        let rm = n % d;
        assert(0 <= q <= dmin) by (nonlinear_arith)
            requires
                n == d * q + rm,
                0 <= rm < d,
                0 <= n <= d * dmin + dmaj,
                d == 2 * dmaj,
                dmaj > 0,
        ;
        assert(k == dmaj ==> q == dmin) by (nonlinear_arith)
            requires
                n == d * q + rm,
                0 <= rm < d,
                n == 2 * k * dmin + dmaj,
                d == 2 * dmaj,
                dmaj > 0,
                0 <= q <= dmin,
        ;
        assert(k == 0 ==> q == 0) by (nonlinear_arith)
            requires
                n == d * q + rm,
                0 <= rm < d,
                n == 2 * k * dmin + dmaj,
                d == 2 * dmaj,
                dmaj > 0,
                0 <= q,
        ;
    }
}

/// Twice the signed area spanned by (`px`, `py`) and the segment from
/// (`x1`, `y1`) to (`x2`, `y2`): the pixel's distance from the line through
/// the segment, scaled by the segment's length.
pub open spec fn line_cross(x1: int, y1: int, x2: int, y2: int, px: int, py: int) -> int {
    (py - y1) * (x2 - x1) - (px - x1) * (y2 - y1)
}

proof fn lemma_row_point_near(ax: int, ay: int, bx: int, by: int, k: int)
    requires
        0 <= k <= bx - ax,
        abs_int(by - ay) <= bx - ax,
    ensures
        2 * abs_int(line_cross(ax, ay, bx, by, row_point(ax, ay, bx, by, k).0, row_point(ax, ay, bx, by, k).1))
            <= bx - ax,
        k == 0 ==> row_point(ax, ay, bx, by, k) == (ax, ay),
        k == bx - ax ==> row_point(ax, ay, bx, by, k) == (bx, by),
{
    let dmaj = bx - ax;
    let dmin = abs_int(by - ay);
    lemma_line_offset_bounds(k, dmaj, dmin);
    let off = line_offset(k, dmaj, dmin);
    let p = row_point(ax, ay, bx, by, k);
    if by >= ay {
        assert(line_cross(ax, ay, bx, by, p.0, p.1) == off * dmaj - k * dmin) by (nonlinear_arith)
            requires
                p.0 == ax + k,
                p.1 == ay + off,
                dmaj == bx - ax,
                dmin == by - ay,
        ;
    } else {
        assert(line_cross(ax, ay, bx, by, p.0, p.1) == -(off * dmaj - k * dmin)) by (nonlinear_arith)
            requires
                p.0 == ax + k,
                p.1 == ay - off,
                dmaj == bx - ax,
                dmin == ay - by,
        ;
    }
    assert(2 * (off * dmaj) == 2 * dmaj * off) by (nonlinear_arith);
    assert(2 * (k * dmin) == 2 * k * dmin) by (nonlinear_arith);
}

proof fn lemma_column_point_near(ax: int, ay: int, bx: int, by: int, k: int)
    requires
        0 <= k <= by - ay,
        abs_int(bx - ax) <= by - ay,
    ensures
        2 * abs_int(
            line_cross(ax, ay, bx, by, column_point(ax, ay, bx, by, k).0, column_point(ax, ay, bx, by, k).1),
        ) <= by - ay,
        k == 0 ==> column_point(ax, ay, bx, by, k) == (ax, ay),
        k == by - ay ==> column_point(ax, ay, bx, by, k) == (bx, by),
{
    let dmaj = by - ay;
    let dmin = abs_int(bx - ax);
    lemma_line_offset_bounds(k, dmaj, dmin);
    let off = line_offset(k, dmaj, dmin);
    let p = column_point(ax, ay, bx, by, k);
    if bx >= ax {
        assert(line_cross(ax, ay, bx, by, p.0, p.1) == k * dmin - off * dmaj) by (nonlinear_arith)
            requires
                p.0 == ax + off,
                p.1 == ay + k,
                dmaj == by - ay,
                dmin == bx - ax,
        ;
    } else {
        assert(line_cross(ax, ay, bx, by, p.0, p.1) == -(k * dmin - off * dmaj)) by (nonlinear_arith)
            requires
                p.0 == ax - off,
                p.1 == ay + k,
                dmaj == by - ay,
                dmin == ax - bx,
        ;
    }
    assert(2 * (off * dmaj) == 2 * dmaj * off) by (nonlinear_arith);
    assert(2 * (k * dmin) == 2 * k * dmin) by (nonlinear_arith);
}

/// A thick line follows its segment: its first and last bands sit on the two
/// endpoints; band `k` sits `k` pixels along the major axis from the end with
/// the smaller major coordinate; the pixel each band is centred on lies within
/// half a pixel, across the major axis, of the exact line through the two
/// endpoints; and each band covers that pixel.
pub proof fn lemma_thick_line_follows_segment(x1: int, y1: int, x2: int, y2: int, t: int, k: int)
    requires
        1 < t <= i32::MAX,
        0 <= k < line_band_count(x1, y1, x2, y2),
    ensures
        ({
            let n = line_band_count(x1, y1, x2, y2);
            let p0 = line_point(x1, y1, x2, y2, 0);
            let pn = line_point(x1, y1, x2, y2, n - 1);
            (p0 == (x1, y1) && pn == (x2, y2)) || (p0 == (x2, y2) && pn == (x1, y1))
        }),
        ({
            let p = line_point(x1, y1, x2, y2, k);
            &&& line_is_horizontal(x1, y1, x2, y2) ==> p.0 == min_int(x1, x2) + k
            &&& !line_is_horizontal(x1, y1, x2, y2) ==> p.1 == min_int(y1, y2) + k
            &&& 2 * abs_int(line_cross(x1, y1, x2, y2, p.0, p.1)) <= line_band_count(x1, y1, x2, y2) - 1
        }),
        ({
            let p = line_point(x1, y1, x2, y2, k);
            let b = line_band(x1, y1, x2, y2, t, k);
            line_is_horizontal(x1, y1, x2, y2) ==> p.1 - t / 2 <= p.1 < p.1 - t / 2 + b.h && b.w == 1
        }),
        ({
            let p = line_point(x1, y1, x2, y2, k);
            let b = line_band(x1, y1, x2, y2, t, k);
            !line_is_horizontal(x1, y1, x2, y2) ==> p.0 - t / 2 <= p.0 < p.0 - t / 2 + b.w && b.h == 1
        }),
{
    let n = line_band_count(x1, y1, x2, y2);
    let p = line_point(x1, y1, x2, y2, k);
    if line_is_horizontal(x1, y1, x2, y2) {
        if x1 <= x2 {
            lemma_row_point_near(x1, y1, x2, y2, k);
            lemma_row_point_near(x1, y1, x2, y2, 0);
            lemma_row_point_near(x1, y1, x2, y2, n - 1);
        } else {
            lemma_row_point_near(x2, y2, x1, y1, k);
            lemma_row_point_near(x2, y2, x1, y1, 0);
            lemma_row_point_near(x2, y2, x1, y1, n - 1);
            assert(line_cross(x1, y1, x2, y2, p.0, p.1) == -line_cross(x2, y2, x1, y1, p.0, p.1)) by (nonlinear_arith);
        }
    } else {
        if y1 <= y2 {
            lemma_column_point_near(x1, y1, x2, y2, k);
            lemma_column_point_near(x1, y1, x2, y2, 0);
            lemma_column_point_near(x1, y1, x2, y2, n - 1);
        } else {
            lemma_column_point_near(x2, y2, x1, y1, k);
            lemma_column_point_near(x2, y2, x1, y1, 0);
            lemma_column_point_near(x2, y2, x1, y1, n - 1);
            assert(line_cross(x1, y1, x2, y2, p.0, p.1) == -line_cross(x2, y2, x1, y1, p.0, p.1)) by (nonlinear_arith);
        }
    }
}

// ---------------------------------------------------------------------------
// Filled circle (midpoint algorithm)
// ---------------------------------------------------------------------------

/// The horizontal span from column `lx` to column `rx` inclusive on row
/// `row`, one pixel tall, when it is not empty.
pub open spec fn span(lx: int, rx: int, row: int) -> Seq<PixelRect> {
    if rx >= lx {
        seq![PixelRect { x: lx as i32, y: row as i32, w: (rx - lx + 1) as u32, h: 1 }]
    } else {
        Seq::empty()
    }
}

/// The four spans one midpoint step fills for the octant point (`x`, `y`).
pub open spec fn step_spans(cx: int, cy: int, x: int, y: int) -> Seq<PixelRect> {
    span(cx - y, cx + y, cy + x) + span(cx - y, cx + y, cy - x) + span(cx - x, cx + x, cy + y) + span(
        cx - x,
        cx + x,
        cy - y,
    )
}

/// The spans the midpoint circle algorithm fills from octant point (`x`, `y`)
/// with decision value `d` onwards: each step fills its four spans, then moves
/// right, and also down when the decision value is not negative.
pub open spec fn midpoint_spans(cx: int, cy: int, x: int, y: int, d: int) -> Seq<PixelRect>
    decreases y - x + 2,
{
    if x > y {
        Seq::empty()
    } else if d < 0 {
        step_spans(cx, cy, x, y) + midpoint_spans(cx, cy, x + 1, y, d + 2 * x + 3)
    } else {
        step_spans(cx, cy, x, y) + midpoint_spans(cx, cy, x + 1, y - 1, d + 2 * (x - y) + 5)
    }
}

/// The spans of a filled circle of radius `r` around (`cx`, `cy`).
pub open spec fn circle_layout(cx: int, cy: int, r: int) -> Seq<PixelRect> {
    midpoint_spans(cx, cy, 0, r, 1 - r)
}

proof fn lemma_midpoint_bounds(x: int, y: int, r: int, d: int)
    requires
        0 <= r <= 0x3fff_ffff,
        0 <= x <= r + 1,
        -1 <= y <= r,
        d == x * x + 2 * x + y * y - y - r * r + 1,
    ensures
        -0x4000_0000_0000_0000 <= d <= 0x4000_0000_0000_0000,
{
    assert(0 <= x * x <= 0x1000_0000_0000_0000) by (nonlinear_arith)
        requires
            0 <= x <= 0x4000_0000,
    ;
    assert(0 <= y * y <= 0x1000_0000_0000_0000) by (nonlinear_arith)
        requires
            -1 <= y <= 0x4000_0000,
    ;
    assert(0 <= r * r <= 0x1000_0000_0000_0000) by (nonlinear_arith)
        requires
            0 <= r <= 0x4000_0000,
    ;
}

fn push_span(spans: &mut Vec<PixelRect>, lx: i32, rx: i32, row: i32)
    requires
        i32::MIN <= rx - lx + 1 <= i32::MAX,
    ensures
        final(spans)@ == old(spans)@ + span(lx as int, rx as int, row as int),
{
    if rx >= lx {
        let w: i32 = rx - lx + 1;
        spans.push(PixelRect { x: lx, y: row, w: w as u32, h: 1 });
    }
}

/// The one-pixel-tall spans that fill a circle of radius `r` around
/// (`cx`, `cy`), as the midpoint (Bresenham) algorithm traces it; a negative
/// radius fills nothing.
pub fn circle_spans(cx: i32, cy: i32, r: i32) -> (spans: Vec<PixelRect>)
    requires
        i32::MIN <= cx - r,
        cx + r <= i32::MAX,
        i32::MIN <= cy - r,
        cy + r <= i32::MAX,
        r <= 0x3fff_ffff,
    ensures
        spans@ == circle_layout(cx as int, cy as int, r as int),
{
    let mut spans: Vec<PixelRect> = Vec::new();
    if r < 0 {
        return spans;
    }
    let mut x: i32 = 0;
    let mut y: i32 = r;
    let mut d: i64 = 1 - r as i64;
    while x <= y
        invariant
            i32::MIN <= cx - r,
            cx + r <= i32::MAX,
            i32::MIN <= cy - r,
            cy + r <= i32::MAX,
            r <= 0x3fff_ffff,
            0 <= r,
            0 <= x <= r + 1,
            -1 <= y <= r,
            d == x * x + 2 * x + y * y - y - r * r + 1,
            spans@ + midpoint_spans(cx as int, cy as int, x as int, y as int, d as int) == circle_layout(
                cx as int,
                cy as int,
                r as int,
            ),
        decreases y - x + 2,
    {
        proof {
            lemma_midpoint_bounds(x as int, y as int, r as int, d as int);
        }
        let ghost before = spans@;
        push_span(&mut spans, cx - y, cx + y, cy + x);
        push_span(&mut spans, cx - y, cx + y, cy - x);
        push_span(&mut spans, cx - x, cx + x, cy + y);
        push_span(&mut spans, cx - x, cx + x, cy - y);
        assert(spans@ == before + step_spans(cx as int, cy as int, x as int, y as int));
        let ghost (x0, y0, d0) = (x as int, y as int, d as int);
        if d < 0 {
            d = d + 2 * (x as i64) + 3;
        } else {
            d = d + 2 * ((x as i64) - (y as i64)) + 5;
            y = y - 1;
        }
        x = x + 1;
        assert(d == x * x + 2 * x + y * y - y - r * r + 1) by (nonlinear_arith)
            requires
                d0 == x0 * x0 + 2 * x0 + y0 * y0 - y0 - r * r + 1,
                x == x0 + 1,
                (d0 < 0 && y == y0 && d == d0 + 2 * x0 + 3) || (d0 >= 0 && y == y0 - 1 && d == d0 + 2 * (x0 - y0) + 5),
        ;
    }
    assert(spans@ + midpoint_spans(cx as int, cy as int, x as int, y as int, d as int) == spans@);
    spans
}

/// A one-pixel-tall span inside the square of columns and rows `cx - r` to
/// `cx + r` and `cy - r` to `cy + r`, centred on column `cx`.
pub open spec fn span_in_circle_box(s: PixelRect, cx: int, cy: int, r: int) -> bool {
    &&& s.h == 1
    &&& cx - r <= s.x
    &&& s.x + s.w <= cx + r + 1
    &&& cy - r <= s.y <= cy + r
    &&& 2 * s.x + s.w == 2 * cx + 1
}

proof fn lemma_span_in_box(lx: int, rx: int, row: int, cx: int, cy: int, r: int)
    requires
        cx - r >= i32::MIN,
        cx + r <= i32::MAX,
        cy - r >= i32::MIN,
        cy + r <= i32::MAX,
        cx - r <= lx,
        rx <= cx + r,
        lx + rx == 2 * cx,
        cy - r <= row <= cy + r,
    ensures
        forall|i: int| 0 <= i < span(lx, rx, row).len() ==> span_in_circle_box(#[trigger] span(lx, rx, row)[i], cx, cy, r),
{
}

proof fn lemma_midpoint_in_box(cx: int, cy: int, x: int, y: int, d: int, r: int)
    requires
        cx - r >= i32::MIN,
        cx + r <= i32::MAX,
        cy - r >= i32::MIN,
        cy + r <= i32::MAX,
        0 <= x,
        y <= r,
    ensures
        forall|i: int|
            0 <= i < midpoint_spans(cx, cy, x, y, d).len() ==> span_in_circle_box(
                #[trigger] midpoint_spans(cx, cy, x, y, d)[i],
                cx,
                cy,
                r,
            ),
    decreases y - x + 2,
{
    if x <= y {
        lemma_span_in_box(cx - y, cx + y, cy + x, cx, cy, r);
        lemma_span_in_box(cx - y, cx + y, cy - x, cx, cy, r);
        lemma_span_in_box(cx - x, cx + x, cy + y, cx, cy, r);
        lemma_span_in_box(cx - x, cx + x, cy - y, cx, cy, r);
        let st = step_spans(cx, cy, x, y);
        assert forall|i: int| 0 <= i < st.len() implies span_in_circle_box(#[trigger] st[i], cx, cy, r) by {
            let a = span(cx - y, cx + y, cy + x);
            let b = span(cx - y, cx + y, cy - x);
            let c = span(cx - x, cx + x, cy + y);
            let e = span(cx - x, cx + x, cy - y);
            if i < a.len() {
                assert(st[i] == a[i]);
            } else if i < a.len() + b.len() {
                assert(st[i] == b[i - a.len()]);
            } else if i < a.len() + b.len() + c.len() {
                assert(st[i] == c[i - a.len() - b.len()]);
            } else {
                assert(st[i] == e[i - a.len() - b.len() - c.len()]);
            }
        }
        let rest = if d < 0 {
            midpoint_spans(cx, cy, x + 1, y, d + 2 * x + 3)
        } else {
            midpoint_spans(cx, cy, x + 1, y - 1, d + 2 * (x - y) + 5)
        };
        if d < 0 {
            lemma_midpoint_in_box(cx, cy, x + 1, y, d + 2 * x + 3, r);
        } else {
            lemma_midpoint_in_box(cx, cy, x + 1, y - 1, d + 2 * (x - y) + 5, r);
        }
        let all = midpoint_spans(cx, cy, x, y, d);
        assert(all == st + rest);
        assert forall|i: int| 0 <= i < all.len() implies span_in_circle_box(#[trigger] all[i], cx, cy, r) by {
            if i < st.len() {
                assert(all[i] == st[i]);
            } else {
                assert(all[i] == rest[i - st.len()]);
            }
        }
    }
}

/// Every span of a drawn circle lies inside the square of columns and rows
/// within `r` of the centre, and is centred on the centre's column.
pub proof fn lemma_circle_in_box(cx: int, cy: int, r: int)
    requires
        cx - r >= i32::MIN,
        cx + r <= i32::MAX,
        cy - r >= i32::MIN,
        cy + r <= i32::MAX,
    ensures
        forall|i: int|
            0 <= i < circle_layout(cx, cy, r).len() ==> span_in_circle_box(
                #[trigger] circle_layout(cx, cy, r)[i],
                cx,
                cy,
                r,
            ),
{
    lemma_midpoint_in_box(cx, cy, 0, r, 1 - r, r);
}

/// `s` mirrored across row `cy`.
pub open spec fn mirror_row(s: PixelRect, cy: int) -> PixelRect {
    PixelRect { y: (2 * cy - s.y) as i32, ..s }
}

proof fn lemma_midpoint_mirror(cx: int, cy: int, x: int, y: int, d: int, r: int)
    requires
        cx - r >= i32::MIN,
        cx + r <= i32::MAX,
        cy - r >= i32::MIN,
        cy + r <= i32::MAX,
        0 <= x,
        y <= r,
    ensures
        forall|s: PixelRect| #[trigger]
            midpoint_spans(cx, cy, x, y, d).contains(s) ==> midpoint_spans(cx, cy, x, y, d).contains(
                mirror_row(s, cy),
            ),
    decreases y - x + 2,
{
    broadcast use vstd::seq_lib::lemma_seq_concat_contains_all_elements;

    if x <= y {
        let a = span(cx - y, cx + y, cy + x);
        let b = span(cx - y, cx + y, cy - x);
        let c = span(cx - x, cx + x, cy + y);
        let e = span(cx - x, cx + x, cy - y);
        let rest = if d < 0 {
            midpoint_spans(cx, cy, x + 1, y, d + 2 * x + 3)
        } else {
            midpoint_spans(cx, cy, x + 1, y - 1, d + 2 * (x - y) + 5)
        };
        if d < 0 {
            lemma_midpoint_mirror(cx, cy, x + 1, y, d + 2 * x + 3, r);
        } else {
            lemma_midpoint_mirror(cx, cy, x + 1, y - 1, d + 2 * (x - y) + 5, r);
        }
        let all = midpoint_spans(cx, cy, x, y, d);
        assert(all == a + b + c + e + rest);
        assert forall|t: PixelRect| #[trigger] all.contains(t) implies all.contains(mirror_row(t, cy)) by {
            if a.contains(t) {
                assert(t == a[0]);
                assert(mirror_row(t, cy) == b[0]);
                assert((a + b).contains(b[0]));
            } else if b.contains(t) {
                assert(t == b[0]);
                assert(mirror_row(t, cy) == a[0]);
                assert((a + b).contains(a[0]));
            } else if c.contains(t) {
                assert(t == c[0]);
                assert(mirror_row(t, cy) == e[0]);
                assert((a + b + c + e).contains(e[0]));
            } else if e.contains(t) {
                assert(t == e[0]);
                assert(mirror_row(t, cy) == c[0]);
                assert((a + b + c).contains(c[0]));
            } else {
                assert(rest.contains(t));
            }
        }
    }
}

/// A drawn circle is symmetric about its centre row -- with every span it
/// also fills that span mirrored across row `cy` -- and its centre row is
/// filled from column `cx - r` to column `cx + r`.
pub proof fn lemma_circle_symmetric(cx: int, cy: int, r: int)
    requires
        cx - r >= i32::MIN,
        cx + r <= i32::MAX,
        cy - r >= i32::MIN,
        cy + r <= i32::MAX,
        0 <= r,
    ensures
        forall|s: PixelRect| #[trigger]
            circle_layout(cx, cy, r).contains(s) ==> circle_layout(cx, cy, r).contains(mirror_row(s, cy)),
        circle_layout(cx, cy, r).len() >= 1,
        circle_layout(cx, cy, r)[0] == (PixelRect { x: (cx - r) as i32, y: cy as i32, w: (2 * r + 1) as u32, h: 1 }),
{
    lemma_midpoint_mirror(cx, cy, 0, r, 1 - r, r);
    let a = span(cx - r, cx + r, cy);
    assert(a.len() == 1);
}

} // verus!
