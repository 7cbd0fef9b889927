use retro_arcade::raster::{circle_spans, outline_strips, scanline_bars, thick_line_bands, vignette_strips, PixelRect};

fn r(x: i32, y: i32, w: u32, h: u32) -> PixelRect {
    PixelRect { x, y, w, h }
}

#[test]
fn scanlines_cover_the_screen() {
    let bars = scanline_bars(640, 480, 1, 3);
    assert_eq!(bars.len(), 120);
    assert_eq!(bars[0], r(0, 0, 640, 1));
    assert_eq!(bars[119], r(0, 476, 640, 1));
}

#[test]
fn last_scanline_is_cut_at_the_edge() {
    let bars = scanline_bars(10, 5, 2, 2);
    assert_eq!(bars, vec![r(0, 0, 10, 2), r(0, 4, 10, 1)]);
}

#[test]
fn no_scanlines_for_degenerate_input() {
    assert!(scanline_bars(10, 0, 2, 2).is_empty());
    assert!(scanline_bars(10, 10, 0, 2).is_empty());
    assert!(scanline_bars(10, 10, 2, -2).is_empty());
}

#[test]
fn vignette_layer_has_four_strips() {
    let s = vignette_strips(0, 0, 100, 50, 10);
    assert_eq!(s, vec![r(0, 0, 100, 10), r(0, 40, 100, 10), r(0, 10, 10, 30), r(90, 10, 10, 30)]);
}

#[test]
fn vignette_of_thick_border_leaves_out_sides() {
    let s = vignette_strips(5, 5, 20, 20, 10);
    assert_eq!(s, vec![r(5, 5, 20, 10), r(5, 15, 20, 10)]);
}

#[test]
fn circle_of_radius_zero_is_one_pixel() {
    let s = circle_spans(3, 4, 0);
    assert!(!s.is_empty());
    assert!(s.iter().all(|x| *x == r(3, 4, 1, 1)));
}

#[test]
fn circle_of_radius_one() {
    let s = circle_spans(10, 20, 1);
    assert_eq!(s, vec![r(9, 20, 3, 1), r(9, 20, 3, 1), r(10, 21, 1, 1), r(10, 19, 1, 1)]);
}

#[test]
fn circle_of_radius_two() {
    // x=0,y=2,d=-1: columns 8..=12 on row 20 (twice), column 10 on rows 22
    // and 18; then x=1,y=2,d=2: columns 8..=12 on rows 21 and 19, columns
    // 9..=11 on rows 22 and 18; then x=2,y=1 stops.
    let s = circle_spans(10, 20, 2);
    assert_eq!(
        s,
        vec![
            r(8, 20, 5, 1),
            r(8, 20, 5, 1),
            r(10, 22, 1, 1),
            r(10, 18, 1, 1),
            r(8, 21, 5, 1),
            r(8, 19, 5, 1),
            r(9, 22, 3, 1),
            r(9, 18, 3, 1),
        ]
    );
}

#[test]
fn circle_is_symmetric_about_its_centre() {
    let (cx, cy) = (10, 10);
    let s = circle_spans(cx, cy, 2);
    let filled = |px: i32, py: i32| s.iter().any(|q| q.y == py && q.x <= px && px < q.x + q.w as i32);
    for py in 0..20 {
        for px in 0..20 {
            assert_eq!(filled(px, py), filled(2 * cx - px, py));
            assert_eq!(filled(px, py), filled(px, 2 * cy - py));
        }
    }
    assert!((8..=12).all(|px| filled(px, 10)));
    assert!((9..=11).all(|px| filled(px, 8) && filled(px, 12)));
    assert!(!filled(8, 8) && !filled(13, 10));
}

#[test]
fn circle_stays_in_its_box() {
    let (cx, cy, rad) = (50, 60, 7);
    for s in circle_spans(cx, cy, rad) {
        assert!(s.x >= cx - rad && s.x + s.w as i32 <= cx + rad + 1);
        assert!(s.y >= cy - rad && s.y <= cy + rad);
        assert_eq!(2 * s.x + s.w as i32, 2 * cx + 1);
    }
}

#[test]
fn outline_is_drawn_inward() {
    let s = outline_strips(5, 5, 20, 10, 2);
    assert_eq!(s, [r(5, 5, 20, 2), r(5, 13, 20, 2), r(5, 5, 2, 10), r(23, 5, 2, 10)]);
}

#[test]
fn thick_lines_follow_the_segment() {
    let b = thick_line_bands(30, 20, 10, 25, 4);
    assert_eq!(b.len(), 21);
    assert_eq!(b[0], r(10, 23, 1, 4));
    assert_eq!(b[2], r(12, 22, 1, 4));
    assert_eq!(b[20], r(30, 18, 1, 4));
    let v = thick_line_bands(10, 60, 12, 20, 3);
    assert_eq!(v.len(), 41);
    assert_eq!(v[0], r(11, 20, 3, 1));
    assert_eq!(v[10], r(10, 30, 3, 1));
    assert_eq!(v[40], r(9, 60, 3, 1));
    assert_eq!(thick_line_bands(5, 5, 5, 5, 4), vec![r(5, 3, 1, 4)]);
}

#[test]
fn diagonal_thick_line_covers_its_pixels() {
    let b = thick_line_bands(0, 0, 10, 10, 4);
    assert_eq!(b.len(), 11);
    for (k, band) in b.iter().enumerate() {
        assert_eq!(*band, r(k as i32, k as i32 - 2, 1, 4));
    }
    let covers = |px: i32, py: i32| b.iter().any(|q| q.x <= px && px < q.x + q.w as i32 && q.y <= py && py < q.y + q.h as i32);
    assert!(covers(9, 9));
    assert!(covers(10, 10));
    assert!(covers(0, 0));
}
