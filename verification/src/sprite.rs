//! String-art sprites: each text row is one row of pixels, each character
//! selects a colour. The result is an RGBA8 byte buffer, row-major,
//! 4 bytes per pixel, ready to upload as a texture.
use vstd::prelude::*;
use vstd::utf8::encode_utf8;
use vstd::string::StringSliceAdditionalSpecFns;
use vstd::arithmetic::div_mod::lemma_fundamental_div_mod_converse;

verus! {

/// A colour with 8-bit channels.
#[derive(Debug, Clone, Copy, PartialEq, Eq, Structural)]
pub struct Rgba8 {
    pub r: u8,
    pub g: u8,
    pub b: u8,
    pub a: u8,
}

/// The fully transparent colour.
pub open spec fn blank() -> Rgba8 {
    Rgba8 { r: 0, g: 0, b: 0, a: 0 }
}

/// The fully transparent colour.
pub fn blank_rgba() -> (c: Rgba8)
    ensures
        c == blank(),
{
    Rgba8 { r: 0, g: 0, b: 0, a: 0 }
}

/// Pixel `i` of an RGBA8 buffer holds colour `c`.
pub open spec fn pixel_is(pixels: Seq<u8>, i: int, c: Rgba8) -> bool {
    &&& pixels[4 * i] == c.r
    &&& pixels[4 * i + 1] == c.g
    &&& pixels[4 * i + 2] == c.b
    &&& pixels[4 * i + 3] == c.a
}

/// A character of digit art selects a colour: '1'..'9' pick `colors[d - 1]`
/// when there are that many colours.
pub open spec fn digit_hit(ch: char, colors: Seq<Rgba8>) -> bool {
    '1' <= ch && ch <= '9' && (ch as int) - ('0' as int) <= colors.len()
}

/// The colour a character of digit art stands for; anything else is transparent.
pub open spec fn digit_color(ch: char, colors: Seq<Rgba8>) -> Rgba8 {
    if digit_hit(ch, colors) {
        colors[(ch as int) - ('1' as int)]
    } else {
        blank()
    }
}

/// The colour of cell (`r`, `c`) of digit art; cells past the end of a row are transparent.
pub open spec fn art_cell(art: Seq<&str>, colors: Seq<Rgba8>, r: int, c: int) -> Rgba8 {
    if 0 <= r < art.len() && 0 <= c < art[r]@.len() {
        digit_color(art[r]@[c], colors)
    } else {
        blank()
    }
}

/// The buffer is the `width` x `height` image of the cells of digit art.
pub open spec fn digit_image(
    pixels: Seq<u8>,
    art: Seq<&str>,
    colors: Seq<Rgba8>,
    width: int,
    height: int,
) -> bool {
    &&& pixels.len() == 4 * (width * height)
    &&& forall|i: int|
        0 <= i < width * height ==> #[trigger] pixel_is(
            pixels,
            i,
            art_cell(art, colors, i / width, i % width),
        )
}

/// The value of the digit character `ch` (`'0'` is 0, ..., `'9'` is 9).
pub open spec fn digit_value(ch: char) -> int {
    (ch as int) - ('0' as int)
}

/// Digit art paints by number: a digit `d` from 1 to 9 with at least `d`
/// colours stands for `colors[d - 1]`; every other character -- `'.'`,
/// `'0'`, a digit past the last colour, anything else -- is transparent.
pub proof fn lemma_paint_by_number(ch: char, colors: Seq<Rgba8>)
    ensures
        1 <= digit_value(ch) <= 9 && digit_value(ch) <= colors.len() ==> digit_color(ch, colors)
            == colors[digit_value(ch) - 1],
        !(1 <= digit_value(ch) <= 9 && digit_value(ch) <= colors.len()) ==> digit_color(ch, colors) == blank(),
{
}

/// In an image of digit art, the pixel of a cell whose character is digit
/// `d` (1 to 9, with at least `d` colours) has colour `colors[d - 1]`; the
/// pixel of a cell holding any other character, or past the end of its row,
/// is transparent.
pub proof fn lemma_image_paints_by_number(
    pixels: Seq<u8>,
    art: Seq<&str>,
    colors: Seq<Rgba8>,
    width: int,
    height: int,
    r: int,
    c: int,
)
    requires
        digit_image(pixels, art, colors, width, height),
        0 <= r < height,
        0 <= c < width,
        height <= art.len(),
    ensures
        ({
            let i = r * width + c;
            if c < art[r]@.len() && 1 <= digit_value(art[r]@[c]) <= 9 && digit_value(art[r]@[c]) <= colors.len() {
                pixel_is(pixels, i, colors[digit_value(art[r]@[c]) - 1])
            } else {
                pixel_is(pixels, i, blank())
            }
        }),
{
    lemma_cell_index(r, c, width);
    let i = r * width + c;
    assert(0 <= i < width * height) by (nonlinear_arith)
        requires
            0 <= r < height,
            0 <= c < width,
            i == r * width + c,
    ;
    assert(pixel_is(pixels, i, art_cell(art, colors, i / width, i % width)));
    if c < art[r]@.len() {
        lemma_paint_by_number(art[r]@[c], colors);
    }
}

/// The length in bytes of the longest row.
pub open spec fn max_row_len(art: Seq<&str>) -> nat
    decreases art.len(),
{
    if art.len() == 0 {
        0
    } else {
        let m = max_row_len(art.drop_last());
        let l = art.last().spec_bytes().len();
        if l > m {
            l
        } else {
            m
        }
    }
}

/// Why a sprite could not be built.
#[derive(Debug, Clone, Copy, PartialEq, Eq, Structural)]
pub enum SpriteError {
    /// The art has no rows, or only empty rows.
    EmptyArt,
}

/// A built sprite image.
pub struct SpriteImage {
    pub width: u32,
    pub height: u32,
    /// RGBA8 bytes, row-major.
    pub pixels: Vec<u8>,
}

/// A text row never has more characters than bytes.
pub proof fn lemma_chars_le_bytes(s: Seq<char>)
    ensures
        s.len() <= encode_utf8(s).len(),
    decreases s.len(),
{
    if s.len() > 0 {
        lemma_chars_le_bytes(s.drop_first());
    }
}

proof fn lemma_cell_index(r: int, c: int, w: int)
    requires
        0 <= r,
        0 <= c < w,
    ensures
        (r * w + c) / w == r,
        (r * w + c) % w == c,
{
    lemma_fundamental_div_mod_converse(r * w + c, w, r, c);
}

proof fn lemma_row_step(r: int, w: int, h: int)
    requires
        0 <= r < h,
        0 <= w,
    ensures
        (r + 1) * w == r * w + w,
        r * w + w <= h * w,
        0 <= r * w,
{
    assert((r + 1) * w == r * w + w) by (nonlinear_arith);
    assert(r * w + w <= h * w) by (nonlinear_arith)
        requires
            r < h,
            0 <= w,
    ;
    assert(0 <= r * w) by (nonlinear_arith)
        requires
            0 <= r,
            0 <= w,
    ;
}

fn digit_color_of(ch: char, colors: &[Rgba8]) -> (c: Rgba8)
    ensures
        c == digit_color(ch, colors@),
{
    if '1' <= ch && ch <= '9' {
        let d = (ch as u32 - '0' as u32) as usize;
        if d <= colors.len() {
            return colors[d - 1];
        }
    }
    blank_rgba()
}

fn push_color(pixels: &mut Vec<u8>, c: Rgba8)
    ensures
        final(pixels)@ == old(pixels)@ + seq![c.r, c.g, c.b, c.a],
{
    pixels.push(c.r);
    pixels.push(c.g);
    pixels.push(c.b);
    pixels.push(c.a);
}

/// Lay out the first `height` rows of digit art as a `width`-wide image.
fn digit_cells(art: &[&str], colors: &[Rgba8], width: usize, height: usize) -> (pixels: Vec<u8>)
    requires
        height <= art@.len(),
        4 * (width * height) <= usize::MAX,
    ensures
        digit_image(pixels@, art@, colors@, width as int, height as int),
{
    let mut pixels: Vec<u8> = Vec::new();
    let mut r: usize = 0;
    while r < height
        invariant
            r <= height,
            height <= art@.len(),
            4 * (width * height) <= usize::MAX,
            0 <= r * width <= width * height,
            pixels@.len() == 4 * (r * width),
            forall|i: int|
                0 <= i < r * width ==> #[trigger] pixel_is(
                    pixels@,
                    i,
                    art_cell(art@, colors@, i / (width as int), i % (width as int)),
                ),
        decreases height - r,
    {
        proof {
            lemma_row_step(r as int, width as int, height as int);
        }
        let row = art[r];
        let blen = row.as_bytes().len();
        proof {
            lemma_chars_le_bytes(row@);
        }
        let ghost base = r * width;
        let mut c: usize = 0;
        let mut k: usize = 0;
        for ch in it: row.chars()
            invariant
                c == it.index(),
                it.seq() == row@,
                row@.len() <= blen,
                row == art@[r as int],
                r < height,
                height <= art@.len(),
                k <= width,
                k == (if c < width { c } else { width }),
                base == r * width,
                0 <= base,
                base + width <= width * height,
                4 * (width * height) <= usize::MAX,
                pixels@.len() == 4 * (base + k),
                forall|i: int|
                    0 <= i < base + k ==> #[trigger] pixel_is(
                        pixels@,
                        i,
                        art_cell(art@, colors@, i / (width as int), i % (width as int)),
                    ),
        {
            if c < width {
                let col = digit_color_of(ch, colors);
                let ghost old_px = pixels@;
                push_color(&mut pixels, col);
                proof {
                    lemma_cell_index(r as int, c as int, width as int);
                    let i0 = base + c;
                    assert(art_cell(art@, colors@, i0 / (width as int), i0 % (width as int)) == col);
                    assert forall|i: int| 0 <= i < base + k + 1 implies #[trigger] pixel_is(
                        pixels@,
                        i,
                        art_cell(art@, colors@, i / (width as int), i % (width as int)),
                    ) by {
                        if i < base + k {
                            assert(pixel_is(old_px, i, art_cell(art@, colors@, i / (width as int), i % (width as int))));
                        }
                    }
                }
                k = k + 1;
            }
            c = c + 1;
        }
        while k < width
            invariant
                k <= width,
                r < height,
                height <= art@.len(),
                k >= art@[r as int]@.len() || k == width,
                base == r * width,
                0 <= base,
                base + width <= width * height,
                4 * (width * height) <= usize::MAX,
                pixels@.len() == 4 * (base + k),
                forall|i: int|
                    0 <= i < base + k ==> #[trigger] pixel_is(
                        pixels@,
                        i,
                        art_cell(art@, colors@, i / (width as int), i % (width as int)),
                    ),
            decreases width - k,
        {
            let ghost old_px = pixels@;
            push_color(&mut pixels, blank_rgba());
            proof {
                lemma_cell_index(r as int, k as int, width as int);
                assert forall|i: int| 0 <= i < base + k + 1 implies #[trigger] pixel_is(
                    pixels@,
                    i,
                    art_cell(art@, colors@, i / (width as int), i % (width as int)),
                ) by {
                    if i < base + k {
                        assert(pixel_is(old_px, i, art_cell(art@, colors@, i / (width as int), i % (width as int))));
                    }
                }
            }
            k = k + 1;
        }
        r = r + 1;
    }
    assert(r * width == width * height) by (nonlinear_arith)
        requires
            r == height,
    ;
    pixels
}

/// The length in bytes of the longest row.
pub fn max_row_bytes(art: &[&str]) -> (m: usize)
    ensures
        m == max_row_len(art@),
{
    let mut m: usize = 0;
    let mut i: usize = 0;
    while i < art.len()
        invariant
            i <= art@.len(),
            m == max_row_len(art@.subrange(0, i as int)),
        decreases art@.len() - i,
    {
        let l = art[i].as_bytes().len();
        assert(art@.subrange(0, i + 1).drop_last() =~= art@.subrange(0, i as int));
        if l > m {
            m = l;
        }
        i = i + 1;
    }
    assert(art@.subrange(0, art@.len() as int) =~= art@);
    m
}

/// Bake string art into an RGBA8 image for the SDL renderer.
///
/// Each string of `art` is one row of pixels; the image is as wide as the
/// longest row (in bytes) and has one pixel row per string. Characters '1'..'9'
/// select `colors[d - 1]` (1-based) when that colour exists; '.', other
/// characters and cells past the end of a short row are transparent.
pub fn sprite_pixels(art: &[&str], colors: &[Rgba8]) -> (res: Result<SpriteImage, SpriteError>)
    requires
        4 * (art@.len() * max_row_len(art@)) <= u32::MAX,
    ensures
        res is Err <==> (art@.len() == 0 || max_row_len(art@) == 0),
        res is Err ==> res == Err::<SpriteImage, SpriteError>(SpriteError::EmptyArt),
        res matches Ok(img) ==> {
            &&& img.width == max_row_len(art@)
            &&& img.height == art@.len()
            &&& digit_image(img.pixels@, art@, colors@, img.width as int, img.height as int)
        },
{
    let width = max_row_bytes(art);
    let height = art.len();
    if width == 0 || height == 0 {
        return Err(SpriteError::EmptyArt);
    }
    assert(width * height == height * width && width <= u32::MAX && height <= u32::MAX) by (nonlinear_arith)
        requires
            width >= 1,
            height >= 1,
            4 * (height * width) <= u32::MAX,
    ;
    let pixels = digit_cells(art, colors, width, height);
    Ok(SpriteImage { width: width as u32, height: height as u32, pixels })
}

/// Bake string art into an RGBA8 image the way the games' own sprite
/// builder does: the image is as wide as the first row (in bytes) and starts
/// fully transparent; characters '1'..'9' paint `colors[d - 1]` when that
/// colour exists, everything else stays transparent.
pub fn digit_sprite_image(art: &[&str], colors: &[Rgba8]) -> (img: SpriteImage)
    requires
        art@.len() >= 1,
        art@.len() <= u16::MAX,
        art@[0].spec_bytes().len() <= u16::MAX,
        4 * (art@[0].spec_bytes().len() * art@.len()) <= usize::MAX,
        forall|r: int, c: int|
            0 <= r < art@.len() && 0 <= c < art@[r]@.len() && #[trigger] digit_hit(art@[r]@[c], colors@)
                ==> c < art@[0].spec_bytes().len(),
    ensures
        img.width == art@[0].spec_bytes().len(),
        img.height == art@.len(),
        digit_image(img.pixels@, art@, colors@, img.width as int, img.height as int),
{
    let width = art[0].as_bytes().len();
    let height = art.len();
    let pixels = digit_cells(art, colors, width, height);
    SpriteImage { width: width as u32, height: height as u32, pixels }
}

/// The colour a palette gives a character: the first entry with that key.
pub open spec fn palette_lookup(palette: Seq<(char, Rgba8)>, ch: char) -> Option<Rgba8>
    decreases palette.len(),
{
    if palette.len() == 0 {
        None
    } else if palette[0].0 == ch {
        Some(palette[0].1)
    } else {
        palette_lookup(palette.drop_first(), ch)
    }
}

/// A palette gives a character the colour of its first entry with that
/// key, and no colour when no entry has that key.
pub proof fn lemma_palette_first_match(palette: Seq<(char, Rgba8)>, ch: char, k: int)
    ensures
        0 <= k < palette.len() && palette[k].0 == ch && (forall|j: int| 0 <= j < k ==> palette[j].0 != ch)
            ==> palette_lookup(palette, ch) == Some(palette[k].1),
        (forall|j: int| 0 <= j < palette.len() ==> palette[j].0 != ch) ==> palette_lookup(palette, ch) is None,
    decreases palette.len(),
{
    if palette.len() > 0 {
        lemma_palette_first_match(palette.drop_first(), ch, k - 1);
        if forall|j: int| 0 <= j < palette.len() ==> palette[j].0 != ch {
            assert(palette[0].0 != ch);
            assert forall|j: int| 0 <= j < palette.drop_first().len() implies palette.drop_first()[j].0 != ch by {
                assert(palette.drop_first()[j] == palette[j + 1]);
            }
        }
        if 0 <= k < palette.len() && palette[k].0 == ch && (forall|j: int| 0 <= j < k ==> palette[j].0 != ch) {
            if k > 0 {
                assert(palette[0].0 != ch);
                assert(palette.drop_first()[k - 1] == palette[k]);
                assert forall|j: int| 0 <= j < k - 1 implies palette.drop_first()[j].0 != ch by {
                    assert(palette.drop_first()[j] == palette[j + 1]);
                }
            }
        }
    }
}

/// The colour of cell (`r`, `c`) of palette art: an opaque copy of the palette
/// colour of its character, transparent where the palette has no entry or the
/// row has no such cell.
pub open spec fn palette_cell(rows: Seq<&str>, palette: Seq<(char, Rgba8)>, r: int, c: int) -> Rgba8 {
    if 0 <= r < rows.len() && 0 <= c < rows[r]@.len() {
        match palette_lookup(palette, rows[r]@[c]) {
            Some(col) => Rgba8 { r: col.r, g: col.g, b: col.b, a: 255 },
            None => blank(),
        }
    } else {
        blank()
    }
}

fn palette_lookup_exec(palette: &[(char, Rgba8)], ch: char) -> (res: Option<Rgba8>)
    ensures
        res == palette_lookup(palette@, ch),
{
    let mut j: usize = 0;
    assert(palette@.subrange(0, palette@.len() as int) =~= palette@);
    while j < palette.len()
        invariant
            j <= palette@.len(),
            palette_lookup(palette@, ch) == palette_lookup(palette@.subrange(j as int, palette@.len() as int), ch),
        decreases palette@.len() - j,
    {
        let ghost rest = palette@.subrange(j as int, palette@.len() as int);
        assert(rest.drop_first() =~= palette@.subrange(j + 1, palette@.len() as int));
        let (key, col) = palette[j];
        if key == ch {
            return Some(col);
        }
        j = j + 1;
    }
    None
}

/// Bake palette art into a `w` x `h` RGBA8 image (the platformers' texture
/// builder). Cell (x, y) of the art is painted with the palette colour of its
/// character, fully opaque; characters without a palette entry, cells outside
/// the art and art outside the `w` x `h` frame leave the pixel transparent.
pub fn palette_sprite_pixels(rows: &[&str], w: usize, h: usize, palette: &[(char, Rgba8)]) -> (pixels: Vec<u8>)
    requires
        4 * (w * h) <= usize::MAX,
    ensures
        pixels@.len() == 4 * (w * h),
        forall|i: int|
            0 <= i < w * h ==> #[trigger] pixel_is(
                pixels@,
                i,
                palette_cell(rows@, palette@, i / (w as int), i % (w as int)),
            ),
{
    let mut pixels: Vec<u8> = Vec::new();
    let mut r: usize = 0;
    while r < h
        invariant
            r <= h,
            4 * (w * h) <= usize::MAX,
            0 <= r * w <= w * h,
            pixels@.len() == 4 * (r * w),
            forall|i: int|
                0 <= i < r * w ==> #[trigger] pixel_is(
                    pixels@,
                    i,
                    palette_cell(rows@, palette@, i / (w as int), i % (w as int)),
                ),
        decreases h - r,
    {
        proof {
            lemma_row_step(r as int, w as int, h as int);
        }
        let ghost base = r * w;
        let mut k: usize = 0;
        if r < rows.len() {
            let row = rows[r];
            let blen = row.as_bytes().len();
            proof {
                lemma_chars_le_bytes(row@);
            }
            let mut c: usize = 0;
            for ch in it: row.chars()
                invariant
                    c == it.index(),
                    it.seq() == row@,
                    row@.len() <= blen,
                    r < rows@.len(),
                    row == rows@[r as int],
                    k <= w,
                    k == (if c < w { c } else { w }),
                    base == r * w,
                    0 <= base,
                    base + w <= w * h,
                    4 * (w * h) <= usize::MAX,
                    pixels@.len() == 4 * (base + k),
                    forall|i: int|
                        0 <= i < base + k ==> #[trigger] pixel_is(
                            pixels@,
                            i,
                            palette_cell(rows@, palette@, i / (w as int), i % (w as int)),
                        ),
            {
                if c < w {
                    let col = match palette_lookup_exec(palette, ch) {
                        Some(p) => Rgba8 { r: p.r, g: p.g, b: p.b, a: 255 },
                        None => blank_rgba(),
                    };
                    let ghost old_px = pixels@;
                    push_color(&mut pixels, col);
                    proof {
                        lemma_cell_index(r as int, c as int, w as int);
                        let i0 = base + c;
                        assert(palette_cell(rows@, palette@, i0 / (w as int), i0 % (w as int)) == col);
                        assert forall|i: int| 0 <= i < base + k + 1 implies #[trigger] pixel_is(
                            pixels@,
                            i,
                            palette_cell(rows@, palette@, i / (w as int), i % (w as int)),
                        ) by {
                            if i < base + k {
                                assert(pixel_is(old_px, i, palette_cell(rows@, palette@, i / (w as int), i % (w as int))));
                            }
                        }
                    }
                    k = k + 1;
                }
                c = c + 1;
            }
        }
        while k < w
            invariant
                k <= w,
                r < h,
                r >= rows@.len() || k >= rows@[r as int]@.len() || k == w,
                base == r * w,
                0 <= base,
                base + w <= w * h,
                4 * (w * h) <= usize::MAX,
                pixels@.len() == 4 * (base + k),
                forall|i: int|
                    0 <= i < base + k ==> #[trigger] pixel_is(
                        pixels@,
                        i,
                        palette_cell(rows@, palette@, i / (w as int), i % (w as int)),
                    ),
            decreases w - k,
        {
            let ghost old_px = pixels@;
            push_color(&mut pixels, blank_rgba());
            proof {
                lemma_cell_index(r as int, k as int, w as int);
                assert forall|i: int| 0 <= i < base + k + 1 implies #[trigger] pixel_is(
                    pixels@,
                    i,
                    palette_cell(rows@, palette@, i / (w as int), i % (w as int)),
                ) by {
                    if i < base + k {
                        assert(pixel_is(old_px, i, palette_cell(rows@, palette@, i / (w as int), i % (w as int))));
                    }
                }
            }
            k = k + 1;
        }
        r = r + 1;
    }
    assert(r * w == w * h) by (nonlinear_arith)
        requires
            r == h,
    ;
    pixels
}

} // verus!
