use retro_arcade::sprite::{
    digit_sprite_image, max_row_bytes, palette_sprite_pixels, sprite_pixels, Rgba8, SpriteError,
};

const RED: Rgba8 = Rgba8 { r: 255, g: 0, b: 0, a: 255 };
const GREEN: Rgba8 = Rgba8 { r: 0, g: 255, b: 0, a: 128 };

fn px(pixels: &[u8], i: usize) -> [u8; 4] {
    [pixels[4 * i], pixels[4 * i + 1], pixels[4 * i + 2], pixels[4 * i + 3]]
}

#[test]
fn sprite_pixels_paints_digits() {
    let img = sprite_pixels(&["12", "1"], &[RED, GREEN]).unwrap();
    assert_eq!(img.width, 2);
    assert_eq!(img.height, 2);
    assert_eq!(img.pixels.len(), 16);
    assert_eq!(px(&img.pixels, 0), [255, 0, 0, 255]);
    assert_eq!(px(&img.pixels, 1), [0, 255, 0, 128]);
    assert_eq!(px(&img.pixels, 2), [255, 0, 0, 255]);
    assert_eq!(px(&img.pixels, 3), [0, 0, 0, 0]);
}

#[test]
fn sprite_pixels_unknown_digit_is_transparent() {
    let img = sprite_pixels(&[".3"], &[RED]).unwrap();
    assert_eq!(img.width, 2);
    assert_eq!(px(&img.pixels, 0), [0, 0, 0, 0]);
    assert_eq!(px(&img.pixels, 1), [0, 0, 0, 0]);
}

#[test]
fn sprite_pixels_rejects_empty_art() {
    assert!(matches!(sprite_pixels(&[], &[RED]), Err(SpriteError::EmptyArt)));
    assert!(matches!(sprite_pixels(&["", ""], &[RED]), Err(SpriteError::EmptyArt)));
}

#[test]
fn max_row_bytes_is_longest_row() {
    assert_eq!(max_row_bytes(&["ab", "abcd", ""]), 4);
    assert_eq!(max_row_bytes(&[]), 0);
}

#[test]
fn digit_sprite_image_uses_first_row_width() {
    let img = digit_sprite_image(&["1.", "21"], &[RED, GREEN]);
    assert_eq!(img.width, 2);
    assert_eq!(img.height, 2);
    assert_eq!(px(&img.pixels, 0), [255, 0, 0, 255]);
    assert_eq!(px(&img.pixels, 1), [0, 0, 0, 0]);
    assert_eq!(px(&img.pixels, 2), [0, 255, 0, 128]);
    assert_eq!(px(&img.pixels, 3), [255, 0, 0, 255]);
}

#[test]
fn palette_sprite_is_opaque_and_framed() {
    let pixels = palette_sprite_pixels(&["ab"], 2, 2, &[('a', GREEN), ('a', RED)]);
    assert_eq!(pixels.len(), 16);
    assert_eq!(px(&pixels, 0), [0, 255, 0, 255]);
    assert_eq!(px(&pixels, 1), [0, 0, 0, 0]);
    assert_eq!(px(&pixels, 2), [0, 0, 0, 0]);
    assert_eq!(px(&pixels, 3), [0, 0, 0, 0]);
}
