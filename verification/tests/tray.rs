use sumi::tray::{paint_icon_rgba, ICON_BYTES, ICON_SIZE};

fn palette() -> Vec<(u8, u8, u8)> {
    (0..32u8).map(|y| (y, 100, 200 - y)).collect()
}

fn pixel(img: &[u8], row: usize, x: usize) -> [u8; 4] {
    let i = (row * ICON_SIZE + x) * 4;
    [img[i], img[i + 1], img[i + 2], img[i + 3]]
}

#[test]
fn silent_icon_shows_only_the_baseline() {
    let img = paint_icon_rgba(&[0usize; 32], &palette());
    assert_eq!(img.len(), ICON_BYTES);
    for x in 0..32 {
        assert_eq!(pixel(&img, 31, x), [0, 100, 200, 255]);
        for row in 0..31 {
            assert_eq!(pixel(&img, row, x), [25, 25, 35, 180]);
        }
    }
}

#[test]
fn columns_grow_from_the_bottom() {
    let mut heights = [0usize; 32];
    heights[0] = 3;
    heights[5] = 32;
    heights[7] = 1000;
    let img = paint_icon_rgba(&heights, &palette());
    assert_eq!(pixel(&img, 31, 0), [0, 100, 200, 255]);
    assert_eq!(pixel(&img, 29, 0), [2, 100, 198, 255]);
    assert_eq!(pixel(&img, 28, 0), [25, 25, 35, 180]);
    assert_eq!(pixel(&img, 0, 5), [31, 100, 169, 255]);
    assert_eq!(pixel(&img, 0, 7), [31, 100, 169, 255]);
    assert_eq!(pixel(&img, 0, 6), [25, 25, 35, 180]);
    let lit: usize = (0..32).filter(|&row| pixel(&img, row, 0)[3] == 255).count();
    assert_eq!(lit, 3);
}
