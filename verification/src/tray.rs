//! Pixel layout of the tray icon's mini visualizer: a 32 x 32 RGBA image,
//! row-major from the top, with one bar per column growing up from the bottom.

use vstd::prelude::*;

verus! {

/// Width and height of the tray icon in pixels.
pub const ICON_SIZE: usize = 32;

/// Number of bytes of the icon image (four per pixel).
pub const ICON_BYTES: usize = 4096;

/// Rows lit in a column whose bar is `height` rows high: never fewer than one,
/// so the baseline shows even in silence.
pub open spec fn lit_rows(height: usize) -> int {
    if height >= 1 {
        height as int
    } else {
        1
    }
}

/// Byte `i` of the icon: pixel `i / 4`, channel `i % 4` (red, green, blue,
/// alpha). The pixel in row `row` from the top and column `x` is lit when its
/// height above the bottom row, `y = 31 - row`, is below the column's lit
/// rows; a lit pixel takes colour `palette[y]`, fully opaque, and any other
/// pixel is the translucent dark background (25, 25, 35, 180).
pub open spec fn icon_byte(heights: Seq<usize>, palette: Seq<(u8, u8, u8)>, i: int) -> u8 {
    let p = i / 4;
    let channel = i % 4;
    let row = p / 32;
    let x = p % 32;
    let y = 31 - row;
    if y < lit_rows(heights[x]) {
        if channel == 0 {
            palette[y].0
        } else if channel == 1 {
            palette[y].1
        } else if channel == 2 {
            palette[y].2
        } else {
            255
        }
    } else {
        if channel == 0 {
            25
        } else if channel == 1 {
            25
        } else if channel == 2 {
            35
        } else {
            180
        }
    }
}

proof fn lemma_byte_of_pixel(p: int, k: int)
    requires
        0 <= p,
        0 <= k < 4,
    ensures
        (4 * p + k) / 4 == p,
        (4 * p + k) % 4 == k,
{
    vstd::arithmetic::div_mod::lemma_fundamental_div_mod_converse(4 * p + k, 4, p, k);
}

/// RGBA image of the tray icon for the given bar height of each of the 32
/// columns (in rows, counted from the bottom) and the colour of each row
/// (index 0 is the bottom row).
pub fn paint_icon_rgba(heights: &[usize], palette: &[(u8, u8, u8)]) -> (r: Vec<u8>)
    requires
        heights@.len() == ICON_SIZE,
        palette@.len() == ICON_SIZE,
    ensures
        r@.len() == ICON_BYTES,
        forall|i: int| 0 <= i < ICON_BYTES ==> #[trigger] r@[i] == icon_byte(heights@, palette@, i),
{
    let mut out: Vec<u8> = Vec::with_capacity(ICON_BYTES);
    let mut p: usize = 0;
    while p < ICON_SIZE * ICON_SIZE
        invariant
            heights@.len() == ICON_SIZE,
            palette@.len() == ICON_SIZE,
            p <= ICON_SIZE * ICON_SIZE,
            out@.len() == 4 * p,
            forall|i: int| 0 <= i < 4 * p ==> #[trigger] out@[i] == icon_byte(heights@, palette@, i),
        decreases ICON_SIZE * ICON_SIZE - p,
    {
        let row = p / ICON_SIZE;
        let x = p % ICON_SIZE;
        let y = ICON_SIZE - 1 - row;
        let h = heights[x];
        let lit = if h >= 1 {
            y < h
        } else {
            y < 1
        };
        let (cr, cg, cb, ca): (u8, u8, u8, u8) = if lit {
            let c = palette[y];
            (c.0, c.1, c.2, 255)
        } else {
            (25, 25, 35, 180)
        };
        out.push(cr);
        out.push(cg);
        out.push(cb);
        out.push(ca);
        proof {
            lemma_byte_of_pixel(p as int, 0);
            lemma_byte_of_pixel(p as int, 1);
            lemma_byte_of_pixel(p as int, 2);
            lemma_byte_of_pixel(p as int, 3);
            assert(out@[4 * p + 0] == icon_byte(heights@, palette@, 4 * p + 0));
            assert(out@[4 * p + 1] == icon_byte(heights@, palette@, 4 * p + 1));
            assert(out@[4 * p + 2] == icon_byte(heights@, palette@, 4 * p + 2));
            assert(out@[4 * p + 3] == icon_byte(heights@, palette@, 4 * p + 3));
        }
        p += 1;
    }
    out
}

/// The bottom row of every column is lit, whatever the heights: the icon
/// keeps a visible baseline in silence.
pub proof fn law_baseline_always_lit(heights: Seq<usize>, palette: Seq<(u8, u8, u8)>, x: int)
    requires
        0 <= x < 32,
    ensures
        icon_byte(heights, palette, 4 * (31 * 32 + x) + 3) == 255,
        icon_byte(heights, palette, 4 * (31 * 32 + x)) == palette[0].0,
{
    lemma_byte_of_pixel(31 * 32 + x, 3);
    lemma_byte_of_pixel(31 * 32 + x, 0);
    vstd::arithmetic::div_mod::lemma_fundamental_div_mod_converse(31 * 32 + x, 32, 31, x);
}

/// A pixel above a column's bar is background, and one within it is opaque:
/// each column is one solid bar growing up from the bottom.
pub proof fn law_columns_are_solid_bars(
    heights: Seq<usize>,
    palette: Seq<(u8, u8, u8)>,
    row: int,
    x: int,
)
    requires
        0 <= row < 32,
        0 <= x < 32,
    ensures
        31 - row < lit_rows(heights[x]) ==> icon_byte(heights, palette, 4 * (row * 32 + x) + 3)
            == 255,
        31 - row >= lit_rows(heights[x]) ==> icon_byte(heights, palette, 4 * (row * 32 + x) + 3)
            == 180,
{
    lemma_byte_of_pixel(row * 32 + x, 3);
    vstd::arithmetic::div_mod::lemma_fundamental_div_mod_converse(row * 32 + x, 32, row, x);
}

/// Each pixel of the icon is one of two colours: lit, it has the three colour
/// bytes of its row's palette entry (row `row` from the top is height
/// `31 - row` above the bottom) and is opaque, whatever its column; unlit, it
/// is the translucent dark background.
pub proof fn law_pixel_colours(heights: Seq<usize>, palette: Seq<(u8, u8, u8)>, row: int, x: int)
    requires
        0 <= row < 32,
        0 <= x < 32,
    ensures
        ({
            let p = row * 32 + x;
            let y = 31 - row;
            &&& y < lit_rows(heights[x]) ==> {
                &&& icon_byte(heights, palette, 4 * p) == palette[y].0
                &&& icon_byte(heights, palette, 4 * p + 1) == palette[y].1
                &&& icon_byte(heights, palette, 4 * p + 2) == palette[y].2
                &&& icon_byte(heights, palette, 4 * p + 3) == 255
            }
            &&& y >= lit_rows(heights[x]) ==> {
                &&& icon_byte(heights, palette, 4 * p) == 25
                &&& icon_byte(heights, palette, 4 * p + 1) == 25
                &&& icon_byte(heights, palette, 4 * p + 2) == 35
                &&& icon_byte(heights, palette, 4 * p + 3) == 180
            }
        }),
{
    lemma_byte_of_pixel(row * 32 + x, 0);
    lemma_byte_of_pixel(row * 32 + x, 1);
    lemma_byte_of_pixel(row * 32 + x, 2);
    lemma_byte_of_pixel(row * 32 + x, 3);
    vstd::arithmetic::div_mod::lemma_fundamental_div_mod_converse(row * 32 + x, 32, row, x);
    assert(4 * (row * 32 + x) == 4 * (row * 32 + x) + 0);
}

} // verus!
