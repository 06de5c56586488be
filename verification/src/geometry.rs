//! Grid geometry and the coordinate resolver.
//!
//! The screen is tiled by a 26 by 26 main grid; one main cell is refined
//! by a 3-row, 8-column subgrid drawn inside the cell with a fixed inner
//! padding. The resolver turns grid indices into the pixel center of the
//! addressed region. All intermediate arithmetic is exact: every center
//! is a rational number with a small fixed denominator, and rounding to
//! a whole pixel happens once, at the end.

use vstd::prelude::*;

verus! {

use vstd::arithmetic::div_mod::lemma_div_pos_is_pos;
use vstd::arithmetic::div_mod::lemma_multiply_divide_lt;

/// A resolved absolute pixel target, the sole output of the resolver.
#[derive(Clone, Copy, PartialEq, Eq, Structural, Debug)]
pub struct ClickTarget {
    pub x: u32,
    pub y: u32,
}

/// Immutable targeting configuration: the screen extent in pixels and
/// the inner padding, in pixels, between a main cell's border and its
/// subgrid.
#[derive(Clone, Copy, PartialEq, Eq, Structural, Debug)]
pub struct GridGeometry {
    pub screen_w: u32,
    pub screen_h: u32,
    pub padding: u32,
}

impl GridGeometry {
    /// Well-formed configurations: a non-empty screen whose coordinates
    /// fit the signed 32-bit pointer-injection interface, and padding
    /// small enough that every main cell (one 26th of the screen per
    /// axis) keeps a non-empty inner box after shrinking by the padding
    /// on both sides (`2 * padding <= screen / 26`).
    pub open spec fn wf(self) -> bool {
        &&& 1 <= self.screen_w <= 0x7fff_ffff
        &&& 1 <= self.screen_h <= 0x7fff_ffff
        &&& 52 * self.padding <= self.screen_w
        &&& 52 * self.padding <= self.screen_h
    }
}

/// `num / den` rounded to the nearest integer, halves rounding up.
pub open spec fn round_to_nearest(num: int, den: int) -> int
    recommends
        0 <= num,
        1 <= den,
{
    (2 * num + den) / (2 * den)
}

/// Numerator, over the denominator 416, of the exact x coordinate of a
/// precision target: with cell width `w / 26`, inner width
/// `w / 26 - 2 * p`, and sub-cell width `(w / 26 - 2 * p) / 8`, the
/// center of sub-column `sub_col` inside main column `col` lies at
/// `col * w / 26 + p + (2 * sub_col + 1) * (w / 26 - 2 * p) / 16`,
/// which over the common denominator `416 = 26 * 16` has this
/// numerator.
pub open spec fn precision_x_num(g: GridGeometry, col: int, sub_col: int) -> int {
    16 * col * g.screen_w + 416 * g.padding + (2 * sub_col + 1) * (g.screen_w - 52 * g.padding)
}

/// Numerator, over the denominator 156, of the exact y coordinate of a
/// precision target: the center of sub-row `sub_row` inside main row
/// `row` lies at
/// `row * h / 26 + p + (2 * sub_row + 1) * (h / 26 - 2 * p) / 6`,
/// which over the common denominator `156 = 26 * 6` has this numerator.
pub open spec fn precision_y_num(g: GridGeometry, row: int, sub_row: int) -> int {
    6 * row * g.screen_h + 156 * g.padding + (2 * sub_row + 1) * (g.screen_h - 52 * g.padding)
}

/// The x coordinate, rounded to the nearest pixel, of the center of a
/// subgrid cell.
pub open spec fn precision_x(g: GridGeometry, col: int, sub_col: int) -> int {
    round_to_nearest(precision_x_num(g, col, sub_col), 416)
}

/// The y coordinate, rounded to the nearest pixel, of the center of a
/// subgrid cell.
pub open spec fn precision_y(g: GridGeometry, row: int, sub_row: int) -> int {
    round_to_nearest(precision_y_num(g, row, sub_row), 156)
}

/// The x coordinate, rounded to the nearest pixel, of the center of a
/// main cell: `col * w / 26 + w / 52 = (2 * col + 1) * w / 52` exactly.
pub open spec fn cell_center_x(g: GridGeometry, col: int) -> int {
    round_to_nearest((2 * col + 1) * g.screen_w, 52)
}

/// The y coordinate, rounded to the nearest pixel, of the center of a
/// main cell.
pub open spec fn cell_center_y(g: GridGeometry, row: int) -> int {
    round_to_nearest((2 * row + 1) * g.screen_h, 52)
}

/// The x coordinate, rounded to the nearest pixel, of the screen
/// center.
pub open spec fn screen_center_x(g: GridGeometry) -> int {
    round_to_nearest(g.screen_w as int, 2)
}

/// The y coordinate, rounded to the nearest pixel, of the screen
/// center.
pub open spec fn screen_center_y(g: GridGeometry) -> int {
    round_to_nearest(g.screen_h as int, 2)
}

/// Rounding a ratio that is at most `bound` yields at most `bound`.
pub proof fn lemma_round_le(num: int, den: int, bound: int)
    requires
        0 <= num,
        1 <= den,
        num <= den * bound,
    ensures
        0 <= round_to_nearest(num, den) <= bound,
{
    assert(2 * num + den < (2 * den) * (bound + 1)) by (nonlinear_arith)
        requires
            0 <= num,
            1 <= den,
            num <= den * bound,
    ;
    lemma_multiply_divide_lt(2 * num + den, 2 * den, bound + 1);
    lemma_div_pos_is_pos(2 * num + den, 2 * den);
}

/// The precision numerators stay within `den * screen` for indices in
/// range, so the rounded coordinates stay on the screen.
pub proof fn lemma_precision_num_bounds(g: GridGeometry, row: int, col: int, sub_row: int, sub_col: int)
    requires
        g.wf(),
        0 <= row < 26,
        0 <= col < 26,
        0 <= sub_row < 3,
        0 <= sub_col < 8,
    ensures
        0 <= precision_x_num(g, col, sub_col) <= 416 * g.screen_w,
        0 <= precision_y_num(g, row, sub_row) <= 156 * g.screen_h,
{
    assert(0 <= precision_x_num(g, col, sub_col) <= 416 * g.screen_w) by (nonlinear_arith)
        requires
            g.wf(),
            0 <= col < 26,
            0 <= sub_col < 8,
    ;
    assert(0 <= precision_y_num(g, row, sub_row) <= 156 * g.screen_h) by (nonlinear_arith)
        requires
            g.wf(),
            0 <= row < 26,
            0 <= sub_row < 3,
    ;
}

/// Divides with round-to-nearest, halves rounding up.
fn round_div(num: u64, den: u64) -> (r: u64)
    requires
        1 <= den <= 0x1000_0000_0000_0000,
        num <= 0x1000_0000_0000_0000,
    ensures
        r == round_to_nearest(num as int, den as int),
{
    (2 * num + den) / (2 * den)
}

impl GridGeometry {
    /// Pixel center of subgrid cell `(sub_row, sub_col)` inside main
    /// cell `(row, col)`, rounded to the nearest pixel per axis.
    pub fn precision_target(&self, row: u8, col: u8, sub_row: u8, sub_col: u8) -> (t: ClickTarget)
        requires
            self.wf(),
            row < 26,
            col < 26,
            sub_row < 3,
            sub_col < 8,
        ensures
            t.x == precision_x(*self, col as int, sub_col as int),
            t.y == precision_y(*self, row as int, sub_row as int),
            t.x <= self.screen_w,
            t.y <= self.screen_h,
    {
        let w = self.screen_w as u64;
        let h = self.screen_h as u64;
        let p = self.padding as u64;
        proof {
            lemma_precision_num_bounds(
                *self,
                row as int,
                col as int,
                sub_row as int,
                sub_col as int,
            );
            assert((col as int) * (w as int) <= 25 * 0x7fff_ffff) by (nonlinear_arith)
                requires
                    0 <= col as int <= 25,
                    0 <= w as int <= 0x7fff_ffff,
            ;
            assert((row as int) * (h as int) <= 25 * 0x7fff_ffff) by (nonlinear_arith)
                requires
                    0 <= row as int <= 25,
                    0 <= h as int <= 0x7fff_ffff,
            ;
            assert((2 * (sub_col as int) + 1) * ((w as int) - 52 * (p as int)) <= 15 * 0x7fff_ffff)
                by (nonlinear_arith)
                requires
                    0 <= sub_col as int <= 7,
                    0 <= (w as int) - 52 * (p as int) <= 0x7fff_ffff,
            ;
            assert((2 * (sub_row as int) + 1) * ((h as int) - 52 * (p as int)) <= 5 * 0x7fff_ffff)
                by (nonlinear_arith)
                requires
                    0 <= sub_row as int <= 2,
                    0 <= (h as int) - 52 * (p as int) <= 0x7fff_ffff,
            ;
        }
        let x_num = 16 * (col as u64) * w + 416 * p + (2 * (sub_col as u64) + 1) * (w - 52 * p);
        let y_num = 6 * (row as u64) * h + 156 * p + (2 * (sub_row as u64) + 1) * (h - 52 * p);
        let x = round_div(x_num, 416);
        let y = round_div(y_num, 156);
        proof {
            lemma_round_le(x_num as int, 416, self.screen_w as int);
            lemma_round_le(y_num as int, 156, self.screen_h as int);
        }
        ClickTarget { x: x as u32, y: y as u32 }
    }

    /// Pixel center of main cell `(row, col)`, rounded to the nearest
    /// pixel per axis.
    pub fn cell_center(&self, row: u8, col: u8) -> (t: ClickTarget)
        requires
            self.wf(),
            row < 26,
            col < 26,
        ensures
            t.x == cell_center_x(*self, col as int),
            t.y == cell_center_y(*self, row as int),
            t.x <= self.screen_w,
            t.y <= self.screen_h,
    {
        let w = self.screen_w as u64;
        let h = self.screen_h as u64;
        proof {
            assert(0 <= (2 * (col as int) + 1) * (w as int) <= 52 * (w as int)) by (nonlinear_arith)
                requires
                    0 <= col as int <= 25,
                    0 <= w as int <= 0x7fff_ffff,
            ;
            assert(0 <= (2 * (row as int) + 1) * (h as int) <= 52 * (h as int)) by (nonlinear_arith)
                requires
                    0 <= row as int <= 25,
                    0 <= h as int <= 0x7fff_ffff,
            ;
        }
        let x = round_div((2 * (col as u64) + 1) * w, 52);
        let y = round_div((2 * (row as u64) + 1) * h, 52);
        proof {
            lemma_round_le((2 * (col as int) + 1) * (w as int), 52, self.screen_w as int);
            lemma_round_le((2 * (row as int) + 1) * (h as int), 52, self.screen_h as int);
        }
        ClickTarget { x: x as u32, y: y as u32 }
    }

    /// Pixel center of the whole screen, rounded to the nearest pixel
    /// per axis; for even extents this is exactly `(w / 2, h / 2)`.
    pub fn screen_center(&self) -> (t: ClickTarget)
        requires
            self.wf(),
        ensures
            t.x == screen_center_x(*self),
            t.y == screen_center_y(*self),
            t.x <= self.screen_w,
            t.y <= self.screen_h,
            self.screen_w % 2 == 0 ==> t.x == self.screen_w / 2,
            self.screen_h % 2 == 0 ==> t.y == self.screen_h / 2,
    {
        let x = round_div(self.screen_w as u64, 2);
        let y = round_div(self.screen_h as u64, 2);
        proof {
            lemma_round_le(self.screen_w as int, 2, self.screen_w as int);
            lemma_round_le(self.screen_h as int, 2, self.screen_h as int);
        }
        ClickTarget { x: x as u32, y: y as u32 }
    }
}

} // verus!
