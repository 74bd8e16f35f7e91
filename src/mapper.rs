//! Mapping of pointer pixels to tile indices, and the region of the board
//! that a tile index falls in.

use vstd::prelude::*;
use vstd::arithmetic::div_mod::{lemma_fundamental_div_mod, lemma_mod_bound};
use crate::layout::{GridDimensions, Layout, MAX_SIDE, layout_spec};

verus! {

/// Bound on the magnitude of an origin numerator of a usable layout.
pub const ORIGIN_BOUND: i64 = 0x4_0000_0000_0000;

/// The part of tile-index space a tile belongs to.
#[derive(Clone, Copy, Debug, PartialEq, Eq, Structural)]
pub enum Region {
    /// The corner cell that cycles the paint mode.
    Control,
    /// The left gutter holding row clues.
    ClueRow,
    /// The top gutter holding column clues.
    ClueColumn,
    /// A cell of the puzzle itself.
    Play,
    /// Anything outside the board.
    OutOfBounds,
}

impl Layout {
    /// Bounds under which pointer mapping stays within machine integers.
    pub open spec fn wf(self) -> bool {
        &&& 0 < self.ppt_den <= 2 * MAX_SIDE
        &&& 0 <= self.ppt_num <= u32::MAX
        &&& -ORIGIN_BOUND <= self.origin_x_num <= ORIGIN_BOUND
        &&& -ORIGIN_BOUND <= self.origin_y_num <= ORIGIN_BOUND
    }
}

/// A computed layout is well formed.
pub proof fn lemma_layout_wf(d: GridDimensions, vw: u32, vh: u32)
    requires
        d.wf(),
    ensures
        layout_spec(d, vw, vh).wf(),
{
    crate::layout::lemma_layout_products(d, vw, vh);
}

/// Tile index along one axis of a pointer coordinate `p`: the pointer
/// offset from the origin, divided by pixels-per-tile, rounded down.
pub open spec fn axis_tile(p: int, num: int, den: int, origin_num: int) -> int {
    (2 * den * p - origin_num) / (2 * num)
}

pub open spec fn screen_to_tile_spec(l: Layout, px: int, py: int) -> (int, int) {
    (
        axis_tile(px, l.ppt_num as int, l.ppt_den as int, l.origin_x_num as int),
        axis_tile(py, l.ppt_num as int, l.ppt_den as int, l.origin_y_num as int),
    )
}

proof fn lemma_quotient_bound(x: int, d: int, b: int)
    requires
        d >= 1,
        b >= 0,
        -b <= x <= b,
    ensures
        -b - 1 <= x / d <= b,
{
    lemma_fundamental_div_mod(x, d);
    lemma_mod_bound(x, d);
    let q = x / d;
    let r = x % d;
    assert(-b - 1 <= q <= b) by (nonlinear_arith)
        requires d * q + r == x, 0 <= r < d, d >= 1, -b <= x <= b;
}

fn axis_tile_exec(p: i32, num: i64, den: i64, origin_num: i64) -> (r: i64)
    requires
        0 < num <= u32::MAX,
        0 < den <= 2 * MAX_SIDE,
        -ORIGIN_BOUND <= origin_num <= ORIGIN_BOUND,
    ensures
        r == axis_tile(p as int, num as int, den as int, origin_num as int),
{
    let pp = p as i64;
    assert(-0x2_0000_0000_0000 <= 2 * den * pp <= 0x2_0000_0000_0000) by (nonlinear_arith)
        requires 0 < den <= 0x1FFFE, -0x8000_0000 <= pp <= 0x7FFF_FFFF;
    let a = 2 * den * pp - origin_num;
    let b = 2 * num;
    proof {
        lemma_quotient_bound(a as int, b as int, 0x8_0000_0000_0000);
    }
    match a.checked_div_euclid(b) {
        Some(q) => q,
        None => 0,
    }
}

/// Tile indices under pointer pixel `(px, py)`, each rounded down, so a
/// pointer exactly on a boundary belongs to the tile whose lower-left
/// corner it touches.
pub fn screen_to_tile(l: &Layout, px: i32, py: i32) -> (r: (i64, i64))
    requires
        l.wf(),
        l.ppt_num > 0,
    ensures
        (r.0 as int, r.1 as int) == screen_to_tile_spec(*l, px as int, py as int),
{
    let x = axis_tile_exec(px, l.ppt_num, l.ppt_den, l.origin_x_num);
    let y = axis_tile_exec(py, l.ppt_num, l.ppt_den, l.origin_y_num);
    (x, y)
}

pub open spec fn in_board(x: int, y: int, d: GridDimensions) -> bool {
    0 <= x < d.total_w() && 0 <= y < d.total_h()
}

pub open spec fn in_control(x: int, y: int, d: GridDimensions) -> bool {
    in_board(x, y, d) && x < d.longest_row_clue_len && y >= d.height
}

pub open spec fn in_clue_row(x: int, y: int, d: GridDimensions) -> bool {
    in_board(x, y, d) && x < d.longest_row_clue_len && y < d.height
}

pub open spec fn in_clue_column(x: int, y: int, d: GridDimensions) -> bool {
    in_board(x, y, d) && x >= d.longest_row_clue_len && y >= d.height
}

pub open spec fn in_play(x: int, y: int, d: GridDimensions) -> bool {
    in_board(x, y, d) && x >= d.longest_row_clue_len && y < d.height
}

pub open spec fn region_spec(x: int, y: int, d: GridDimensions) -> Region {
    if !in_board(x, y, d) {
        Region::OutOfBounds
    } else if x < d.longest_row_clue_len {
        if y >= d.height {
            Region::Control
        } else {
            Region::ClueRow
        }
    } else if y >= d.height {
        Region::ClueColumn
    } else {
        Region::Play
    }
}

/// The region of tile `(x, y)` on a board of dimensions `d`.
pub fn classify(x: i64, y: i64, d: &GridDimensions) -> (r: Region)
    requires
        d.wf(),
    ensures
        r == region_spec(x as int, y as int, *d),
{
    let tw = d.total_width() as i64;
    let th = d.total_height() as i64;
    let rcl = d.longest_row_clue_len as i64;
    let h = d.height as i64;
    if x < 0 || y < 0 || x >= tw || y >= th {
        Region::OutOfBounds
    } else if x < rcl {
        if y >= h {
            Region::Control
        } else {
            Region::ClueRow
        }
    } else if y >= h {
        Region::ClueColumn
    } else {
        Region::Play
    }
}

/// Every tile-index pair lies in exactly one of the control corner, the
/// row-clue gutter, the column-clue gutter, the play area or outside the
/// board, and `classify` names that one; no pair inside the board is
/// classified as outside it.
pub proof fn lemma_regions_partition(x: int, y: int, d: GridDimensions)
    requires
        d.wf(),
    ensures
        in_control(x, y, d) <==> region_spec(x, y, d) == Region::Control,
        in_clue_row(x, y, d) <==> region_spec(x, y, d) == Region::ClueRow,
        in_clue_column(x, y, d) <==> region_spec(x, y, d) == Region::ClueColumn,
        in_play(x, y, d) <==> region_spec(x, y, d) == Region::Play,
        !in_board(x, y, d) <==> region_spec(x, y, d) == Region::OutOfBounds,
        in_board(x, y, d) ==> (in_control(x, y, d) || in_clue_row(x, y, d) || in_clue_column(
            x,
            y,
            d,
        ) || in_play(x, y, d)),
        !(in_control(x, y, d) && in_clue_row(x, y, d)),
        !(in_control(x, y, d) && in_clue_column(x, y, d)),
        !(in_control(x, y, d) && in_play(x, y, d)),
        !(in_clue_row(x, y, d) && in_clue_column(x, y, d)),
        !(in_clue_row(x, y, d) && in_play(x, y, d)),
        !(in_clue_column(x, y, d) && in_play(x, y, d)),
{
}

proof fn lemma_axis_in_range(p: int, extent: int, num: int, den: int, origin_num: int, total: int)
    requires
        0 <= p < extent,
        num > 0,
        den > 0,
        total > 0,
        origin_num <= 0,
        origin_num + total * num == extent * den,
    ensures
        0 <= axis_tile(p, num, den, origin_num) < total,
{
    let x = 2 * den * p - origin_num;
    let dd = 2 * num;
    lemma_fundamental_div_mod(x, dd);
    lemma_mod_bound(x, dd);
    let q = x / dd;
    let r = x % dd;
    assert(0 <= x < total * dd) by (nonlinear_arith)
        requires x == 2 * den * p - origin_num, 0 <= p < extent, den > 0, origin_num <= 0,
        origin_num + total * num == extent * den, dd == 2 * num, num > 0;
    assert(0 <= q < total) by (nonlinear_arith)
        requires dd * q + r == x, 0 <= r < dd, 0 <= x < total * dd, dd > 0;
}

/// A pointer inside the viewport maps, along the viewport's limiting side,
/// to a tile index inside the board; along the other side it does so too
/// wherever the board covers the viewport (its origin is not inside it).
/// The mapped tile then has exactly one region, which `classify` reports.
pub proof fn lemma_pointer_maps_into_board(d: GridDimensions, vw: u32, vh: u32, px: int, py: int)
    requires
        d.wf(),
        0 <= px < vw,
        0 <= py < vh,
    ensures
        ({
            let l = layout_spec(d, vw, vh);
            let (tx, ty) = screen_to_tile_spec(l, px, py);
            &&& vw < vh ==> 0 <= tx < d.total_w()
            &&& vw >= vh ==> 0 <= ty < d.total_h()
            &&& l.origin_x_num <= 0 ==> 0 <= tx < d.total_w()
            &&& l.origin_y_num <= 0 ==> 0 <= ty < d.total_h()
        }),
{
    let l = layout_spec(d, vw, vh);
    lemma_layout_wf(d, vw, vh);
    crate::layout::lemma_layout_fits(d, vw, vh);
    let tw = d.total_w();
    let th = d.total_h();
    if vw < vh {
        assert(l.origin_x_num + tw * l.ppt_num == vw * l.ppt_den);
        lemma_axis_in_range(px, vw as int, l.ppt_num as int, l.ppt_den as int, l.origin_x_num as int, tw);
        if l.origin_y_num <= 0 {
            lemma_axis_in_range(py, vh as int, l.ppt_num as int, l.ppt_den as int, l.origin_y_num as int, th);
        }
    } else {
        assert(l.origin_y_num + th * l.ppt_num == vh * l.ppt_den);
        lemma_axis_in_range(py, vh as int, l.ppt_num as int, l.ppt_den as int, l.origin_y_num as int, th);
        if l.origin_x_num <= 0 {
            lemma_axis_in_range(px, vw as int, l.ppt_num as int, l.ppt_den as int, l.origin_x_num as int, tw);
        }
    }
}

} // verus!
