//! Layout of the board in the viewport, mapping of pointer pixels to tile
//! indices, and classification of tile indices into board regions.
//!
//! Pixel quantities are kept as exact rationals: a layout holds
//! pixels-per-tile as `ppt_num / ppt_den` and each origin coordinate as a
//! numerator over `2 * ppt_den`.

use vstd::prelude::*;

verus! {

/// Largest accepted count along one axis (play cells or clue length).
pub const MAX_SIDE: usize = 0x7FFF;

/// Pixels per tile at scale factor 1.
pub const TILE_UNIT: i64 = 100;

/// Play-area size and clue-gutter sizes of a puzzle, in tiles.
#[derive(Clone, Copy, Debug, PartialEq, Eq, Structural)]
pub struct GridDimensions {
    pub width: usize,
    pub height: usize,
    pub longest_row_clue_len: usize,
    pub longest_column_clue_len: usize,
}

impl GridDimensions {
    pub open spec fn wf(self) -> bool {
        &&& 0 < self.width <= MAX_SIDE
        &&& 0 < self.height <= MAX_SIDE
        &&& self.longest_row_clue_len <= MAX_SIDE
        &&& self.longest_column_clue_len <= MAX_SIDE
    }

    pub open spec fn total_w(self) -> int {
        self.width + self.longest_row_clue_len
    }

    pub open spec fn total_h(self) -> int {
        self.height + self.longest_column_clue_len
    }

    pub fn total_width(&self) -> (r: usize)
        requires
            self.wf(),
        ensures
            r == self.total_w(),
    {
        self.width + self.longest_row_clue_len
    }

    pub fn total_height(&self) -> (r: usize)
        requires
            self.wf(),
        ensures
            r == self.total_h(),
    {
        self.height + self.longest_column_clue_len
    }
}

/// Where the board sits in the viewport and how large its tiles are.
///
/// Pixels per tile is `ppt_num / ppt_den`; the bottom-left corner of the
/// board lies at `(origin_x_num, origin_y_num) / (2 * ppt_den)`.
#[derive(Clone, Copy, Debug, PartialEq, Eq, Structural)]
pub struct Layout {
    pub viewport_w: u32,
    pub viewport_h: u32,
    pub ppt_num: i64,
    pub ppt_den: i64,
    pub origin_x_num: i64,
    pub origin_y_num: i64,
    pub total_width: usize,
    pub total_height: usize,
}

/// The layout of a board of dimensions `d` in a `vw` by `vh` viewport.
///
/// The narrower viewport side is the limiting one (height on a tie); the
/// board fills it exactly and is centred along the other side.
pub open spec fn layout_spec(d: GridDimensions, vw: u32, vh: u32) -> Layout {
    let tw = d.total_w();
    let th = d.total_h();
    if vw < vh {
        Layout {
            viewport_w: vw,
            viewport_h: vh,
            ppt_num: vw as i64,
            ppt_den: tw as i64,
            origin_x_num: 0,
            origin_y_num: (vh * tw - th * vw) as i64,
            total_width: tw as usize,
            total_height: th as usize,
        }
    } else {
        Layout {
            viewport_w: vw,
            viewport_h: vh,
            ppt_num: vh as i64,
            ppt_den: th as i64,
            origin_x_num: (vw * th - tw * vh) as i64,
            origin_y_num: 0,
            total_width: tw as usize,
            total_height: th as usize,
        }
    }
}

impl Layout {
    /// Scale factor as a rational: `scale_num() / scale_den()`.
    pub open spec fn scale_num(self) -> int {
        self.ppt_num as int
    }

    pub open spec fn scale_den(self) -> int {
        self.ppt_den * TILE_UNIT
    }

    /// Pixels per tile as the exact rational `(ppt_num, ppt_den)`.
    pub fn pixels_per_tile(&self) -> (r: (i64, i64))
        ensures
            r == (self.ppt_num, self.ppt_den),
    {
        (self.ppt_num, self.ppt_den)
    }

    /// The sprite scale factor as `(numerator, denominator)`.
    pub fn scale_factor(&self) -> (r: (i64, i64))
        requires
            0 <= self.ppt_den <= 2 * MAX_SIDE,
        ensures
            r.0 == self.scale_num(),
            r.1 == self.scale_den(),
    {
        (self.ppt_num, self.ppt_den * TILE_UNIT)
    }
}

/// Bounds on the products that a layout is computed from.
pub proof fn lemma_layout_products(d: GridDimensions, vw: u32, vh: u32)
    requires
        d.wf(),
    ensures
        0 <= vh * d.total_w() <= 0xFFFF_FFFFi64 * 0x1FFFE,
        0 <= vw * d.total_h() <= 0xFFFF_FFFFi64 * 0x1FFFE,
        d.total_w() * vh == vh * d.total_w(),
        d.total_h() * vw == vw * d.total_h(),
{
    let tw = d.total_w();
    let th = d.total_h();
    assert(0 <= vh * tw <= 0xFFFF_FFFFi64 * 0x1FFFE) by (nonlinear_arith)
        requires 0 <= vh <= 0xFFFF_FFFFi64, 0 <= tw <= 0x1FFFE;
    assert(0 <= vw * th <= 0xFFFF_FFFFi64 * 0x1FFFE) by (nonlinear_arith)
        requires 0 <= vw <= 0xFFFF_FFFFi64, 0 <= th <= 0x1FFFE;
    assert(tw * vh == vh * tw) by (nonlinear_arith);
    assert(th * vw == vw * th) by (nonlinear_arith);
}

/// Recompute the whole layout, scale and origin together, for dimensions
/// `d` and a `vw` by `vh` viewport.
pub fn compute_layout(d: &GridDimensions, vw: u32, vh: u32) -> (r: Layout)
    requires
        d.wf(),
    ensures
        r == layout_spec(*d, vw, vh),
{
    let tw = d.total_width() as i64;
    let th = d.total_height() as i64;
    let w = vw as i64;
    let h = vh as i64;
    proof {
        lemma_layout_products(*d, vw, vh);
    }
    if vw < vh {
        Layout {
            viewport_w: vw,
            viewport_h: vh,
            ppt_num: w,
            ppt_den: tw,
            origin_x_num: 0,
            origin_y_num: h * tw - th * w,
            total_width: d.total_width(),
            total_height: d.total_height(),
        }
    } else {
        Layout {
            viewport_w: vw,
            viewport_h: vh,
            ppt_num: h,
            ppt_den: th,
            origin_x_num: w * th - tw * h,
            origin_y_num: 0,
            total_width: d.total_width(),
            total_height: d.total_height(),
        }
    }
}

/// The board fills its limiting viewport side exactly, is centred on the
/// other side, and has a positive scale, whenever the viewport is not empty.
pub proof fn lemma_layout_fits(d: GridDimensions, vw: u32, vh: u32)
    requires
        d.wf(),
        vw > 0,
        vh > 0,
    ensures
        ({
            let l = layout_spec(d, vw, vh);
            &&& l.ppt_num > 0
            &&& l.ppt_den > 0
            &&& l.scale_num() > 0
            &&& l.scale_den() > 0
            &&& if vw < vh {
                &&& d.total_w() * l.ppt_num == vw * l.ppt_den
                &&& l.origin_x_num == 0
                &&& l.origin_y_num + d.total_h() * l.ppt_num == vh * l.ppt_den
            } else {
                &&& d.total_h() * l.ppt_num == vh * l.ppt_den
                &&& l.origin_y_num == 0
                &&& l.origin_x_num + d.total_w() * l.ppt_num == vw * l.ppt_den
            }
        }),
{
    let tw = d.total_w();
    let th = d.total_h();
    lemma_layout_products(d, vw, vh);
    assert(tw * vw == vw * tw) by (nonlinear_arith);
    assert(th * vh == vh * th) by (nonlinear_arith);
    assert(vw * TILE_UNIT > 0 && tw * TILE_UNIT > 0 && th * TILE_UNIT > 0) by (nonlinear_arith)
        requires vw > 0, tw > 0, th > 0;
}

} // verus!
