//! What the rendered board consists of: one entry per tile of tile-index
//! space, with the cell state or clue number it shows, and the control tile.

use vstd::prelude::*;
use crate::cell::{BoardAction, CellState};
use crate::grid::PuzzleGrid;
use crate::layout::GridDimensions;
use crate::mapper::{Region, classify, region_spec};

verus! {

/// A play tile at tile index `(x, y)`.
#[derive(Clone, Copy, Debug, PartialEq, Eq, Structural)]
pub struct Tile {
    pub x: i64,
    pub y: i64,
}

/// A clue tile at tile index `(x, y)`.
#[derive(Clone, Copy, Debug, PartialEq, Eq, Structural)]
pub struct Clue {
    pub x: i64,
    pub y: i64,
}

/// The mode toggle: it sits in the corner whose lower-left tile is
/// `(x, y)`, spans `size` tiles, and shows `action`.
#[derive(Clone, Copy, Debug, PartialEq, Eq, Structural)]
pub struct ControlTile {
    pub x: i64,
    pub y: i64,
    pub size: usize,
    pub action: BoardAction,
}

/// What to draw at one tile index.
#[derive(Clone, Copy, Debug, PartialEq, Eq, Structural)]
pub enum Spawn {
    Play { tile: Tile, state: CellState },
    Clue { clue: Clue, value: Option<u32> },
    Corner,
}

/// The clue number shown at tile `(x, y)`, if any. Column clues are listed
/// with their last entry next to the play area; row clues are aligned to
/// the play area.
pub open spec fn clue_value_spec(g: PuzzleGrid, x: int, y: int) -> Option<u32> {
    let d = g.dims();
    match region_spec(x, y, d) {
        Region::ClueColumn => {
            let c = g.column_clues@[x - d.longest_row_clue_len]@;
            let k = y - d.height;
            if k < c.len() {
                Some(c[c.len() - 1 - k])
            } else {
                None
            }
        },
        Region::ClueRow => {
            let r = g.row_clues@[y]@;
            let off = d.longest_row_clue_len - r.len();
            if off <= x {
                Some(r[x - off])
            } else {
                None
            }
        },
        _ => None,
    }
}

pub open spec fn spawn_spec(g: PuzzleGrid, x: int, y: int) -> Spawn {
    let d = g.dims();
    match region_spec(x, y, d) {
        Region::Play => Spawn::Play {
            tile: Tile { x: x as i64, y: y as i64 },
            state: g.cell(x - d.longest_row_clue_len, y),
        },
        Region::Control => Spawn::Corner,
        _ => Spawn::Clue { clue: Clue { x: x as i64, y: y as i64 }, value: clue_value_spec(g, x, y) },
    }
}

/// The clue number shown at tile `(x, y)`.
pub fn clue_value(g: &PuzzleGrid, x: i64, y: i64) -> (r: Option<u32>)
    requires
        g.wf(),
    ensures
        r == clue_value_spec(*g, x as int, y as int),
{
    let d = g.dimensions();
    match classify(x, y, &d) {
        Region::ClueColumn => {
            let col = (x - d.longest_row_clue_len as i64) as usize;
            let k = (y - d.height as i64) as usize;
            proof {
                crate::grid::lemma_longest_bounds(g.column_clues@, col as int);
            }
            let c = &g.column_clues[col];
            if k < c.len() {
                Some(c[c.len() - 1 - k])
            } else {
                None
            }
        },
        Region::ClueRow => {
            let row = y as usize;
            proof {
                crate::grid::lemma_longest_bounds(g.row_clues@, row as int);
            }
            let r = &g.row_clues[row];
            let off = d.longest_row_clue_len - r.len();
            if off as i64 <= x {
                Some(r[x as usize - off])
            } else {
                None
            }
        },
        _ => None,
    }
}

/// What to draw at every tile: entry `[x][y]` is tile `(x, y)`.
pub fn spawn_plan(g: &PuzzleGrid) -> (r: Vec<Vec<Spawn>>)
    requires
        g.wf(),
    ensures
        r@.len() == g.dims().total_w(),
        forall|x: int| 0 <= x < r@.len() ==> (#[trigger] r@[x])@.len() == g.dims().total_h(),
        forall|x: int, y: int|
            0 <= x < g.dims().total_w() && 0 <= y < g.dims().total_h() ==> (#[trigger] r@[x]@[y])
                == spawn_spec(*g, x, y),
{
    let d = g.dimensions();
    let tw = d.total_width();
    let th = d.total_height();
    let rcl = d.longest_row_clue_len;
    let mut plan: Vec<Vec<Spawn>> = Vec::new();
    let mut x: usize = 0;
    while x < tw
        invariant
            g.wf(),
            d == g.dims(),
            tw == d.total_w(),
            th == d.total_h(),
            rcl == d.longest_row_clue_len,
            x <= tw,
            plan@.len() == x,
            forall|i: int| 0 <= i < x ==> (#[trigger] plan@[i])@.len() == th,
            forall|i: int, j: int|
                0 <= i < x && 0 <= j < th ==> (#[trigger] plan@[i]@[j]) == spawn_spec(*g, i, j),
        decreases tw - x,
    {
        let mut column: Vec<Spawn> = Vec::new();
        let mut y: usize = 0;
        while y < th
            invariant
                g.wf(),
                d == g.dims(),
                tw == d.total_w(),
                th == d.total_h(),
                rcl == d.longest_row_clue_len,
                x < tw,
                y <= th,
                column@.len() == y,
                forall|j: int| 0 <= j < y ==> (#[trigger] column@[j]) == spawn_spec(*g, x as int, j),
            decreases th - y,
        {
            let xi = x as i64;
            let yi = y as i64;
            let s = match classify(xi, yi, &d) {
                Region::Play => Spawn::Play {
                    tile: Tile { x: xi, y: yi },
                    state: g.get_cell(x - rcl, y),
                },
                Region::Control => Spawn::Corner,
                _ => Spawn::Clue { clue: Clue { x: xi, y: yi }, value: clue_value(g, xi, yi) },
            };
            column.push(s);
            y += 1;
        }
        plan.push(column);
        x += 1;
    }
    plan
}

/// The control tile of grid `g`, showing `action`.
pub fn control_tile(g: &PuzzleGrid, action: BoardAction) -> (r: ControlTile)
    requires
        g.wf(),
    ensures
        r.x == 0,
        r.y == g.height,
        r.size == if g.longest_column_clue_len < g.longest_row_clue_len {
            g.longest_column_clue_len
        } else {
            g.longest_row_clue_len
        },
        r.action == action,
{
    let size = if g.longest_column_clue_len < g.longest_row_clue_len {
        g.longest_column_clue_len
    } else {
        g.longest_row_clue_len
    };
    ControlTile { x: 0, y: g.height as i64, size, action }
}

} // verus!
