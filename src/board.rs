//! The board engine: resolves pointer input into paint events, applies them
//! to the grid with echo suppression, absorbs remote changes, and keeps the
//! layout and the rebuild cycle in step with resizes and board swaps.

use vstd::prelude::*;
use crate::cell::{BoardAction, CellState, target_of, target_state};
use crate::grid::{GridError, PuzzleGrid, decode_cells, decode_cells_spec};
use crate::layout::{GridDimensions, Layout, compute_layout, layout_spec};
use crate::mapper::{Region, classify, lemma_layout_wf, region_spec, screen_to_tile, screen_to_tile_spec};
use crate::wire::{SyncMessage, cells_section, clues_section, decode_message, parse_delta_spec, tag_is};
use crate::rebuild::{DeletedTilesEvent, Rebuild, RebuildCommand, RebuildEvent, step_spec};
use crate::resolver::{
    ControlAction,
    CurrentAction,
    PointerButton,
    next_control,
    next_control_spec,
    press_action,
    press_action_spec,
    repeat_toggle,
    repeat_toggle_spec,
};

verus! {

/// A paint action at tile index `(x, y)`, from the local player or replayed
/// from the remote peer.
#[derive(Clone, Copy, Debug, PartialEq, Eq, Structural)]
pub struct InputEvent {
    pub x: i64,
    pub y: i64,
    pub action: BoardAction,
    pub from_player: bool,
}

/// An outbound single-cell change: row-major position and new state.
#[derive(Clone, Copy, Debug, PartialEq, Eq, Structural)]
pub struct Delta {
    pub index: u64,
    pub cell: CellState,
}

/// An event whose tile lies outside the board; it is dropped.
#[derive(Clone, Copy, Debug, PartialEq, Eq, Structural)]
pub struct BoundsError;

/// Row-major position in the grid of play tile `(x, y)`.
pub open spec fn play_pos(d: GridDimensions, x: int, y: int) -> int {
    y * d.width + (x - d.longest_row_clue_len)
}

/// Position of tile `(x, y)` among all tiles of the board, row by row.
pub open spec fn tile_pos(d: GridDimensions, x: int, y: int) -> int {
    y * d.total_w() + x
}

/// The cells after applying `ev`: a play tile takes the state the action
/// paints; nothing else touches the cells.
pub open spec fn cells_after(d: GridDimensions, cells: Seq<CellState>, ev: InputEvent) -> Seq<
    CellState,
> {
    if region_spec(ev.x as int, ev.y as int, d) == Region::Play {
        cells.update(play_pos(d, ev.x as int, ev.y as int), target_state(ev.action))
    } else {
        cells
    }
}

/// The change sent out for `ev`: only a locally made event on a play tile
/// whose state actually changes produces one.
pub open spec fn outbound(d: GridDimensions, cells: Seq<CellState>, ev: InputEvent) -> Option<
    Delta,
> {
    let p = play_pos(d, ev.x as int, ev.y as int);
    if region_spec(ev.x as int, ev.y as int, d) == Region::Play && cells[p] != target_state(
        ev.action,
    ) && ev.from_player {
        Some(Delta { index: p as u64, cell: target_state(ev.action) })
    } else {
        None
    }
}

/// Clue highlighting after `ev`: a clue tile remembers the last action
/// applied to it, `Empty` meaning unmarked.
pub open spec fn marks_after(d: GridDimensions, marks: Seq<BoardAction>, ev: InputEvent) -> Seq<
    BoardAction,
> {
    let r = region_spec(ev.x as int, ev.y as int, d);
    if r == Region::ClueRow || r == Region::ClueColumn {
        marks.update(tile_pos(d, ev.x as int, ev.y as int), ev.action)
    } else {
        marks
    }
}

/// The control mode after `ev`: activating the control tile cycles it.
pub open spec fn control_after(d: GridDimensions, control: BoardAction, ev: InputEvent) -> BoardAction {
    if region_spec(ev.x as int, ev.y as int, d) == Region::Control {
        next_control_spec(control)
    } else {
        control
    }
}

/// Applying the same event twice sends at most one change: the second
/// application finds the cell already in the painted state. Exactly one is
/// sent when the first application changed the cell and was made locally.
pub proof fn lemma_repeat_sends_once(d: GridDimensions, cells: Seq<CellState>, ev: InputEvent)
    requires
        d.wf(),
        cells.len() == d.width * d.height,
    ensures
        outbound(d, cells_after(d, cells, ev), ev) is None,
        cells_after(d, cells_after(d, cells, ev), ev) == cells_after(d, cells, ev),
        outbound(d, cells, ev) is Some <==> (region_spec(ev.x as int, ev.y as int, d)
            == Region::Play && ev.from_player && cells[play_pos(d, ev.x as int, ev.y as int)]
            != target_state(ev.action)),
{
    if region_spec(ev.x as int, ev.y as int, d) == Region::Play {
        lemma_play_pos_in_range(d, ev.x as int, ev.y as int);
        let p = play_pos(d, ev.x as int, ev.y as int);
        let c1 = cells.update(p, target_state(ev.action));
        assert(c1.update(p, target_state(ev.action)) =~= c1);
    }
}

/// Events replayed from the remote peer never send anything, whether or
/// not they change the cell.
pub proof fn lemma_remote_never_sends(d: GridDimensions, cells: Seq<CellState>, ev: InputEvent)
    requires
        !ev.from_player,
    ensures
        outbound(d, cells, ev) is None,
{
}

pub proof fn lemma_play_pos_in_range(d: GridDimensions, x: int, y: int)
    requires
        d.wf(),
        region_spec(x, y, d) == Region::Play,
    ensures
        0 <= play_pos(d, x, y) < d.width * d.height,
        0 <= x - d.longest_row_clue_len < d.width,
        0 <= y < d.height,
{
    let gx = x - d.longest_row_clue_len;
    let w = d.width as int;
    let h = d.height as int;
    assert(0 <= y * w + gx < w * h) by (nonlinear_arith)
        requires 0 <= gx < w, 0 <= y < h;
}

pub proof fn lemma_tile_pos_in_range(d: GridDimensions, x: int, y: int)
    requires
        d.wf(),
        0 <= x < d.total_w(),
        0 <= y < d.total_h(),
    ensures
        0 <= tile_pos(d, x, y) < d.total_w() * d.total_h(),
{
    let w = d.total_w();
    let h = d.total_h();
    assert(0 <= y * w + x < w * h) by (nonlinear_arith)
        requires 0 <= x < w, 0 <= y < h;
}

/// What became of an inbound message.
#[derive(Debug)]
pub enum Inbound {
    /// A remote cell change was applied.
    Applied,
    /// A remote cell change named a position outside the grid; dropped.
    OutOfRange,
    /// A known tag with a payload of the wrong shape; dropped.
    Malformed,
    /// An unknown tag; dropped.
    Unknown,
    /// A whole board arrived: its clue text is to be parsed into a grid and
    /// handed to `Board::replace` together with `cells`.
    Replace { clues: String, cells: Vec<char> },
}

/// The board as one player sees it.
pub struct Board {
    pub grid: PuzzleGrid,
    pub layout: Layout,
    pub current_action: CurrentAction,
    pub control_action: ControlAction,
    /// Per tile, row by row: the action last applied to a clue tile.
    pub clue_marks: Vec<BoardAction>,
    pub rebuild: Rebuild,
}

/// Result of one pointer tick: the action the pointer now paints, and the
/// event it emits, if any.
pub open spec fn tick_spec(
    b: Board,
    x: int,
    y: int,
    pressed: Option<PointerButton>,
    held: bool,
) -> (BoardAction, Option<InputEvent>) {
    let d = b.grid.dims();
    let a0 = match pressed {
        Some(btn) => press_action_spec(btn, b.control_action.0),
        None => b.current_action.0,
    };
    let edge = pressed matches Some(btn) && btn != PointerButton::Tertiary;
    let region = region_spec(x, y, d);
    let a1 = if edge {
        match region {
            Region::ClueRow => repeat_toggle_spec(a0, b.clue_marks@[tile_pos(d, x, y)] == a0),
            Region::ClueColumn => repeat_toggle_spec(a0, b.clue_marks@[tile_pos(d, x, y)] == a0),
            Region::Play => repeat_toggle_spec(
                a0,
                b.grid.cells@[play_pos(d, x, y)] == target_state(a0),
            ),
            _ => a0,
        }
    } else {
        a0
    };
    let ev = InputEvent { x: x as i64, y: y as i64, action: a1, from_player: true };
    let out = if region == Region::Control {
        if edge {
            Some(ev)
        } else {
            None
        }
    } else if held || pressed is Some {
        Some(ev)
    } else {
        None
    };
    (a1, out)
}

impl Board {
    pub open spec fn wf(&self) -> bool {
        &&& self.grid.wf()
        &&& self.layout == layout_spec(
            self.grid.dims(),
            self.layout.viewport_w,
            self.layout.viewport_h,
        )
        &&& self.clue_marks@.len() == self.grid.dims().total_w() * self.grid.dims().total_h()
    }

    /// A board for `grid` in a `vw` by `vh` viewport, painting with `Fill`.
    pub fn new(grid: PuzzleGrid, vw: u32, vh: u32) -> (r: Board)
        requires
            grid.wf(),
        ensures
            r.wf(),
            r.grid == grid,
            r.layout == layout_spec(grid.dims(), vw, vh),
            r.current_action == CurrentAction(BoardAction::Fill),
            r.control_action == ControlAction(BoardAction::Fill),
            forall|i: int| 0 <= i < r.clue_marks@.len() ==> r.clue_marks@[i] == BoardAction::Empty,
            r.rebuild == Rebuild::new_spec(vw, vh),
    {
        let d = grid.dimensions();
        let layout = compute_layout(&d, vw, vh);
        let clue_marks = unmarked(&d);
        Board {
            grid,
            layout,
            current_action: CurrentAction(BoardAction::Fill),
            control_action: ControlAction(BoardAction::Fill),
            clue_marks,
            rebuild: Rebuild::new(vw, vh),
        }
    }

    /// Apply one paint event. Control tiles cycle the control mode, clue
    /// tiles record the action, play tiles take the painted state; a change
    /// is returned for sending only when a local event really changes a
    /// cell. An event outside the board changes nothing and is reported.
    pub fn apply_input(&mut self, ev: &InputEvent) -> (r: Result<Option<Delta>, BoundsError>)
        requires
            old(self).wf(),
        ensures
            final(self).wf(),
            final(self).grid.dims() == old(self).grid.dims(),
            final(self).grid.row_clues@ == old(self).grid.row_clues@,
            final(self).grid.column_clues@ == old(self).grid.column_clues@,
            final(self).grid.cells@ == cells_after(old(self).grid.dims(), old(self).grid.cells@, *ev),
            r == if region_spec(ev.x as int, ev.y as int, old(self).grid.dims())
                == Region::OutOfBounds {
                Err::<Option<Delta>, BoundsError>(BoundsError)
            } else {
                Ok(outbound(old(self).grid.dims(), old(self).grid.cells@, *ev))
            },
            final(self).clue_marks@ == marks_after(old(self).grid.dims(), old(self).clue_marks@, *ev),
            final(self).control_action.0 == control_after(
                old(self).grid.dims(),
                old(self).control_action.0,
                *ev,
            ),
            final(self).current_action == old(self).current_action,
            final(self).layout == old(self).layout,
            final(self).rebuild == old(self).rebuild,
    {
        let d = self.grid.dimensions();
        match classify(ev.x, ev.y, &d) {
            Region::Control => {
                self.control_action = ControlAction(next_control(self.control_action.0));
                Ok(None)
            },
            Region::ClueRow | Region::ClueColumn => {
                let tw = d.total_width();
                let _n = self.clue_marks.len();
                proof {
                    lemma_tile_pos_in_range(d, ev.x as int, ev.y as int);
                }
                let i = ev.y as usize * tw + ev.x as usize;
                self.clue_marks.set(i, ev.action);
                Ok(None)
            },
            Region::Play => {
                proof {
                    lemma_play_pos_in_range(d, ev.x as int, ev.y as int);
                }
                let gx = (ev.x - d.longest_row_clue_len as i64) as usize;
                let gy = ev.y as usize;
                let current = self.grid.get_cell(gx, gy);
                let target = target_of(ev.action);
                if current != target {
                    let p = self.grid.get_pos(gx, gy);
                    self.grid.set_cell(gx, gy, target);
                    if ev.from_player {
                        Ok(Some(Delta { index: p as u64, cell: target }))
                    } else {
                        Ok(None)
                    }
                } else {
                    proof {
                        let p = play_pos(d, ev.x as int, ev.y as int);
                        assert(self.grid.cells@.update(p, target) =~= self.grid.cells@);
                    }
                    Ok(None)
                }
            },
            Region::OutOfBounds => Err(BoundsError),
        }
    }

    /// One input tick with the pointer at pixel `(px, py)`: `pressed` is the
    /// button pressed on this tick, `held` whether any button is down.
    /// A fresh primary or secondary press on a target that already shows
    /// the selected action switches to erasing. Returns the event to apply.
    pub fn pointer_tick(
        &mut self,
        px: i32,
        py: i32,
        pressed: Option<PointerButton>,
        held: bool,
    ) -> (r: Option<InputEvent>)
        requires
            old(self).wf(),
        ensures
            final(self).wf(),
            final(self).grid == old(self).grid,
            final(self).layout == old(self).layout,
            final(self).control_action == old(self).control_action,
            final(self).clue_marks == old(self).clue_marks,
            final(self).rebuild == old(self).rebuild,
            old(self).layout.ppt_num == 0 ==> r is None && final(self).current_action.0 == match pressed {
                Some(btn) => press_action_spec(btn, old(self).control_action.0),
                None => old(self).current_action.0,
            },
            old(self).layout.ppt_num > 0 ==> ({
                let (x, y) = screen_to_tile_spec(old(self).layout, px as int, py as int);
                (final(self).current_action.0, r) == tick_spec(*old(self), x, y, pressed, held)
            }),
    {
        let a0 = match pressed {
            Some(btn) => press_action(btn, self.control_action.0),
            None => self.current_action.0,
        };
        if self.layout.ppt_num == 0 {
            self.current_action = CurrentAction(a0);
            return None;
        }
        let d = self.grid.dimensions();
        proof {
            lemma_layout_wf(d, self.layout.viewport_w, self.layout.viewport_h);
        }
        let (x, y) = screen_to_tile(&self.layout, px, py);
        let edge = match pressed {
            Some(PointerButton::Primary) => true,
            Some(PointerButton::Secondary) => true,
            _ => false,
        };
        let region = classify(x, y, &d);
        let a1 = if edge {
            match region {
                Region::ClueRow | Region::ClueColumn => {
                    proof {
                        lemma_tile_pos_in_range(d, x as int, y as int);
                    }
                    let _n = self.clue_marks.len();
                    let i = y as usize * d.total_width() + x as usize;
                    repeat_toggle(a0, self.clue_marks[i] == a0)
                },
                Region::Play => {
                    proof {
                        lemma_play_pos_in_range(d, x as int, y as int);
                    }
                    let gx = (x - d.longest_row_clue_len as i64) as usize;
                    let c = self.grid.get_cell(gx, y as usize);
                    repeat_toggle(a0, c == target_of(a0))
                },
                _ => a0,
            }
        } else {
            a0
        };
        self.current_action = CurrentAction(a1);
        let ev = InputEvent { x, y, action: a1, from_player: true };
        if region == Region::Control {
            if edge {
                Some(ev)
            } else {
                None
            }
        } else if held || pressed.is_some() {
            Some(ev)
        } else {
            None
        }
    }

    /// Apply a change received from the remote peer to the cell at
    /// row-major position `index`, sending nothing back. A position outside
    /// the grid is dropped, and `false` returned.
    pub fn apply_remote_delta(&mut self, index: u64, cell: CellState) -> (r: bool)
        requires
            old(self).wf(),
        ensures
            final(self).wf(),
            r == (index < old(self).grid.cells@.len()),
            r ==> final(self).grid.cells@ == old(self).grid.cells@.update(index as int, cell),
            !r ==> final(self).grid.cells@ == old(self).grid.cells@,
            final(self).grid.dims() == old(self).grid.dims(),
            final(self).grid.row_clues@ == old(self).grid.row_clues@,
            final(self).grid.column_clues@ == old(self).grid.column_clues@,
            final(self).clue_marks@ == old(self).clue_marks@,
            final(self).control_action == old(self).control_action,
            final(self).current_action == old(self).current_action,
            final(self).layout == old(self).layout,
            final(self).rebuild == old(self).rebuild,
    {
        let n = self.grid.cells.len();
        if index >= n as u64 {
            return false;
        }
        let d = self.grid.dimensions();
        let w = d.width;
        let i = index as usize;
        let gx = i % w;
        let gy = i / w;
        proof {
            vstd::arithmetic::div_mod::lemma_fundamental_div_mod(i as int, w as int);
            vstd::arithmetic::div_mod::lemma_mod_bound(i as int, w as int);
            let h = d.height as int;
            let q = gy as int;
            let rem = gx as int;
            assert(0 <= q < h) by (nonlinear_arith)
                requires w * q + rem == i, 0 <= rem < w, 0 <= i < w * h, w > 0;
            assert(q * w + rem == i) by (nonlinear_arith)
                requires w * q + rem == i;
        }
        let ev = InputEvent {
            x: (gx + d.longest_row_clue_len) as i64,
            y: gy as i64,
            action: crate::cell::action_of(cell),
            from_player: false,
        };
        assert(region_spec(ev.x as int, ev.y as int, d) == Region::Play);
        assert(play_pos(d, ev.x as int, ev.y as int) == index);
        let sent = self.apply_input(&ev);
        proof {
            lemma_remote_never_sends(d, old(self).grid.cells@, ev);
        }
        assert(sent == Ok::<Option<Delta>, BoundsError>(None));
        true
    }

    /// Route one inbound `(tag, payload)` message. Cell changes are applied
    /// as remote events and never answered; whole boards are handed back for
    /// their clues to be parsed; anything else is dropped.
    pub fn receive(&mut self, tag: &str, payload: &str) -> (r: Inbound)
        requires
            old(self).wf(),
        ensures
            final(self).wf(),
            tag_is(tag@, 'j', 'n') <==> r is Replace,
            r matches Inbound::Replace { clues, cells } ==> clues@ == clues_section(payload@)
                && cells@ == cells_section(payload@),
            !tag_is(tag@, 'j', 'n') && tag_is(tag@, 'u', 'c') ==> match parse_delta_spec(
                payload@,
            ) {
                Some((index, cell)) => if index < old(self).grid.cells@.len() {
                    r is Applied && final(self).grid.cells@ == old(self).grid.cells@.update(
                        index as int,
                        cell,
                    )
                } else {
                    r is OutOfRange && final(self).grid.cells@ == old(self).grid.cells@
                },
                None => r is Malformed && final(self).grid.cells@ == old(self).grid.cells@,
            },
            !tag_is(tag@, 'j', 'n') && !tag_is(tag@, 'u', 'c') ==> r is Unknown,
            !(r is Applied) ==> final(self).grid.cells@ == old(self).grid.cells@,
            final(self).grid.dims() == old(self).grid.dims(),
            final(self).grid.row_clues@ == old(self).grid.row_clues@,
            final(self).grid.column_clues@ == old(self).grid.column_clues@,
            final(self).clue_marks@ == old(self).clue_marks@,
            final(self).control_action == old(self).control_action,
            final(self).current_action == old(self).current_action,
            final(self).layout == old(self).layout,
            final(self).rebuild == old(self).rebuild,
    {
        match decode_message(tag, payload) {
            SyncMessage::Replace { clues, cells } => Inbound::Replace { clues, cells },
            SyncMessage::Delta { index, cell } => {
                if self.apply_remote_delta(index, cell) {
                    Inbound::Applied
                } else {
                    Inbound::OutOfRange
                }
            },
            SyncMessage::Malformed => Inbound::Malformed,
            SyncMessage::Unknown => Inbound::Unknown,
        }
    }

    /// The viewport now measures `w` by `h` pixels: ask the orchestrator for
    /// a rebuild. The layout changes only when the rebuild is carried out.
    pub fn resize(&mut self, w: u32, h: u32) -> (r: RebuildCommand)
        requires
            old(self).wf(),
        ensures
            final(self).wf(),
            (final(self).rebuild, r) == step_spec(old(self).rebuild, RebuildEvent::Resize { w, h }),
            final(self).grid == old(self).grid,
            final(self).layout == old(self).layout,
            final(self).clue_marks == old(self).clue_marks,
            final(self).control_action == old(self).control_action,
            final(self).current_action == old(self).current_action,
    {
        self.rebuild.step(RebuildEvent::Resize { w, h })
    }

    /// The renderer finished removing the board. When a spawn follows, the
    /// layout is recomputed, scale and origin together, from the current
    /// grid and the newest viewport first.
    pub fn tiles_deleted(&mut self) -> (r: RebuildCommand)
        requires
            old(self).wf(),
        ensures
            final(self).wf(),
            (final(self).rebuild, r) == step_spec(
                old(self).rebuild,
                RebuildEvent::TilesDeleted(DeletedTilesEvent),
            ),
            r matches RebuildCommand::Spawn { w, h, .. } ==> final(self).layout == layout_spec(
                old(self).grid.dims(),
                w,
                h,
            ),
            !(r is Spawn) ==> final(self).layout == old(self).layout,
            final(self).grid == old(self).grid,
            final(self).clue_marks == old(self).clue_marks,
            final(self).control_action == old(self).control_action,
            final(self).current_action == old(self).current_action,
    {
        let cmd = self.rebuild.step(RebuildEvent::TilesDeleted(DeletedTilesEvent));
        if let RebuildCommand::Spawn { w, h, .. } = cmd {
            let d = self.grid.dimensions();
            self.layout = compute_layout(&d, w, h);
        }
        cmd
    }

    /// The renderer finished spawning the board.
    pub fn tiles_spawned(&mut self) -> (r: RebuildCommand)
        requires
            old(self).wf(),
        ensures
            final(self).wf(),
            (final(self).rebuild, r) == step_spec(old(self).rebuild, RebuildEvent::TilesSpawned),
            final(self).grid == old(self).grid,
            final(self).layout == old(self).layout,
            final(self).clue_marks == old(self).clue_marks,
            final(self).control_action == old(self).control_action,
            final(self).current_action == old(self).current_action,
    {
        self.rebuild.step(RebuildEvent::TilesSpawned)
    }

    /// Swap in a new puzzle whose cells are given by `cells`. A cells text
    /// of the wrong length or with a character other than `0`, `1`, `X`
    /// rejects the whole swap and leaves the board as it was. On success
    /// both paint modes return to `Fill`, clue marks are cleared, the
    /// layout is recomputed and a rebuild is requested.
    pub fn replace(&mut self, grid: PuzzleGrid, cells: &Vec<char>) -> (r: Result<
        RebuildCommand,
        GridError,
    >)
        requires
            old(self).wf(),
            grid.wf(),
        ensures
            final(self).wf(),
            r is Ok <==> decode_cells_spec(cells@, grid.width * grid.height) is Some,
            r == Err::<RebuildCommand, GridError>(GridError::WrongCellCount) <==> cells@.len()
                != grid.width * grid.height,
            r == Err::<RebuildCommand, GridError>(GridError::BadCellChar) <==> (cells@.len()
                == grid.width * grid.height && decode_cells_spec(cells@, grid.width * grid.height)
                is None),
            r is Err ==> *final(self) == *old(self),
            r matches Ok(cmd) ==> {
                &&& Some(final(self).grid.cells@) == decode_cells_spec(
                    cells@,
                    grid.width * grid.height,
                )
                &&& final(self).grid.dims() == grid.dims()
                &&& final(self).grid.row_clues@ == grid.row_clues@
                &&& final(self).grid.column_clues@ == grid.column_clues@
                &&& final(self).current_action == CurrentAction(BoardAction::Fill)
                &&& final(self).control_action == ControlAction(BoardAction::Fill)
                &&& forall|i: int|
                    0 <= i < final(self).clue_marks@.len() ==> final(self).clue_marks@[i]
                        == BoardAction::Empty
                &&& final(self).layout == layout_spec(
                    grid.dims(),
                    old(self).rebuild.viewport_w,
                    old(self).rebuild.viewport_h,
                )
                &&& (final(self).rebuild, cmd) == step_spec(old(self).rebuild, RebuildEvent::Replaced)
            },
    {
        let n = grid.cells.len();
        let decoded = match decode_cells(cells, n) {
            Ok(v) => v,
            Err(e) => {
                return Err(e);
            },
        };
        let mut grid = grid;
        grid.cells = decoded;
        let d = grid.dimensions();
        self.layout = compute_layout(&d, self.rebuild.viewport_w, self.rebuild.viewport_h);
        self.clue_marks = unmarked(&d);
        self.grid = grid;
        self.current_action = CurrentAction(BoardAction::Fill);
        self.control_action = ControlAction(BoardAction::Fill);
        Ok(self.rebuild.step(RebuildEvent::Replaced))
    }
}

/// No clue marked, for every tile of a board of dimensions `d`.
fn unmarked(d: &GridDimensions) -> (r: Vec<BoardAction>)
    requires
        d.wf(),
    ensures
        r@.len() == d.total_w() * d.total_h(),
        forall|i: int| 0 <= i < r@.len() ==> r@[i] == BoardAction::Empty,
{
    let tw = d.total_width();
    let th = d.total_height();
    assert(0 <= tw * th <= 0xFFFE * 0xFFFE) by (nonlinear_arith)
        requires 0 <= tw <= 0xFFFE, 0 <= th <= 0xFFFE;
    let n = tw * th;
    let mut v: Vec<BoardAction> = Vec::new();
    let mut i: usize = 0;
    while i < n
        invariant
            i <= n,
            v@.len() == i,
            forall|j: int| 0 <= j < i ==> v@[j] == BoardAction::Empty,
        decreases n - i,
    {
        v.push(BoardAction::Empty);
        i += 1;
    }
    v
}

} // verus!
