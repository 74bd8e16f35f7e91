use picross_board::board::{Board, BoundsError, Delta, Inbound, InputEvent};
use picross_board::cell::{BoardAction, CellState};
use picross_board::grid::{GridError, PuzzleGrid};
use picross_board::rebuild::{Phase, RebuildCommand};
use picross_board::resolver::{ControlAction, CurrentAction, PointerButton};
use picross_board::wire::encode_delta;

fn blank_grid(w: usize, h: usize) -> PuzzleGrid {
    let rows: Vec<Vec<u32>> = (0..h).map(|_| Vec::new()).collect();
    let cols: Vec<Vec<u32>> = (0..w).map(|_| Vec::new()).collect();
    PuzzleGrid::new(rows, cols).unwrap()
}

/// 2 by 2 play area with one clue per line: 3 by 3 tiles, control at (0, 2).
fn clued_grid() -> PuzzleGrid {
    PuzzleGrid::new(vec![vec![1], vec![2]], vec![vec![1], vec![2]]).unwrap()
}

fn local(x: i64, y: i64, action: BoardAction) -> InputEvent {
    InputEvent { x, y, action, from_player: true }
}

fn chars(s: &str) -> Vec<char> {
    s.chars().collect()
}

#[test]
fn toggle_cell_sends_deltas_in_order() {
    let mut b = Board::new(blank_grid(5, 5), 500, 500);
    let mut sent = Vec::new();
    for a in [BoardAction::Fill, BoardAction::Cross, BoardAction::Empty] {
        if let Ok(Some(d)) = b.apply_input(&local(2, 2, a)) {
            sent.push(encode_delta(d.index, d.cell));
        }
    }
    let payloads: Vec<String> = sent.iter().map(|m| m.1.clone()).collect();
    assert_eq!(payloads, vec!["12,1", "12,X", "12,0"]);
    assert!(sent.iter().all(|m| m.0 == "c"));
    assert_eq!(b.grid.cells[12], CellState::Empty);
}

#[test]
fn same_action_twice_sends_once() {
    let mut b = Board::new(blank_grid(5, 5), 500, 500);
    let first = b.apply_input(&local(1, 3, BoardAction::Fill));
    let second = b.apply_input(&local(1, 3, BoardAction::Fill));
    assert_eq!(first, Ok(Some(Delta { index: 16, cell: CellState::Filled })));
    assert_eq!(second, Ok(None));
    assert_eq!(b.grid.cells[16], CellState::Filled);
}

#[test]
fn remote_change_sends_nothing() {
    let mut b = Board::new(blank_grid(5, 5), 500, 500);
    let ev = InputEvent { x: 4, y: 0, action: BoardAction::Cross, from_player: false };
    assert_eq!(b.apply_input(&ev), Ok(None));
    assert_eq!(b.grid.cells[4], CellState::Crossed);
    assert!(b.apply_remote_delta(7, CellState::Filled));
    assert_eq!(b.grid.cells[7], CellState::Filled);
    assert!(!b.apply_remote_delta(25, CellState::Filled));
}

#[test]
fn replace_with_short_cells_is_rejected() {
    let mut b = Board::new(blank_grid(5, 5), 500, 500);
    let _ = b.apply_input(&local(0, 0, BoardAction::Fill));
    let before = b.grid.cells.clone();
    let r = b.replace(blank_grid(2, 2), &chars("010"));
    assert_eq!(r.unwrap_err(), GridError::WrongCellCount);
    assert_eq!(b.grid.cells, before);
    assert_eq!(b.grid.width, 5);
    assert_eq!(b.rebuild.phase, Phase::Idle);
}

#[test]
fn replace_with_bad_character_is_rejected() {
    let mut b = Board::new(blank_grid(5, 5), 500, 500);
    let r = b.replace(blank_grid(2, 2), &chars("01Y0"));
    assert_eq!(r.unwrap_err(), GridError::BadCellChar);
    assert_eq!(b.grid.width, 5);
    assert_eq!(b.rebuild.phase, Phase::Idle);
}

#[test]
fn replace_loads_cells_and_resets_modes() {
    let mut b = Board::new(blank_grid(5, 5), 500, 500);
    b.control_action = ControlAction(BoardAction::Cross);
    b.current_action = CurrentAction(BoardAction::Cross);
    let cmd = b.replace(clued_grid(), &chars("1X01")).unwrap();
    assert!(matches!(cmd, RebuildCommand::Delete(_)));
    assert_eq!(
        b.grid.cells,
        vec![CellState::Filled, CellState::Crossed, CellState::Empty, CellState::Filled]
    );
    assert_eq!(b.control_action, ControlAction(BoardAction::Fill));
    assert_eq!(b.current_action, CurrentAction(BoardAction::Fill));
    assert_eq!(b.clue_marks.len(), 9);
    assert_eq!(b.layout.total_width, 3);
    assert_eq!(b.layout.ppt_num, 500);
    assert_eq!(b.layout.ppt_den, 3);
}

#[test]
fn resize_mid_rebuild_coalesces() {
    let mut b = Board::new(blank_grid(5, 5), 500, 500);
    let mut deletes = 0;
    let mut spawns = Vec::new();
    for cmd in [b.resize(600, 400), b.resize(800, 600)] {
        if matches!(cmd, RebuildCommand::Delete(_)) {
            deletes += 1;
        }
    }
    if let RebuildCommand::Spawn { w, h, .. } = b.tiles_deleted() {
        spawns.push((w, h));
    }
    assert!(matches!(b.tiles_spawned(), RebuildCommand::Nothing));
    assert_eq!(deletes, 1);
    assert_eq!(spawns, vec![(800, 600)]);
    assert_eq!(b.rebuild.phase, Phase::Idle);
    assert_eq!((b.layout.viewport_w, b.layout.viewport_h), (800, 600));
    assert_eq!((b.layout.ppt_num, b.layout.ppt_den), (600, 5));
}

#[test]
fn request_during_spawn_queues_one_more_cycle() {
    let mut b = Board::new(blank_grid(5, 5), 500, 500);
    assert!(matches!(b.resize(600, 400), RebuildCommand::Delete(_)));
    assert!(matches!(b.tiles_deleted(), RebuildCommand::Spawn { w: 600, h: 400, .. }));
    assert!(matches!(b.resize(300, 300), RebuildCommand::Nothing));
    assert!(matches!(b.resize(320, 300), RebuildCommand::Nothing));
    assert!(matches!(b.tiles_spawned(), RebuildCommand::Delete(_)));
    assert!(matches!(b.tiles_deleted(), RebuildCommand::Spawn { w: 320, h: 300, .. }));
    assert!(matches!(b.tiles_spawned(), RebuildCommand::Nothing));
    assert_eq!(b.rebuild.phase, Phase::Idle);
}

#[test]
fn control_tile_cycles_fill_cross() {
    let mut b = Board::new(clued_grid(), 300, 300);
    let mut seen = Vec::new();
    for _ in 0..3 {
        let ev = b.pointer_tick(50, 250, Some(PointerButton::Primary), true).unwrap();
        assert_eq!((ev.x, ev.y), (0, 2));
        assert_eq!(b.apply_input(&ev), Ok(None));
        seen.push(b.control_action.0);
    }
    assert_eq!(seen, vec![BoardAction::Cross, BoardAction::Fill, BoardAction::Cross]);
    assert_eq!(b.grid.cells, vec![CellState::Empty; 4]);
}

#[test]
fn control_tile_ignores_current_action() {
    let mut b = Board::new(clued_grid(), 300, 300);
    b.current_action = CurrentAction(BoardAction::Empty);
    assert_eq!(b.apply_input(&local(0, 2, BoardAction::Empty)), Ok(None));
    assert_eq!(b.control_action.0, BoardAction::Cross);
    assert_eq!(b.apply_input(&local(0, 2, BoardAction::Cross)), Ok(None));
    assert_eq!(b.control_action.0, BoardAction::Fill);
}

#[test]
fn press_on_filled_cell_erases() {
    let mut b = Board::new(blank_grid(5, 5), 500, 500);
    let ev = b.pointer_tick(250, 250, Some(PointerButton::Primary), true).unwrap();
    assert_eq!(ev, local(2, 2, BoardAction::Fill));
    assert!(matches!(b.apply_input(&ev), Ok(Some(_))));
    let ev = b.pointer_tick(250, 250, Some(PointerButton::Primary), true).unwrap();
    assert_eq!(ev.action, BoardAction::Empty);
    assert_eq!(b.apply_input(&ev), Ok(Some(Delta { index: 12, cell: CellState::Empty })));
    // held drag keeps painting with the toggled action, without re-checking
    let ev = b.pointer_tick(350, 250, None, true).unwrap();
    assert_eq!(ev, local(3, 2, BoardAction::Empty));
}

#[test]
fn secondary_and_tertiary_buttons_select_actions() {
    let mut b = Board::new(blank_grid(5, 5), 500, 500);
    let ev = b.pointer_tick(10, 10, Some(PointerButton::Secondary), true).unwrap();
    assert_eq!(ev, local(0, 0, BoardAction::Cross));
    let ev = b.pointer_tick(10, 10, Some(PointerButton::Tertiary), true).unwrap();
    assert_eq!(ev, local(0, 0, BoardAction::Empty));
    assert_eq!(b.pointer_tick(10, 10, None, false), None);
}

#[test]
fn clue_mark_toggles_off_on_repeat() {
    let mut b = Board::new(clued_grid(), 300, 300);
    // row clue of row 0 at tile (0, 0)
    let ev = b.pointer_tick(50, 50, Some(PointerButton::Primary), true).unwrap();
    assert_eq!(ev, local(0, 0, BoardAction::Fill));
    assert_eq!(b.apply_input(&ev), Ok(None));
    assert_eq!(b.clue_marks[0], BoardAction::Fill);
    let ev = b.pointer_tick(50, 50, Some(PointerButton::Primary), true).unwrap();
    assert_eq!(ev.action, BoardAction::Empty);
    let _ = b.apply_input(&ev);
    assert_eq!(b.clue_marks[0], BoardAction::Empty);
    assert_eq!(b.grid.cells, vec![CellState::Empty; 4]);
}

#[test]
fn receive_routes_messages() {
    let mut b = Board::new(blank_grid(5, 5), 500, 500);
    assert!(matches!(b.receive("u", "12,X"), Inbound::Applied));
    assert_eq!(b.grid.cells[12], CellState::Crossed);
    assert!(matches!(b.receive("c", "3,1"), Inbound::Applied));
    assert_eq!(b.grid.cells[3], CellState::Filled);
    assert!(matches!(b.receive("u", "25,1"), Inbound::OutOfRange));
    assert!(matches!(b.receive("u", "2;1"), Inbound::Malformed));
    assert!(matches!(b.receive("z", "2,1"), Inbound::Unknown));
    match b.receive("j", "1 2/3SPLIT0101") {
        Inbound::Replace { clues, cells } => {
            assert_eq!(clues, "1 2/3");
            assert_eq!(cells, chars("0101"));
        }
        other => panic!("unexpected {:?}", other),
    }
}

#[test]
fn empty_viewport_maps_no_pointer_but_press_selects_action() {
    let mut b = Board::new(blank_grid(5, 5), 0, 600);
    assert_eq!(b.layout.ppt_num, 0);
    assert_eq!(b.pointer_tick(10, 10, Some(PointerButton::Secondary), true), None);
    assert_eq!(b.current_action, CurrentAction(BoardAction::Cross));
    assert_eq!(b.pointer_tick(10, 10, Some(PointerButton::Tertiary), true), None);
    assert_eq!(b.current_action, CurrentAction(BoardAction::Empty));
    assert_eq!(b.pointer_tick(10, 10, None, true), None);
    assert_eq!(b.current_action, CurrentAction(BoardAction::Empty));
    assert_eq!(b.pointer_tick(10, 10, Some(PointerButton::Primary), true), None);
    assert_eq!(b.current_action, CurrentAction(BoardAction::Fill));
}

#[test]
fn event_outside_board_is_reported() {
    let mut b = Board::new(blank_grid(5, 5), 500, 500);
    assert_eq!(b.apply_input(&local(5, 0, BoardAction::Fill)), Err(BoundsError));
    assert_eq!(b.apply_input(&local(0, -1, BoardAction::Fill)), Err(BoundsError));
    assert_eq!(b.grid.cells, vec![CellState::Empty; 25]);
}

#[test]
fn replace_reports_which_error() {
    let mut b = Board::new(blank_grid(5, 5), 500, 500);
    assert_eq!(b.replace(blank_grid(2, 2), &chars("01010")).unwrap_err(), GridError::WrongCellCount);
    assert_eq!(b.replace(blank_grid(2, 2), &chars("0a10")).unwrap_err(), GridError::BadCellChar);
    assert!(b.replace(blank_grid(2, 2), &chars("0110")).is_ok());
}
