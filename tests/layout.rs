use picross_board::grid::PuzzleGrid;
use picross_board::layout::{compute_layout, GridDimensions};
use picross_board::mapper::{classify, screen_to_tile, Region};
use picross_board::scene::{clue_value, control_tile, spawn_plan, Clue, Spawn, Tile};
use picross_board::cell::{BoardAction, CellState};

fn dims(w: usize, h: usize, rcl: usize, ccl: usize) -> GridDimensions {
    GridDimensions { width: w, height: h, longest_row_clue_len: rcl, longest_column_clue_len: ccl }
}

#[test]
fn layout_fits_width_when_viewport_is_tall() {
    let l = compute_layout(&dims(5, 5, 0, 0), 400, 800);
    assert_eq!((l.ppt_num, l.ppt_den), (400, 5));
    assert_eq!(l.origin_x_num, 0);
    // 80 px per tile, 400 px of board in 800: 200 px margin below
    assert_eq!(l.origin_y_num, 2000);
    assert_eq!(l.origin_y_num / (2 * l.ppt_den), 200);
    assert_eq!(l.scale_factor(), (400, 500));
}

#[test]
fn layout_fits_height_on_tie_and_wide_viewport() {
    let l = compute_layout(&dims(4, 3, 2, 1), 1000, 400);
    assert_eq!((l.ppt_num, l.ppt_den), (400, 4));
    assert_eq!(l.origin_y_num, 0);
    // 100 px per tile, 6 tiles wide: (1000 - 600) / 2 = 200
    assert_eq!(l.origin_x_num / (2 * l.ppt_den), 200);
    let t = compute_layout(&dims(3, 3, 0, 0), 300, 300);
    assert_eq!((t.ppt_num, t.ppt_den, t.origin_x_num, t.origin_y_num), (300, 3, 0, 0));
}

#[test]
fn pointer_maps_by_floor() {
    let l = compute_layout(&dims(5, 5, 0, 0), 500, 500);
    assert_eq!(screen_to_tile(&l, 250, 250), (2, 2));
    assert_eq!(screen_to_tile(&l, 200, 299), (2, 2));
    assert_eq!(screen_to_tile(&l, 199, 300), (1, 3));
    assert_eq!(screen_to_tile(&l, -1, 0), (-1, 0));
    let w = compute_layout(&dims(5, 5, 0, 0), 700, 500);
    // board centred with a 100 px margin on the left
    assert_eq!(screen_to_tile(&w, 99, 0), (-1, 0));
    assert_eq!(screen_to_tile(&w, 100, 0), (0, 0));
}

#[test]
fn classify_covers_every_region() {
    let d = dims(2, 2, 1, 1);
    assert_eq!(classify(0, 2, &d), Region::Control);
    assert_eq!(classify(0, 0, &d), Region::ClueRow);
    assert_eq!(classify(0, 1, &d), Region::ClueRow);
    assert_eq!(classify(1, 2, &d), Region::ClueColumn);
    assert_eq!(classify(2, 2, &d), Region::ClueColumn);
    assert_eq!(classify(1, 0, &d), Region::Play);
    assert_eq!(classify(2, 1, &d), Region::Play);
    assert_eq!(classify(-1, 0, &d), Region::OutOfBounds);
    assert_eq!(classify(3, 0, &d), Region::OutOfBounds);
    assert_eq!(classify(0, 3, &d), Region::OutOfBounds);
    let mut count = [0usize; 5];
    for x in -2..5 {
        for y in -2..5 {
            let i = match classify(x, y, &d) {
                Region::Control => 0,
                Region::ClueRow => 1,
                Region::ClueColumn => 2,
                Region::Play => 3,
                Region::OutOfBounds => 4,
            };
            count[i] += 1;
        }
    }
    assert_eq!(count, [1, 2, 2, 4, 49 - 9]);
}

#[test]
fn spawn_plan_places_clues_and_cells() {
    let mut g = PuzzleGrid::new(vec![vec![1, 1], vec![2]], vec![vec![2], vec![1, 3]]).unwrap();
    g.set_cell(1, 0, CellState::Filled);
    let plan = spawn_plan(&g);
    assert_eq!(plan.len(), 4);
    assert!(plan.iter().all(|c| c.len() == 4));
    assert_eq!(plan[0][2], Spawn::Corner);
    assert_eq!(plan[1][3], Spawn::Corner);
    // row 0 clues right-aligned: [1, 1] in x = 0, 1
    assert_eq!(plan[0][0], Spawn::Clue { clue: Clue { x: 0, y: 0 }, value: Some(1) });
    // row 1 clue [2] in x = 1 only
    assert_eq!(plan[0][1], Spawn::Clue { clue: Clue { x: 0, y: 1 }, value: None });
    assert_eq!(plan[1][1], Spawn::Clue { clue: Clue { x: 1, y: 1 }, value: Some(2) });
    // column 1 clues [1, 3]: the last one next to the play area
    assert_eq!(clue_value(&g, 3, 2), Some(3));
    assert_eq!(clue_value(&g, 3, 3), Some(1));
    assert_eq!(clue_value(&g, 2, 3), None);
    assert_eq!(plan[3][0], Spawn::Play { tile: Tile { x: 3, y: 0 }, state: CellState::Filled });
    assert_eq!(plan[2][1], Spawn::Play { tile: Tile { x: 2, y: 1 }, state: CellState::Empty });
    let c = control_tile(&g, BoardAction::Cross);
    assert_eq!((c.x, c.y, c.size, c.action), (0, 2, 2, BoardAction::Cross));
}
