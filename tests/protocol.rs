use picross_board::cell::CellState;
use picross_board::grid::{decode_cells, longest_len, GridError, PuzzleGrid};
use picross_board::wire::{decode_message, encode_delta, SyncMessage};

#[test]
fn decode_replace_splits_payload() {
    match decode_message("j", "CLUESSPLIT01X") {
        SyncMessage::Replace { clues, cells } => {
            assert_eq!(clues, "CLUES");
            assert_eq!(cells, vec!['0', '1', 'X']);
        }
        other => panic!("unexpected {:?}", other),
    }
    match decode_message("n", "only clues") {
        SyncMessage::Replace { clues, cells } => {
            assert_eq!(clues, "only clues");
            assert!(cells.is_empty());
        }
        other => panic!("unexpected {:?}", other),
    }
    match decode_message("j", "aSPLITbSPLITc") {
        SyncMessage::Replace { clues, cells } => {
            assert_eq!(clues, "a");
            assert_eq!(cells, vec!['b']);
        }
        other => panic!("unexpected {:?}", other),
    }
}

#[test]
fn decode_delta_and_errors() {
    assert!(matches!(
        decode_message("u", "12,X"),
        SyncMessage::Delta { index: 12, cell: CellState::Crossed }
    ));
    assert!(matches!(
        decode_message("c", "0,0"),
        SyncMessage::Delta { index: 0, cell: CellState::Empty }
    ));
    assert!(matches!(decode_message("u", ",1"), SyncMessage::Malformed));
    assert!(matches!(decode_message("u", "1,2"), SyncMessage::Malformed));
    assert!(matches!(decode_message("u", "a1,1"), SyncMessage::Malformed));
    assert!(matches!(decode_message("u", "99999999999999999999,1"), SyncMessage::Malformed));
    assert!(matches!(
        decode_message("u", "18446744073709551615,1"),
        SyncMessage::Delta { index: 18446744073709551615, cell: CellState::Filled }
    ));
    assert!(matches!(decode_message("uu", "1,1"), SyncMessage::Unknown));
    assert!(matches!(decode_message("x", "1,1"), SyncMessage::Unknown));
}

#[test]
fn encode_then_decode_round_trips() {
    for (i, c) in [(0u64, CellState::Empty), (7, CellState::Filled), (1234, CellState::Crossed)] {
        let (tag, payload) = encode_delta(i, c);
        assert_eq!(tag, "c");
        match decode_message(&tag, &payload) {
            SyncMessage::Delta { index, cell } => assert_eq!((index, cell), (i, c)),
            other => panic!("unexpected {:?}", other),
        }
    }
    assert_eq!(encode_delta(1234, CellState::Crossed).1, "1234,X");
}

#[test]
fn grid_construction_errors() {
    assert_eq!(PuzzleGrid::new(vec![], vec![vec![1]]).err(), Some(GridError::EmptyDimension));
    assert_eq!(PuzzleGrid::new(vec![vec![1]], vec![]).err(), Some(GridError::EmptyDimension));
    let many: Vec<Vec<u32>> = (0..0x8000).map(|_| Vec::new()).collect();
    assert_eq!(PuzzleGrid::new(many, vec![vec![1]]).err(), Some(GridError::TooLarge));
    let g = PuzzleGrid::new(vec![vec![1, 2, 3], vec![]], vec![vec![4], vec![1, 1]]).unwrap();
    assert_eq!((g.width, g.height), (2, 2));
    assert_eq!((g.longest_row_clue_len, g.longest_column_clue_len), (3, 2));
    assert_eq!(g.cells, vec![CellState::Empty; 4]);
    assert_eq!(longest_len(&vec![vec![1], vec![2, 3, 4], vec![]]), 3);
}

#[test]
fn cells_text_decoding() {
    assert_eq!(
        decode_cells(&vec!['1', 'X', '0'], 3),
        Ok(vec![CellState::Filled, CellState::Crossed, CellState::Empty])
    );
    assert_eq!(decode_cells(&vec!['1', 'X'], 3), Err(GridError::WrongCellCount));
    assert_eq!(decode_cells(&vec!['1', 'x', '0'], 3), Err(GridError::BadCellChar));
    let mut g = PuzzleGrid::new(vec![vec![], vec![]], vec![vec![], vec![]]).unwrap();
    assert_eq!(g.load_cells(&vec!['1', '1', '0']), Err(GridError::WrongCellCount));
    assert_eq!(g.cells, vec![CellState::Empty; 4]);
    assert_eq!(g.load_cells(&vec!['1', '1', '0', 'X']), Ok(()));
    assert_eq!(g.get_cell(1, 1), CellState::Crossed);
    assert_eq!(g.get_pos(1, 1), 3);
}
