//! Cell states, paint actions and their one-character wire form.

use vstd::prelude::*;

verus! {

/// What a single play cell of the puzzle holds.
#[derive(Clone, Copy, Debug, PartialEq, Eq, Structural)]
pub enum CellState {
    Empty,
    Filled,
    Crossed,
}

/// What a press or a drag paints.
#[derive(Clone, Copy, Debug, PartialEq, Eq, Structural)]
pub enum BoardAction {
    Fill,
    Cross,
    Empty,
}

/// The cell state that painting with `a` produces.
pub open spec fn target_state(a: BoardAction) -> CellState {
    match a {
        BoardAction::Fill => CellState::Filled,
        BoardAction::Cross => CellState::Crossed,
        BoardAction::Empty => CellState::Empty,
    }
}

/// The action that paints state `c`.
pub open spec fn action_for(c: CellState) -> BoardAction {
    match c {
        CellState::Filled => BoardAction::Fill,
        CellState::Crossed => BoardAction::Cross,
        CellState::Empty => BoardAction::Empty,
    }
}

/// Wire character of a cell state.
pub open spec fn state_char(c: CellState) -> char {
    match c {
        CellState::Empty => '0',
        CellState::Filled => '1',
        CellState::Crossed => 'X',
    }
}

/// Cell state carried by a wire character, if it is one of `0`, `1`, `X`.
pub open spec fn char_state(ch: char) -> Option<CellState> {
    if ch == '0' {
        Some(CellState::Empty)
    } else if ch == '1' {
        Some(CellState::Filled)
    } else if ch == 'X' {
        Some(CellState::Crossed)
    } else {
        None
    }
}

pub fn target_of(a: BoardAction) -> (r: CellState)
    ensures
        r == target_state(a),
{
    match a {
        BoardAction::Fill => CellState::Filled,
        BoardAction::Cross => CellState::Crossed,
        BoardAction::Empty => CellState::Empty,
    }
}

pub fn action_of(c: CellState) -> (r: BoardAction)
    ensures
        r == action_for(c),
        target_state(r) == c,
{
    match c {
        CellState::Filled => BoardAction::Fill,
        CellState::Crossed => BoardAction::Cross,
        CellState::Empty => BoardAction::Empty,
    }
}

pub fn to_char(c: CellState) -> (r: char)
    ensures
        r == state_char(c),
        char_state(r) == Some(c),
{
    match c {
        CellState::Empty => '0',
        CellState::Filled => '1',
        CellState::Crossed => 'X',
    }
}

pub fn from_char(ch: char) -> (r: Option<CellState>)
    ensures
        r == char_state(ch),
        r matches Some(c) ==> state_char(c) == ch,
{
    if ch == '0' {
        Some(CellState::Empty)
    } else if ch == '1' {
        Some(CellState::Filled)
    } else if ch == 'X' {
        Some(CellState::Crossed)
    } else {
        None
    }
}

} // verus!
