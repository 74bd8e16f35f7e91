//! Which paint action a press selects, and how the control tile cycles.

use vstd::prelude::*;
use crate::cell::BoardAction;

verus! {

/// What the next primary press or drag paints.
#[derive(Clone, Copy, Debug, PartialEq, Eq, Structural)]
pub struct CurrentAction(pub BoardAction);

/// The mode selected on the control tile.
#[derive(Clone, Copy, Debug, PartialEq, Eq, Structural)]
pub struct ControlAction(pub BoardAction);

/// A pointer button, or the equivalent touch gesture.
#[derive(Clone, Copy, Debug, PartialEq, Eq, Structural)]
pub enum PointerButton {
    Primary,
    Secondary,
    Tertiary,
}

/// The control tile's mode after one activation.
pub open spec fn next_control_spec(a: BoardAction) -> BoardAction {
    match a {
        BoardAction::Fill => BoardAction::Cross,
        BoardAction::Cross => BoardAction::Fill,
        BoardAction::Empty => BoardAction::Fill,
    }
}

pub fn next_control(a: BoardAction) -> (r: BoardAction)
    ensures
        r == next_control_spec(a),
{
    match a {
        BoardAction::Fill => BoardAction::Cross,
        BoardAction::Cross => BoardAction::Fill,
        BoardAction::Empty => BoardAction::Fill,
    }
}

/// The action a fresh press of button `b` selects while the control tile
/// shows `control`.
pub open spec fn press_action_spec(b: PointerButton, control: BoardAction) -> BoardAction {
    match b {
        PointerButton::Primary => control,
        PointerButton::Secondary => BoardAction::Cross,
        PointerButton::Tertiary => BoardAction::Empty,
    }
}

pub fn press_action(b: PointerButton, control: BoardAction) -> (r: BoardAction)
    ensures
        r == press_action_spec(b, control),
{
    match b {
        PointerButton::Primary => control,
        PointerButton::Secondary => BoardAction::Cross,
        PointerButton::Tertiary => BoardAction::Empty,
    }
}

/// A press on a target that already shows what `a` would paint turns into
/// an erase, so repeating an action undoes it.
pub open spec fn repeat_toggle_spec(a: BoardAction, already_shown: bool) -> BoardAction {
    if a != BoardAction::Empty && already_shown {
        BoardAction::Empty
    } else {
        a
    }
}

pub fn repeat_toggle(a: BoardAction, already_shown: bool) -> (r: BoardAction)
    ensures
        r == repeat_toggle_spec(a, already_shown),
{
    if a != BoardAction::Empty && already_shown {
        BoardAction::Empty
    } else {
        a
    }
}

} // verus!
