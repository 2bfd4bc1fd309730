//! The two entries of the exercise's main menu.

use vstd::prelude::*;

verus! {

/// What the operator chose in the main menu.
#[derive(Debug, Clone, Copy, PartialEq, Eq, Structural)]
pub enum GhostAction {
    LaunchPhishing,
    Exit,
}

/// The action behind the menu entry at `selection`: the first entry launches
/// the exercise, every other one leaves.
pub open spec fn action_at(selection: int) -> GhostAction {
    if selection == 0 {
        GhostAction::LaunchPhishing
    } else {
        GhostAction::Exit
    }
}

/// Maps the index of the chosen menu entry to its action.
pub fn action_for(selection: usize) -> (action: GhostAction)
    ensures
        action == action_at(selection as int),
{
    match selection {
        0 => GhostAction::LaunchPhishing,
        _ => GhostAction::Exit,
    }
}

} // verus!
