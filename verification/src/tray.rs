//! The tray menu: what each of its entries does.
use vstd::prelude::*;

use crate::state::{same_text, PetState};

verus! {

/// What a tray menu entry asks for.
#[derive(Clone, Copy, Debug, PartialEq, Eq, Structural)]
pub enum TrayAction {
    /// Show the pet's window.
    Show,
    /// Hide the pet's window.
    Hide,
    /// Set the pet's state.
    SetState(PetState),
    /// Put the pet's window back at this position and make the pet idle.
    ResetPosition { x: i32, y: i32 },
    /// Quit the application.
    Exit,
    /// An entry the menu does not have: nothing happens.
    Ignore,
}

/// Where "Reset Position" puts the pet's window.
pub const RESET_X: i32 = 1000;
pub const RESET_Y: i32 = 600;

/// The action of the tray menu entry with id `id`.
pub open spec fn tray_action_of(id: Seq<char>) -> TrayAction {
    if id == "show"@ {
        TrayAction::Show
    } else if id == "hide"@ {
        TrayAction::Hide
    } else if id == "sleep"@ {
        TrayAction::SetState(PetState::Sleeping)
    } else if id == "wake"@ {
        TrayAction::SetState(PetState::IdleLiving)
    } else if id == "reset"@ {
        TrayAction::ResetPosition { x: RESET_X, y: RESET_Y }
    } else if id == "exit"@ {
        TrayAction::Exit
    } else {
        TrayAction::Ignore
    }
}

/// The action of the tray menu entry with id `id`.
pub fn tray_action(id: &str) -> (r: TrayAction)
    ensures
        r == tray_action_of(id@),
{
    if same_text(id, "show") {
        TrayAction::Show
    } else if same_text(id, "hide") {
        TrayAction::Hide
    } else if same_text(id, "sleep") {
        TrayAction::SetState(PetState::Sleeping)
    } else if same_text(id, "wake") {
        TrayAction::SetState(PetState::IdleLiving)
    } else if same_text(id, "reset") {
        TrayAction::ResetPosition { x: RESET_X, y: RESET_Y }
    } else if same_text(id, "exit") {
        TrayAction::Exit
    } else {
        TrayAction::Ignore
    }
}

} // verus!
