//! What the tray icon's events do to the notification window.
use vstd::prelude::*;
use crate::notification::same_text;

verus! {

/// An event of the tray icon, as the host reports it.
#[derive(Clone, Debug, PartialEq, Eq)]
pub enum TrayEvent {
    LeftClick,
    DoubleClick,
    /// A click on the menu item with this id.
    MenuItem { id: String },
    Other,
}

#[derive(Clone, Copy, Debug, PartialEq, Eq, Structural)]
pub enum TrayCommand {
    ShowWindow,
    HideWindow,
    Quit,
    Nothing,
}

pub open spec fn spec_menu_command(id: Seq<char>) -> TrayCommand {
    if id == "quit"@ {
        TrayCommand::Quit
    } else if id == "hide"@ {
        TrayCommand::HideWindow
    } else if id == "show"@ {
        TrayCommand::ShowWindow
    } else {
        TrayCommand::Nothing
    }
}

/// Clicks on the icon show the window; the menu items quit, hide or show.
pub open spec fn spec_tray_command(e: TrayEvent) -> TrayCommand {
    match e {
        TrayEvent::LeftClick | TrayEvent::DoubleClick => TrayCommand::ShowWindow,
        TrayEvent::MenuItem { id } => spec_menu_command(id@),
        TrayEvent::Other => TrayCommand::Nothing,
    }
}

/// The command a tray event stands for.
pub fn tray_command(event: &TrayEvent) -> (r: TrayCommand)
    ensures
        r == spec_tray_command(*event),
{
    match event {
        TrayEvent::LeftClick | TrayEvent::DoubleClick => TrayCommand::ShowWindow,
        TrayEvent::MenuItem { id } => {
            if same_text(id.as_str(), "quit") {
                TrayCommand::Quit
            } else if same_text(id.as_str(), "hide") {
                TrayCommand::HideWindow
            } else if same_text(id.as_str(), "show") {
                TrayCommand::ShowWindow
            } else {
                TrayCommand::Nothing
            }
        },
        TrayEvent::Other => TrayCommand::Nothing,
    }
}

} // verus!
