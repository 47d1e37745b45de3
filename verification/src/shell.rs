//! Decisions of the window and of the tray menu.

use crate::app_config::CloseAction;
use crate::catalog::same_text;
use vstd::prelude::*;

verus! {

/// A command of the tray menu.
#[derive(Debug, Clone, Copy, PartialEq, Eq, Structural)]
pub enum TrayCommand {
    /// Show the main window.
    Show,
    /// Switch monitoring on or off.
    Toggle,
    /// Leave the program at once.
    Exit,
    /// An event of some other menu item.
    Other,
}

/// The command that a menu identifier stands for.
pub open spec fn command_of(id: Seq<char>) -> TrayCommand {
    if id == "exit"@ {
        TrayCommand::Exit
    } else if id == "show"@ {
        TrayCommand::Show
    } else if id == "toggle"@ {
        TrayCommand::Toggle
    } else {
        TrayCommand::Other
    }
}

/// The identifier under which a command stands in the tray menu.
pub fn menu_id(command: TrayCommand) -> (r: &'static str)
    ensures
        command != TrayCommand::Other ==> command_of(r@) == command,
        command == TrayCommand::Other ==> r@.len() == 0,
{
    proof {
        reveal_strlit("exit");
        reveal_strlit("show");
        reveal_strlit("toggle");
        reveal_strlit("");
        assert("show"@[0] != "exit"@[0]);
        assert("toggle"@[0] != "exit"@[0]);
        assert("toggle"@[0] != "show"@[0]);
    }
    match command {
        TrayCommand::Show => "show",
        TrayCommand::Toggle => "toggle",
        TrayCommand::Exit => "exit",
        TrayCommand::Other => "",
    }
}

/// Reads the identifier of a menu event.
pub fn tray_command(id: &str) -> (r: TrayCommand)
    ensures
        r == command_of(id@),
{
    if same_text(id, "exit") {
        TrayCommand::Exit
    } else if same_text(id, "show") {
        TrayCommand::Show
    } else if same_text(id, "toggle") {
        TrayCommand::Toggle
    } else {
        TrayCommand::Other
    }
}

/// What becomes of a request to close the window.
#[derive(Debug, Clone, Copy, PartialEq, Eq, Structural)]
pub enum CloseOutcome {
    /// The window is hidden and the program goes on in the tray.
    HideToTray,
    /// The window closes and the program ends.
    Exit,
}

/// Decides a request to close the window: where the user asked to leave,
/// through a menu or a dialog, the program ends; else the configured
/// behaviour decides.
pub fn on_close_requested(action: CloseAction, exit_requested: bool) -> (r: CloseOutcome)
    ensures
        r == if exit_requested || action == CloseAction::ExitApp {
            CloseOutcome::Exit
        } else {
            CloseOutcome::HideToTray
        },
{
    if exit_requested {
        CloseOutcome::Exit
    } else {
        match action {
            CloseAction::MinimizeToTray => CloseOutcome::HideToTray,
            CloseAction::ExitApp => CloseOutcome::Exit,
        }
    }
}

} // verus!
