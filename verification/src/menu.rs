//! The menu command surface: a closed set of commands, parsed from the
//! identifier strings a front end's menu emits, and a planner that says what
//! the front end must do for each command — so dispatch is matched
//! exhaustively and an unrecognized identifier is caught in one place.

use vstd::prelude::*;
use crate::errors::DocError;

verus! {

/// Every command the application menu can issue.
#[derive(Clone, Copy, PartialEq, Eq, Structural, Debug)]
pub enum MenuCommand {
    NewProject,
    OpenProject,
    ImportOffset,
    Save,
    SaveAs,
    Export,
    ToggleDarkmode,
    OpenDocs,
    OpenDiscord,
    OpenPatreon,
    OpenKofi,
}

/// Which of the two whole-package replacements a reload performs.
#[derive(Clone, Copy, PartialEq, Eq, Structural, Debug)]
pub enum ReloadKind {
    /// Reset to a fresh empty package.
    NewProject,
    /// Replace the package from an external source.
    OpenProject,
}

/// An external page the help menu opens.
#[derive(Clone, Copy, PartialEq, Eq, Structural, Debug)]
pub enum UrlTarget {
    Docs,
    Discord,
    Patreon,
    Kofi,
}

/// What the front end must perform for one menu command.
#[derive(Clone, Copy, PartialEq, Eq, Structural, Debug)]
pub enum MenuAction {
    /// Ask the user first (unsaved changes exist), then reload on "yes".
    ConfirmThenReload(ReloadKind),
    /// Reload immediately: no unsaved changes to lose.
    Reload(ReloadKind),
    /// Persist the package; `as_new` picks a fresh destination ("Save As").
    SaveProject { as_new: bool },
    /// Serialize the package into the build format; not a save.
    ExportProject,
    /// Merge external offset data into the package.
    ImportOffsets,
    /// Flip the dark-mode preference and broadcast the new value.
    ToggleDark,
    /// Pass an external link to the system URL opener; no state is touched.
    OpenUrl(UrlTarget),
}

/// The command a menu identifier string names, if any.
pub open spec fn spec_parse_menu_id(s: Seq<char>) -> Option<MenuCommand> {
    if s == "new_prjct"@ {
        Option::Some(MenuCommand::NewProject)
    } else if s == "open_prjct"@ {
        Option::Some(MenuCommand::OpenProject)
    } else if s == "import_offset"@ {
        Option::Some(MenuCommand::ImportOffset)
    } else if s == "save"@ {
        Option::Some(MenuCommand::Save)
    } else if s == "save_as"@ {
        Option::Some(MenuCommand::SaveAs)
    } else if s == "build"@ {
        Option::Some(MenuCommand::Export)
    } else if s == "darkmode"@ {
        Option::Some(MenuCommand::ToggleDarkmode)
    } else if s == "open_docs"@ {
        Option::Some(MenuCommand::OpenDocs)
    } else if s == "discord"@ {
        Option::Some(MenuCommand::OpenDiscord)
    } else if s == "patreon"@ {
        Option::Some(MenuCommand::OpenPatreon)
    } else if s == "kofi"@ {
        Option::Some(MenuCommand::OpenKofi)
    } else {
        Option::None
    }
}

/// Parses a menu identifier.  An identifier outside the closed command set
/// is the unrecognized-command case, a programming-contract violation: the
/// front end logs it as an error and does nothing else.
pub fn parse_menu_id(id: &String) -> (r: Result<MenuCommand, DocError>)
    ensures
        match spec_parse_menu_id(id@) {
            Option::Some(cmd) => r == Result::<MenuCommand, DocError>::Ok(cmd),
            Option::None => r == Result::<MenuCommand, DocError>::Err(
                DocError::UnrecognizedCommand,
            ),
        },
{
    if *id == String::from_str("new_prjct") {
        Result::Ok(MenuCommand::NewProject)
    } else if *id == String::from_str("open_prjct") {
        Result::Ok(MenuCommand::OpenProject)
    } else if *id == String::from_str("import_offset") {
        Result::Ok(MenuCommand::ImportOffset)
    } else if *id == String::from_str("save") {
        Result::Ok(MenuCommand::Save)
    } else if *id == String::from_str("save_as") {
        Result::Ok(MenuCommand::SaveAs)
    } else if *id == String::from_str("build") {
        Result::Ok(MenuCommand::Export)
    } else if *id == String::from_str("darkmode") {
        Result::Ok(MenuCommand::ToggleDarkmode)
    } else if *id == String::from_str("open_docs") {
        Result::Ok(MenuCommand::OpenDocs)
    } else if *id == String::from_str("discord") {
        Result::Ok(MenuCommand::OpenDiscord)
    } else if *id == String::from_str("patreon") {
        Result::Ok(MenuCommand::OpenPatreon)
    } else if *id == String::from_str("kofi") {
        Result::Ok(MenuCommand::OpenKofi)
    } else {
        Result::Err(DocError::UnrecognizedCommand)
    }
}

/// The action one menu command asks of the front end, given the dirty flag
/// at dispatch time: destructive reloads go behind the confirmation gate
/// exactly when unsaved changes exist; everything else runs directly.
pub open spec fn spec_menu_plan(cmd: MenuCommand, dirty: bool) -> MenuAction {
    match cmd {
        MenuCommand::NewProject => if dirty {
            MenuAction::ConfirmThenReload(ReloadKind::NewProject)
        } else {
            MenuAction::Reload(ReloadKind::NewProject)
        },
        MenuCommand::OpenProject => if dirty {
            MenuAction::ConfirmThenReload(ReloadKind::OpenProject)
        } else {
            MenuAction::Reload(ReloadKind::OpenProject)
        },
        MenuCommand::ImportOffset => MenuAction::ImportOffsets,
        MenuCommand::Save => MenuAction::SaveProject { as_new: false },
        MenuCommand::SaveAs => MenuAction::SaveProject { as_new: true },
        MenuCommand::Export => MenuAction::ExportProject,
        MenuCommand::ToggleDarkmode => MenuAction::ToggleDark,
        MenuCommand::OpenDocs => MenuAction::OpenUrl(UrlTarget::Docs),
        MenuCommand::OpenDiscord => MenuAction::OpenUrl(UrlTarget::Discord),
        MenuCommand::OpenPatreon => MenuAction::OpenUrl(UrlTarget::Patreon),
        MenuCommand::OpenKofi => MenuAction::OpenUrl(UrlTarget::Kofi),
    }
}

/// Plans the handling of one menu command (see [`spec_menu_plan`]).
pub fn menu_plan(cmd: MenuCommand, dirty: bool) -> (a: MenuAction)
    ensures
        a == spec_menu_plan(cmd, dirty),
{
    match cmd {
        MenuCommand::NewProject => if dirty {
            MenuAction::ConfirmThenReload(ReloadKind::NewProject)
        } else {
            MenuAction::Reload(ReloadKind::NewProject)
        },
        MenuCommand::OpenProject => if dirty {
            MenuAction::ConfirmThenReload(ReloadKind::OpenProject)
        } else {
            MenuAction::Reload(ReloadKind::OpenProject)
        },
        MenuCommand::ImportOffset => MenuAction::ImportOffsets,
        MenuCommand::Save => MenuAction::SaveProject { as_new: false },
        MenuCommand::SaveAs => MenuAction::SaveProject { as_new: true },
        MenuCommand::Export => MenuAction::ExportProject,
        MenuCommand::ToggleDarkmode => MenuAction::ToggleDark,
        MenuCommand::OpenDocs => MenuAction::OpenUrl(UrlTarget::Docs),
        MenuCommand::OpenDiscord => MenuAction::OpenUrl(UrlTarget::Discord),
        MenuCommand::OpenPatreon => MenuAction::OpenUrl(UrlTarget::Patreon),
        MenuCommand::OpenKofi => MenuAction::OpenUrl(UrlTarget::Kofi),
    }
}

} // verus!
