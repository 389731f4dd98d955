//! Registration of the tray agent with the user's session: a shortcut in the
//! startup folder that runs the installed executable with `--tray-startup`.

use vstd::prelude::*;

verus! {

/// Where the installer puts the executable that the shortcut runs.
pub const INSTALLED_EXE: &'static str = "C:\\Program Files\\AutoCleaner\\autocleaner.exe";

/// The change to make to the startup folder.
pub enum StartupChange {
    /// Run this PowerShell command, which creates the shortcut.
    CreateShortcut { script: String },
    /// Remove the shortcut file, if it exists.
    RemoveShortcut,
}

/// The PowerShell command that creates a shortcut at `shortcut` to `target`,
/// started with the argument `--tray-startup`.
pub open spec fn shortcut_script(shortcut: Seq<char>, target: Seq<char>) -> Seq<char> {
    "$s=(New-Object -COM WScript.Shell).CreateShortcut('"@ + shortcut + "');$s.TargetPath='"@ + target
        + "';$s.Arguments='--tray-startup';$s.Save()"@
}

/// Enables (`true`) or disables (`false`) the start of the tray agent with the
/// user's session, where `shortcut_path` is the shortcut's place in the
/// startup folder: says how to change the startup folder.
pub fn set_startup(enabled: bool, shortcut_path: &str) -> (r: StartupChange)
    ensures
        enabled <==> r is CreateShortcut,
        r matches StartupChange::CreateShortcut { script } ==> script@ == shortcut_script(
            shortcut_path@,
            INSTALLED_EXE@,
        ),
{
    if enabled {
        let mut script = String::from_str("$s=(New-Object -COM WScript.Shell).CreateShortcut('");
        script.append(shortcut_path);
        script.append("');$s.TargetPath='");
        script.append(INSTALLED_EXE);
        script.append("';$s.Arguments='--tray-startup';$s.Save()");
        StartupChange::CreateShortcut { script }
    } else {
        StartupChange::RemoveShortcut
    }
}

} // verus!
