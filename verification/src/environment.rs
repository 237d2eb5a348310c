//! What the tray takes from its surroundings: the names of the environment
//! variables it reads, and the shell command that discovers the installed
//! applications.

use vstd::prelude::*;

verus! {

/// The variable that holds the launcher's path, with which every command
/// line begins.
pub const LW_SOURCE: &'static str = "LW_SOURCE";

/// The variable that holds the directory of the application descriptors.
pub const LW_APPS_DIR: &'static str = "LW_APPS_DIR";

/// The variable that holds the preferred icon name of the tray.
pub const LW_EXE_ICON: &'static str = "LW_EXE_ICON";

/// The variable that holds the icon name of the tray where none is
/// preferred.
pub const LW_DEF_ICO: &'static str = "LW_DEF_ICO";

/// The variable that holds the title of the tray.
pub const EXE_NAME: &'static str = "EXE_NAME";

/// The variable that marks the secondary launcher. Where it is not empty the
/// submenu that starts the launcher is hidden.
pub const LU_EXE: &'static str = "LU_EXE";

/// The shell command that writes the application list. It looks through the
/// application directory for the files that hold a line beginning with
/// `Categories=Lux Wine Apps`, takes from each its first two lines that begin
/// with `Name=` or `Icon=`, joins the name and the icon name by the
/// separator, and sorts the lines, each kept once.
pub const DISCOVERY_COMMAND: &'static str =
    "grep '^Categories=Lux Wine Apps' -lr ''$LW_APPS_DIR'' 2>/dev/null|\
     xargs -I {{}} grep -m2 '^Name=\\|^Icon=' {{}} 2>/dev/null|sed 's|^Name=||g'|\
     sed ':a;N;$!ba;s|\\nIcon=| ##\\&## |g'|sort -u";

} // verus!
