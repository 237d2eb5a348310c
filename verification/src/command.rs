//! The commands that menu items run, and what activating an item does.

use crate::menu::{Action, ActionView};
use vstd::prelude::*;

verus! {

/// The status with which the process ends when the user leaves by the menu.
pub const EXIT_STATUS: i32 = 0;

/// The flag text that runs the application called `name`.
pub open spec fn run_app_flag(name: Seq<char>) -> Seq<char> {
    "-runapp \""@ + name + "\""@
}

/// The flag text that opens the settings of the application called `name`.
pub open spec fn app_config_flag(name: Seq<char>) -> Seq<char> {
    "-appcfg \""@ + name + "\""@
}

/// The command line for a flag text: the launcher's path, one space, the
/// flag text.
pub open spec fn command_text(source: Seq<char>, flag: Seq<char>) -> Seq<char> {
    source + " "@ + flag
}

/// The flag text that runs the application called `name`, the name in
/// double quotes.
pub fn run_app(name: &str) -> (flag: String)
    ensures
        flag@ == run_app_flag(name@),
{
    let mut flag = "-runapp \"".to_owned();
    flag.append(name);
    flag.append("\"");
    flag
}

/// The flag text that opens the settings of the application called `name`,
/// the name in double quotes.
pub fn app_config(name: &str) -> (flag: String)
    ensures
        flag@ == app_config_flag(name@),
{
    let mut flag = "-appcfg \"".to_owned();
    flag.append(name);
    flag.append("\"");
    flag
}

/// The command line that runs the launcher at `source` with `flag`.
pub fn command_line(source: &str, flag: &str) -> (command: String)
    ensures
        command@ == command_text(source@, flag@),
{
    let mut command = source.to_owned();
    command.append(" ");
    command.append(flag);
    command
}

/// What the front end does when an item is activated.
#[derive(Clone, Debug, PartialEq, Eq)]
pub enum Effect {
    /// Start this command line in a shell and do not wait for it.
    Spawn { command: String },
    /// End the process with this status.
    Terminate { status: i32 },
}

/// What an [`Effect`] holds.
pub enum EffectView {
    Spawn { command: Seq<char> },
    Terminate { status: i32 },
}

impl View for Effect {
    type V = EffectView;

    open spec fn view(&self) -> EffectView {
        match self {
            Effect::Spawn { command } => EffectView::Spawn { command: command@ },
            Effect::Terminate { status } => EffectView::Terminate { status: *status },
        }
    }
}

/// The effect of an action, with the launcher at `source`.
pub open spec fn effect_of(action: ActionView, source: Seq<char>) -> EffectView {
    match action {
        ActionView::Launch { flag } => EffectView::Spawn { command: command_text(source, flag) },
        ActionView::Exit => EffectView::Terminate { status: EXIT_STATUS },
    }
}

/// Decides what activating an item with `action` does, with the launcher at
/// `source`: a launch spawns its command line, leaving ends the process with
/// success.
pub fn activate(action: &Action, source: &str) -> (effect: Effect)
    ensures
        effect@ == effect_of(action@, source@),
{
    match action {
        Action::Launch { flag } => Effect::Spawn { command: command_line(source, flag.as_str()) },
        Action::Exit => Effect::Terminate { status: EXIT_STATUS },
    }
}

} // verus!
