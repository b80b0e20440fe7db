//! The `screen` console command: list the screens, show the current one, or
//! switch to one by name.
use vstd::prelude::*;

use crate::registry::{extends, App, ConsoleCommand, Registration, Schedule, System};

verus! {

/// A parsed `screen` command: `screen [TARGET] [--list] [--show]`.
pub struct ScreenCmd {
    pub target: Option<String>,
    pub list: bool,
    pub show: bool,
}

/// What the screen manager answered for one command. `I` is its screen id.
pub struct ScreenLookups<I> {
    /// The names of the registered screens that have one, in registry order.
    pub names: Vec<String>,
    /// The current screen's name: `None` without a current screen, an error
    /// when its id is not registered.
    pub current: Option<Result<String, ()>>,
    /// The command's target looked up by name, when it has one: its id and
    /// name, or the error's text.
    pub target: Option<Result<(I, String), String>>,
}

/// One effect of a command, in order.
pub enum ScreenCmdOutput<I> {
    /// Print the screen names, one per line.
    List(Vec<String>),
    /// Print the current screen's name.
    Current(String),
    /// Ask for a switch to the screen, then print "Switching to" and its name.
    Switch(I, String),
    /// Print the lookup's error.
    Error(String),
}

/// The effects of one command. A current screen that is not registered ends
/// the command there, before its target is looked at.
pub open spec fn command_effects<I>(
    list: bool,
    show: bool,
    names: Vec<String>,
    current: Option<Result<String, ()>>,
    target: Option<Result<(I, String), String>>,
) -> Seq<ScreenCmdOutput<I>> {
    let listed = if list {
        seq![ScreenCmdOutput::List(names)]
    } else {
        Seq::empty()
    };
    if show && current matches Some(Err(_)) {
        listed
    } else {
        let shown = match current {
            Some(Ok(name)) => if show {
                seq![ScreenCmdOutput::Current(name)]
            } else {
                Seq::empty()
            },
            _ => Seq::empty(),
        };
        let switched = match target {
            Some(Ok((id, name))) => seq![ScreenCmdOutput::Switch(id, name)],
            Some(Err(e)) => seq![ScreenCmdOutput::Error(e)],
            None => Seq::empty(),
        };
        listed + shown + switched
    }
}

/// What a `screen` command prints and asks for, for every command and every
/// answer of the screen manager:
/// - `--list` prints the names first, and nothing else is a list;
/// - `--show` prints the current screen's name right after the list, whether
///   or not `--list` is given, and nothing else prints a current screen;
/// - a `--show` whose current screen is not registered ends the command after
///   the list;
/// - otherwise a target switches to the screen it names, or prints why it
///   names none, and that comes last; without a target nothing switches.
pub proof fn lemma_screen_command<I>(
    list: bool,
    show: bool,
    names: Vec<String>,
    current: Option<Result<String, ()>>,
    target: Option<Result<(I, String), String>>,
)
    ensures
        ({
            let e = command_effects(list, show, names, current, target);
            let head: int = if list { 1 } else { 0 };
            let broken = show && current matches Some(Err(_));
            &&& list ==> e.len() >= 1 && e[0] == ScreenCmdOutput::<I>::List(names)
            &&& forall|i: int| 0 <= i < e.len() && #[trigger] e[i] is List ==> list && i == 0
            &&& current matches Some(Ok(name)) ==> (show ==> e.len() > head && e[head]
                == ScreenCmdOutput::<I>::Current(name))
            &&& forall|i: int|
                0 <= i < e.len() && #[trigger] e[i] is Current ==> (show && i == head
                    && (current matches Some(Ok(name)) && e[i] == ScreenCmdOutput::<I>::Current(name)))
            &&& broken ==> e.len() == head
            &&& !broken ==> e.len() == head + (if show && current matches Some(Ok(_)) {
                1int
            } else {
                0int
            }) + (if target is Some {
                1int
            } else {
                0int
            })
            &&& !broken ==> (target matches Some(Ok((id, name))) ==> e.last()
                == ScreenCmdOutput::<I>::Switch(id, name))
            &&& !broken ==> (target matches Some(Err(message)) ==> e.last()
                == ScreenCmdOutput::<I>::Error(message))
            &&& forall|i: int|
                0 <= i < e.len() && (#[trigger] e[i] is Switch || e[i] is Error) ==> !broken
                    && target is Some && i == e.len() - 1
        }),
{
}

/// Runs one `screen` command against the screen manager's answers.
pub fn on_msg<I>(command: &ScreenCmd, lookups: ScreenLookups<I>) -> (outputs: Vec<ScreenCmdOutput<I>>)
    ensures
        outputs@ == command_effects(
            command.list,
            command.show,
            lookups.names,
            lookups.current,
            lookups.target,
        ),
{
    let ScreenLookups { names, current, target } = lookups;
    let ghost names_view = names;
    let ghost current_view = current;
    let ghost target_view = target;
    let mut outputs: Vec<ScreenCmdOutput<I>> = Vec::new();
    if command.list {
        outputs.push(ScreenCmdOutput::List(names));
    }
    if command.show {
        match current {
            Some(Ok(name)) => {
                outputs.push(ScreenCmdOutput::Current(name));
            },
            Some(Err(_)) => {
                assert(outputs@ =~= command_effects(
                    command.list,
                    command.show,
                    names_view,
                    current_view,
                    target_view,
                ));
                return outputs;
            },
            None => {},
        }
    }
    match target {
        Some(Ok((id, name))) => {
            outputs.push(ScreenCmdOutput::Switch(id, name));
        },
        Some(Err(e)) => {
            outputs.push(ScreenCmdOutput::Error(e));
        },
        None => {},
    }
    assert(outputs@ =~= command_effects(
        command.list,
        command.show,
        names_view,
        current_view,
        target_view,
    ));
    outputs
}

pub open spec fn registrations() -> Seq<Registration> {
    seq![
        Registration::System(Schedule::PreUpdate, System::ScreenCommand),
        Registration::ConsoleCommand(ConsoleCommand::Screen),
    ]
}

/// Handles `screen` commands, and registers the command with the console.
pub fn plugin(app: &mut App)
    ensures
        extends(*old(app), *final(app), registrations()),
{
    app.add(Registration::System(Schedule::PreUpdate, System::ScreenCommand));
    app.add(Registration::ConsoleCommand(ConsoleCommand::Screen));
}

} // verus!
