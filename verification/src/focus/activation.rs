//! Focus restore by activating the application that owns the window.
//!
//! The application is looked up by its process id and asked to come to the
//! front, whatever other applications claim. Where that does not work, it is
//! addressed by name with an activation script.

use crate::focus::{FocusEnd, FocusFailure};
use crate::text::{replace, replaced};
use crate::window::WindowHandle;
use vstd::prelude::*;
use vstd::string::StringExecFns;

verus! {

/// The text of `activation_script`: the directive that tells the application
/// to activate, with every double quote in its name behind a backslash.
pub open spec fn activation_script_text(app_name: Seq<char>) -> Seq<char> {
    "tell application \""@ + replaced(app_name, seq!['"'], seq!['\\', '"']) + "\" to activate"@
}

/// The script that activates the application of the given name.
pub fn activation_script(app_name: &str) -> (res: String)
    ensures
        res@ == activation_script_text(app_name@),
{
    proof {
        reveal_strlit("\"");
        reveal_strlit("\\\"");
        assert("\""@ =~= seq!['"']);
        assert("\\\""@ =~= seq!['\\', '"']);
    }
    let escaped = replace(app_name, "\"", "\\\"");
    let mut out = String::from_str("tell application \"");
    out.append(escaped.as_str());
    out.append("\" to activate");
    out
}

/// Where the restore stands.
#[derive(Clone, Copy, Debug, PartialEq, Eq, Structural)]
pub enum ActivationState {
    Idle,
    /// The application was asked to activate.
    Activating,
    /// The activation script runs.
    Scripting,
    Done,
}

/// What the host reports back.
#[derive(Clone, Copy, Debug, PartialEq, Eq, Structural)]
pub enum ActivationEvent {
    /// A restore was asked for.
    Requested,
    /// Whether the application was found and took the activation.
    Activated(bool),
    /// The script ran, and ended with or without success.
    ScriptExited { success: bool },
    /// The script could not be started.
    ScriptNotRun,
}

/// What the host does next.
#[derive(Clone, Copy, Debug, PartialEq, Eq, Structural)]
pub enum ActivationAction {
    /// Look the running application up by process id and ask it to
    /// activate, ignoring other applications.
    ActivateApplication { process_id: u64 },
    /// Run `activation_script` of the window's application name.
    RunActivationScript,
    /// The restore is over.
    Finish(FocusEnd),
    /// The restore was over before: nothing is done.
    Nothing,
}

/// The restore ends on `end`.
pub open spec fn activation_ended(end: FocusEnd) -> (ActivationState, ActivationAction) {
    (ActivationState::Done, ActivationAction::Finish(end))
}

/// The next state and action of a restore of the window of process
/// `process_id`, whose application has a name or not.
pub open spec fn activation_step(
    state: ActivationState,
    event: ActivationEvent,
    process_id: u64,
    has_name: bool,
) -> (ActivationState, ActivationAction) {
    match (state, event) {
        (ActivationState::Done, _) => (ActivationState::Done, ActivationAction::Nothing),
        (ActivationState::Idle, ActivationEvent::Requested) => (
            ActivationState::Activating,
            ActivationAction::ActivateApplication { process_id },
        ),
        (ActivationState::Activating, ActivationEvent::Activated(taken)) => if taken {
            activation_ended(FocusEnd::Focused)
        } else if has_name {
            (ActivationState::Scripting, ActivationAction::RunActivationScript)
        } else {
            activation_ended(FocusEnd::Failed(FocusFailure::EmptyAppName))
        },
        (ActivationState::Scripting, ActivationEvent::ScriptExited { success }) => if success {
            activation_ended(FocusEnd::Focused)
        } else {
            activation_ended(FocusEnd::Failed(FocusFailure::ActivationRefused))
        },
        (ActivationState::Scripting, ActivationEvent::ScriptNotRun) => activation_ended(
            FocusEnd::Failed(FocusFailure::ScriptNotRun),
        ),
        _ => activation_ended(FocusEnd::Failed(FocusFailure::Unexpected)),
    }
}

fn ended(end: FocusEnd) -> (res: (ActivationState, ActivationAction))
    ensures
        res == activation_ended(end),
{
    (ActivationState::Done, ActivationAction::Finish(end))
}

/// One step of the restore of `window` by activation: from where the restore
/// stands and what the host reports, to where it stands next and what the
/// host does next.
pub fn focus_window(state: ActivationState, event: ActivationEvent, window: &WindowHandle) -> (res: (
    ActivationState,
    ActivationAction,
))
    ensures
        res == activation_step(state, event, window.process_id, window.app_name@.len() > 0),
{
    match state {
        ActivationState::Done => (ActivationState::Done, ActivationAction::Nothing),
        ActivationState::Idle => match event {
            ActivationEvent::Requested => (
                ActivationState::Activating,
                ActivationAction::ActivateApplication { process_id: window.process_id },
            ),
            _ => ended(FocusEnd::Failed(FocusFailure::Unexpected)),
        },
        ActivationState::Activating => match event {
            ActivationEvent::Activated(taken) => {
                if taken {
                    ended(FocusEnd::Focused)
                } else if window.app_name.as_str().is_empty() {
                    ended(FocusEnd::Failed(FocusFailure::EmptyAppName))
                } else {
                    (ActivationState::Scripting, ActivationAction::RunActivationScript)
                }
            },
            _ => ended(FocusEnd::Failed(FocusFailure::Unexpected)),
        },
        ActivationState::Scripting => match event {
            ActivationEvent::ScriptExited { success } => {
                if success {
                    ended(FocusEnd::Focused)
                } else {
                    ended(FocusEnd::Failed(FocusFailure::ActivationRefused))
                }
            },
            ActivationEvent::ScriptNotRun => ended(FocusEnd::Failed(FocusFailure::ScriptNotRun)),
            _ => ended(FocusEnd::Failed(FocusFailure::Unexpected)),
        },
    }
}

/// Where a restore stands, and what the host was told to do, after the
/// events `events` from the start.
pub open spec fn activation_run(events: Seq<ActivationEvent>, process_id: u64, has_name: bool) -> (
    ActivationState,
    Seq<ActivationAction>,
)
    decreases events.len(),
{
    if events.len() == 0 {
        (ActivationState::Idle, Seq::empty())
    } else {
        let (state, actions) = activation_run(events.drop_last(), process_id, has_name);
        let (next, action) = activation_step(state, events.last(), process_id, has_name);
        (next, actions.push(action))
    }
}

/// The script is the second try, and success is what the host saw:
/// whatever the host reports, the script is run only for an application
/// with a name that did not take the activation, and the restore ends with
/// success only where the application took the activation or the script
/// ended with success.
pub proof fn lemma_script_is_the_second_try(
    events: Seq<ActivationEvent>,
    process_id: u64,
    has_name: bool,
)
    ensures
        ({
            let (state, actions) = activation_run(events, process_id, has_name);
            &&& actions.len() == events.len()
            &&& state is Idle <==> events.len() == 0
            &&& state is Activating ==> events.len() == 1
            &&& state is Scripting ==> events.len() == 2
            &&& forall|k: int|
                0 <= k < actions.len() ==> match #[trigger] actions[k] {
                    ActivationAction::ActivateApplication { process_id: asked } => k == 0 && asked
                        == process_id,
                    ActivationAction::RunActivationScript => has_name && k == 1 && events[k]
                        == ActivationEvent::Activated(false),
                    ActivationAction::Finish(FocusEnd::Focused) => {
                        ||| k == 1 && events[k] == ActivationEvent::Activated(true)
                        ||| k == 2 && events[k] == (ActivationEvent::ScriptExited { success: true })
                    },
                    _ => true,
                }
        }),
    decreases events.len(),
{
    if events.len() > 0 {
        let shorter = events.drop_last();
        lemma_script_is_the_second_try(shorter, process_id, has_name);
        let (before, earlier) = activation_run(shorter, process_id, has_name);
        let (state, actions) = activation_run(events, process_id, has_name);
        assert(events.last() == events[events.len() - 1]);
        assert forall|k: int| 0 <= k < actions.len() implies match #[trigger] actions[k] {
            ActivationAction::ActivateApplication { process_id: asked } => k == 0 && asked
                == process_id,
            ActivationAction::RunActivationScript => has_name && k == 1 && events[k]
                == ActivationEvent::Activated(false),
            ActivationAction::Finish(FocusEnd::Focused) => {
                ||| k == 1 && events[k] == ActivationEvent::Activated(true)
                ||| k == 2 && events[k] == (ActivationEvent::ScriptExited { success: true })
            },
            _ => true,
        } by {
            if k < earlier.len() {
                assert(actions[k] == earlier[k]);
                assert(shorter[k] == events[k]);
            }
        }
    }
}

} // verus!
