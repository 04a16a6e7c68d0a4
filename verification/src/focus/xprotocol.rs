//! Focus restore by a request to the window manager.
//!
//! A client message asks the window manager to activate the window. It is
//! sent to the root window of the screen; whether the window manager honours
//! it is not known to the sender.

use crate::focus::{FocusEnd, FocusFailure};
use crate::text::{parse_u32, parse_unsigned_spec};
use vstd::prelude::*;

verus! {

/// The name of the atom that makes a client message an activation request.
pub const ACTIVATION_ATOM: &'static str = "_NET_ACTIVE_WINDOW";

/// The events that the root window's owner selects to get the request:
/// substructure notify and substructure redirect.
pub const ACTIVATION_EVENT_MASK: u32 = 0x0018_0000;

/// The source indication of a request that an application makes.
pub const SOURCE_APPLICATION: u32 = 1;

/// The timestamp that stands for the current time.
pub const CURRENT_TIME: u32 = 0;

/// The window that a window id denotes: a decimal number that fits in 32
/// bits.
pub open spec fn x_window(window_id: Seq<char>) -> Option<u32> {
    match parse_unsigned_spec(window_id, 10, 0xffff_ffff) {
        Some(value) => Some(value as u32),
        None => None,
    }
}

/// The five 32-bit words of the activation request for `window`.
pub open spec fn activation_words(window: u32) -> Seq<u32> {
    seq![SOURCE_APPLICATION, CURRENT_TIME, window, 0, 0]
}

/// The data of the client message that asks for the activation of `window`:
/// the source indication, the timestamp, the window, and two words unused.
pub fn activation_data(window: u32) -> (res: [u32; 5])
    ensures
        res@ == activation_words(window),
{
    let data: [u32; 5] = [SOURCE_APPLICATION, CURRENT_TIME, window, 0, 0];
    assert(data@ =~= activation_words(window));
    data
}

/// Where the restore stands.
#[derive(Clone, Copy, Debug, PartialEq, Eq, Structural)]
pub enum RequestState {
    Idle,
    Connecting { window: u32 },
    /// The root window of the connection's screen is looked up.
    FindingRoot { window: u32 },
    /// The atom of the activation message is asked for.
    Interning { window: u32 },
    /// The client message was handed to the connection.
    Sending,
    /// The connection is flushed.
    Flushing,
    Done,
}

/// What the host reports back.
#[derive(Clone, Copy, Debug, PartialEq, Eq, Structural)]
pub enum RequestEvent {
    /// A restore was asked for.
    Requested,
    /// The step in progress succeeded.
    Succeeded,
    /// The step in progress failed.
    Failed,
}

/// What the host does next.
#[derive(Clone, Copy, Debug, PartialEq, Eq, Structural)]
pub enum RequestAction {
    /// Connect to the display server.
    Connect,
    /// Find the root window of the screen that the connection named.
    FindRoot,
    /// Intern `ACTIVATION_ATOM`, creating it where it does not exist.
    InternAtom,
    /// Send the client message with `activation_data(window)` to the root
    /// window, not propagated, under `ACTIVATION_EVENT_MASK`.
    SendActivation { window: u32 },
    Flush,
    /// The restore is over.
    Finish(FocusEnd),
    /// The restore was over before: nothing is done.
    Nothing,
}

/// The restore ends on `end`.
pub open spec fn request_ended(end: FocusEnd) -> (RequestState, RequestAction) {
    (RequestState::Done, RequestAction::Finish(end))
}

/// The next state and action of a restore of the window with the id
/// `window_id`.
pub open spec fn request_step(state: RequestState, event: RequestEvent, window_id: Seq<char>) -> (
    RequestState,
    RequestAction,
) {
    match (state, event) {
        (RequestState::Done, _) => (RequestState::Done, RequestAction::Nothing),
        (RequestState::Idle, RequestEvent::Requested) => match x_window(window_id) {
            Some(window) => (RequestState::Connecting { window }, RequestAction::Connect),
            None => request_ended(FocusEnd::Failed(FocusFailure::InvalidWindowId)),
        },
        (RequestState::Connecting { window }, RequestEvent::Succeeded) => (
            RequestState::FindingRoot { window },
            RequestAction::FindRoot,
        ),
        (RequestState::Connecting { .. }, RequestEvent::Failed) => request_ended(
            FocusEnd::Failed(FocusFailure::ConnectionFailed),
        ),
        (RequestState::FindingRoot { window }, RequestEvent::Succeeded) => (
            RequestState::Interning { window },
            RequestAction::InternAtom,
        ),
        (RequestState::FindingRoot { .. }, RequestEvent::Failed) => request_ended(
            FocusEnd::Failed(FocusFailure::ScreenMissing),
        ),
        (RequestState::Interning { window }, RequestEvent::Succeeded) => (
            RequestState::Sending,
            RequestAction::SendActivation { window },
        ),
        (RequestState::Interning { .. }, RequestEvent::Failed) => request_ended(
            FocusEnd::Failed(FocusFailure::AtomUnavailable),
        ),
        (RequestState::Sending, _) => (RequestState::Flushing, RequestAction::Flush),
        (RequestState::Flushing, RequestEvent::Succeeded) => request_ended(FocusEnd::Focused),
        (RequestState::Flushing, RequestEvent::Failed) => request_ended(
            FocusEnd::Failed(FocusFailure::FlushFailed),
        ),
        _ => request_ended(FocusEnd::Failed(FocusFailure::Unexpected)),
    }
}

fn ended(end: FocusEnd) -> (res: (RequestState, RequestAction))
    ensures
        res == request_ended(end),
{
    (RequestState::Done, RequestAction::Finish(end))
}

/// One step of the restore of the window with the id `window_id` by a
/// request to the window manager: from where the restore stands and what the
/// host reports, to where it stands next and what the host does next.
pub fn focus_window(state: RequestState, event: RequestEvent, window_id: &str) -> (res: (
    RequestState,
    RequestAction,
))
    ensures
        res == request_step(state, event, window_id@),
{
    match state {
        RequestState::Done => (RequestState::Done, RequestAction::Nothing),
        RequestState::Idle => match event {
            RequestEvent::Requested => match parse_u32(window_id) {
                Some(window) => (RequestState::Connecting { window }, RequestAction::Connect),
                None => ended(FocusEnd::Failed(FocusFailure::InvalidWindowId)),
            },
            _ => ended(FocusEnd::Failed(FocusFailure::Unexpected)),
        },
        RequestState::Connecting { window } => match event {
            RequestEvent::Succeeded => (RequestState::FindingRoot { window }, RequestAction::FindRoot),
            RequestEvent::Failed => ended(FocusEnd::Failed(FocusFailure::ConnectionFailed)),
            _ => ended(FocusEnd::Failed(FocusFailure::Unexpected)),
        },
        RequestState::FindingRoot { window } => match event {
            RequestEvent::Succeeded => (
                RequestState::Interning { window },
                RequestAction::InternAtom,
            ),
            RequestEvent::Failed => ended(FocusEnd::Failed(FocusFailure::ScreenMissing)),
            _ => ended(FocusEnd::Failed(FocusFailure::Unexpected)),
        },
        RequestState::Interning { window } => match event {
            RequestEvent::Succeeded => (
                RequestState::Sending,
                RequestAction::SendActivation { window },
            ),
            RequestEvent::Failed => ended(FocusEnd::Failed(FocusFailure::AtomUnavailable)),
            _ => ended(FocusEnd::Failed(FocusFailure::Unexpected)),
        },
        RequestState::Sending => (RequestState::Flushing, RequestAction::Flush),
        RequestState::Flushing => match event {
            RequestEvent::Succeeded => ended(FocusEnd::Focused),
            RequestEvent::Failed => ended(FocusEnd::Failed(FocusFailure::FlushFailed)),
            _ => ended(FocusEnd::Failed(FocusFailure::Unexpected)),
        },
    }
}

/// Where a restore stands, and what the host was told to do, after the
/// events `events` from the start.
pub open spec fn request_run(events: Seq<RequestEvent>, window_id: Seq<char>) -> (
    RequestState,
    Seq<RequestAction>,
)
    decreases events.len(),
{
    if events.len() == 0 {
        (RequestState::Idle, Seq::empty())
    } else {
        let (state, actions) = request_run(events.drop_last(), window_id);
        let (next, action) = request_step(state, events.last(), window_id);
        (next, actions.push(action))
    }
}

/// The window that a state carries is the window of the id.
pub open spec fn carries_window(state: RequestState, window_id: Seq<char>) -> bool {
    match state {
        RequestState::Connecting { window } => x_window(window_id) == Some(window),
        RequestState::FindingRoot { window } => x_window(window_id) == Some(window),
        RequestState::Interning { window } => x_window(window_id) == Some(window),
        _ => true,
    }
}

/// What the state says of the events and actions so far.
pub open spec fn request_in_order(
    state: RequestState,
    events: Seq<RequestEvent>,
    actions: Seq<RequestAction>,
    window_id: Seq<char>,
) -> bool {
    &&& carries_window(state, window_id)
    &&& state is Idle <==> events.len() == 0
    &&& state is Connecting ==> events.len() == 1
    &&& state is FindingRoot ==> events.len() == 2 && events[1] is Succeeded
    &&& state is Interning ==> events.len() == 3 && events[1] is Succeeded && events[2] is Succeeded
    &&& state is Sending ==> events.len() == 4 && actions[3] is SendActivation
    &&& state is Flushing ==> events.len() == 5 && actions[3] is SendActivation
}

/// The request names the window of the id and is sent on a connection that
/// stands: whatever the host reports, the activation is sent only for the
/// window that the id denotes, as the fourth step, after the connection, the
/// root window and the atom were obtained; and the restore ends with success
/// only after the activation was sent and the flush succeeded.
pub proof fn lemma_request_names_the_window(events: Seq<RequestEvent>, window_id: Seq<char>)
    ensures
        ({
            let (state, actions) = request_run(events, window_id);
            &&& actions.len() == events.len()
            &&& request_in_order(state, events, actions, window_id)
            &&& forall|k: int|
                0 <= k < actions.len() ==> match #[trigger] actions[k] {
                    RequestAction::SendActivation { window } => {
                        &&& k == 3
                        &&& x_window(window_id) == Some(window)
                        &&& events[1] is Succeeded
                        &&& events[2] is Succeeded
                        &&& events[3] is Succeeded
                    },
                    RequestAction::Finish(FocusEnd::Focused) => k == 5 && events[5] is Succeeded
                        && actions[3] is SendActivation,
                    _ => true,
                }
        }),
    decreases events.len(),
{
    if events.len() > 0 {
        let shorter = events.drop_last();
        lemma_request_names_the_window(shorter, window_id);
        let (before, earlier) = request_run(shorter, window_id);
        let (state, actions) = request_run(events, window_id);
        assert(events.last() == events[events.len() - 1]);
        assert(forall|j: int| 0 <= j < shorter.len() ==> shorter[j] == events[j]);
        assert(forall|j: int| 0 <= j < earlier.len() ==> earlier[j] == actions[j]);
        assert(request_in_order(before, shorter, earlier, window_id));
        assert forall|k: int| 0 <= k < actions.len() implies match #[trigger] actions[k] {
            RequestAction::SendActivation { window } => {
                &&& k == 3
                &&& x_window(window_id) == Some(window)
                &&& events[1] is Succeeded
                &&& events[2] is Succeeded
                &&& events[3] is Succeeded
            },
            RequestAction::Finish(FocusEnd::Focused) => k == 5 && events[5] is Succeeded
                && actions[3] is SendActivation,
            _ => true,
        } by {
            if k < earlier.len() {
                assert(actions[k] == earlier[k]);
                if earlier.len() > 3 {
                    assert(actions[3] == earlier[3]);
                }
            }
        }
    }
}

} // verus!
