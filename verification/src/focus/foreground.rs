//! Focus restore past the foreground lock.
//!
//! A minimized window is restored first. Then the calling thread's input
//! queue is attached to those of the foreground thread and of the window's
//! thread, the window is raised and asked into the foreground, and both
//! attachments are undone, whatever the request came to.

use crate::focus::{FocusEnd, FocusFailure};
use crate::text::{
    occurs_at, parse_unsigned, parse_unsigned_spec, strip_leading, strip_leading_bound, to_chars,
    trim_bounds, trimmed, matches_at,
};
use vstd::prelude::*;

verus! {

/// What a window id begins with.
pub open spec fn hwnd_opening() -> Seq<char> {
    seq!['H', 'W', 'N', 'D', '(']
}

/// The digits of a window id of the form `HWND(..)`: what stands between the
/// brackets of the trimmed id, without any `0x` in front.
pub open spec fn hwnd_digits(window_id: Seq<char>) -> Option<Seq<char>> {
    let id = trimmed(window_id);
    if occurs_at(id, hwnd_opening(), 0) && id.len() >= 6 && id.last() == ')' {
        Some(strip_leading(id.subrange(5, id.len() - 1), seq!['0', 'x']))
    } else {
        None
    }
}

/// The window handle that a window id denotes: the digits are read as a
/// hexadecimal number that fits in a machine word.
pub open spec fn hwnd_value(window_id: Seq<char>) -> Result<nat, FocusFailure> {
    match hwnd_digits(window_id) {
        None => Err(FocusFailure::InvalidWindowIdFormat),
        Some(digits) => match parse_unsigned_spec(digits, 16, usize::MAX as nat) {
            Some(value) => Ok(value),
            None => Err(FocusFailure::UnparsableWindowId),
        },
    }
}

/// Reads the window handle out of a window id such as `HWND(0x1a2b)`.
pub fn parse_hwnd(window_id: &str) -> (res: Result<usize, FocusFailure>)
    ensures
        match hwnd_value(window_id@) {
            Ok(value) => res == Ok::<usize, FocusFailure>(value as usize),
            Err(failure) => res == Err::<usize, FocusFailure>(failure),
        },
{
    let chars = to_chars(window_id);
    let (a, b) = trim_bounds(&chars);
    let ghost id = chars@.subrange(a as int, b as int);
    let opening: Vec<char> = vec!['H', 'W', 'N', 'D', '('];
    assert(opening@ =~= hwnd_opening());
    if b - a < 6 || !matches_at(&chars, &opening, a) || chars[b - 1] != ')' {
        proof {
            if b - a >= 6 {
                assert(id.subrange(0, 5) =~= chars@.subrange(a as int, a + 5));
                assert(chars@.subrange(a as int, a + 5).len() == 5);
            }
        }
        return Err(FocusFailure::InvalidWindowIdFormat);
    }
    assert(id.subrange(0, 5) =~= chars@.subrange(a as int, a + 5));
    assert(id.subrange(5, id.len() - 1) =~= chars@.subrange(a + 5, b - 1));
    let marker: Vec<char> = vec!['0', 'x'];
    assert(marker@ =~= seq!['0', 'x']);
    let start = strip_leading_bound(&chars, a + 5, b - 1, &marker);
    match parse_unsigned(&chars, start, b - 1, 16, usize::MAX as u64) {
        Some(value) => Ok(value as usize),
        None => Err(FocusFailure::UnparsableWindowId),
    }
}

/// Where the restore stands.
#[derive(Clone, Copy, Debug, PartialEq, Eq, Structural)]
pub enum ForegroundState {
    Idle,
    /// The window is asked whether it is minimized.
    Probing { window: usize },
    /// The minimized window is being restored.
    Restoring { window: usize },
    /// The threads of the window and of the foreground are looked up.
    Resolving { window: usize },
    /// The input queues are being attached.
    Attaching { window: usize, foreground_thread: u32, target_thread: u32 },
    /// The window is raised and asked into the foreground.
    Requesting { foreground_thread: u32, target_thread: u32 },
    /// The input queues are being detached, after a request that was
    /// accepted or not.
    Detaching { accepted: bool },
    Done,
}

/// What the host reports back.
#[derive(Clone, Copy, Debug, PartialEq, Eq, Structural)]
pub enum ForegroundEvent {
    /// A restore was asked for.
    Requested,
    /// Whether the window is minimized.
    Minimized(bool),
    /// The threads that own the window and the foreground window; zero
    /// where there is none.
    Threads { target_thread: u32, foreground_thread: u32 },
    /// Whether the operating system accepted the foreground request.
    Foreground { accepted: bool },
    /// The step in progress is over.
    Completed,
}

/// What the host does next.
#[derive(Clone, Copy, Debug, PartialEq, Eq, Structural)]
pub enum ForegroundAction {
    QueryMinimized { window: usize },
    RestoreWindow { window: usize },
    /// Look up the thread of the window and the thread of the foreground
    /// window.
    ResolveThreads { window: usize },
    /// Attach the calling thread's input queue to those of both threads.
    AttachInput { foreground_thread: u32, target_thread: u32 },
    /// Bring the window to the top and ask for the foreground.
    RaiseAndRequestForeground { window: usize },
    /// Detach the calling thread's input queue from those of both threads.
    DetachInput { foreground_thread: u32, target_thread: u32 },
    /// The restore is over.
    Finish(FocusEnd),
    /// The restore was over before: nothing is done.
    Nothing,
}

/// The restore ends on `end`.
pub open spec fn foreground_ended(end: FocusEnd) -> (ForegroundState, ForegroundAction) {
    (ForegroundState::Done, ForegroundAction::Finish(end))
}

/// The next state and action of a restore of the window with the id
/// `window_id`.
pub open spec fn foreground_step(
    state: ForegroundState,
    event: ForegroundEvent,
    window_id: Seq<char>,
) -> (ForegroundState, ForegroundAction) {
    match (state, event) {
        (ForegroundState::Done, _) => (ForegroundState::Done, ForegroundAction::Nothing),
        (ForegroundState::Idle, ForegroundEvent::Requested) => match hwnd_value(window_id) {
            Ok(value) => (
                ForegroundState::Probing { window: value as usize },
                ForegroundAction::QueryMinimized { window: value as usize },
            ),
            Err(failure) => foreground_ended(FocusEnd::Failed(failure)),
        },
        (ForegroundState::Probing { window }, ForegroundEvent::Minimized(minimized)) => {
            if minimized {
                (ForegroundState::Restoring { window }, ForegroundAction::RestoreWindow { window })
            } else {
                (ForegroundState::Resolving { window }, ForegroundAction::ResolveThreads { window })
            }
        },
        (ForegroundState::Restoring { window }, _) => (
            ForegroundState::Resolving { window },
            ForegroundAction::ResolveThreads { window },
        ),
        (
            ForegroundState::Resolving { window },
            ForegroundEvent::Threads { target_thread, foreground_thread },
        ) => if target_thread == 0 {
            foreground_ended(FocusEnd::Failed(FocusFailure::TargetThreadUnresolved))
        } else {
            (
                ForegroundState::Attaching { window, foreground_thread, target_thread },
                ForegroundAction::AttachInput { foreground_thread, target_thread },
            )
        },
        (ForegroundState::Attaching { window, foreground_thread, target_thread }, _) => (
            ForegroundState::Requesting { foreground_thread, target_thread },
            ForegroundAction::RaiseAndRequestForeground { window },
        ),
        (ForegroundState::Requesting { foreground_thread, target_thread }, event) => (
            ForegroundState::Detaching { accepted: event == (ForegroundEvent::Foreground { accepted: true }) },
            ForegroundAction::DetachInput { foreground_thread, target_thread },
        ),
        (ForegroundState::Detaching { accepted }, _) => if accepted {
            foreground_ended(FocusEnd::Focused)
        } else {
            foreground_ended(FocusEnd::Failed(FocusFailure::ForegroundRejected))
        },
        _ => foreground_ended(FocusEnd::Failed(FocusFailure::Unexpected)),
    }
}

fn ended(end: FocusEnd) -> (res: (ForegroundState, ForegroundAction))
    ensures
        res == foreground_ended(end),
{
    (ForegroundState::Done, ForegroundAction::Finish(end))
}

/// One step of the restore of the window with the id `window_id` past the
/// foreground lock: from where the restore stands and what the host
/// reports, to where it stands next and what the host does next.
pub fn focus_window(state: ForegroundState, event: ForegroundEvent, window_id: &str) -> (res: (
    ForegroundState,
    ForegroundAction,
))
    ensures
        res == foreground_step(state, event, window_id@),
{
    match state {
        ForegroundState::Done => (ForegroundState::Done, ForegroundAction::Nothing),
        ForegroundState::Idle => match event {
            ForegroundEvent::Requested => match parse_hwnd(window_id) {
                Ok(window) => (
                    ForegroundState::Probing { window },
                    ForegroundAction::QueryMinimized { window },
                ),
                Err(failure) => ended(FocusEnd::Failed(failure)),
            },
            _ => ended(FocusEnd::Failed(FocusFailure::Unexpected)),
        },
        ForegroundState::Probing { window } => match event {
            ForegroundEvent::Minimized(minimized) => {
                if minimized {
                    (
                        ForegroundState::Restoring { window },
                        ForegroundAction::RestoreWindow { window },
                    )
                } else {
                    (
                        ForegroundState::Resolving { window },
                        ForegroundAction::ResolveThreads { window },
                    )
                }
            },
            _ => ended(FocusEnd::Failed(FocusFailure::Unexpected)),
        },
        ForegroundState::Restoring { window } => (
            ForegroundState::Resolving { window },
            ForegroundAction::ResolveThreads { window },
        ),
        ForegroundState::Resolving { window } => match event {
            ForegroundEvent::Threads { target_thread, foreground_thread } => {
                if target_thread == 0 {
                    ended(FocusEnd::Failed(FocusFailure::TargetThreadUnresolved))
                } else {
                    (
                        ForegroundState::Attaching { window, foreground_thread, target_thread },
                        ForegroundAction::AttachInput { foreground_thread, target_thread },
                    )
                }
            },
            _ => ended(FocusEnd::Failed(FocusFailure::Unexpected)),
        },
        ForegroundState::Attaching { window, foreground_thread, target_thread } => (
            ForegroundState::Requesting { foreground_thread, target_thread },
            ForegroundAction::RaiseAndRequestForeground { window },
        ),
        ForegroundState::Requesting { foreground_thread, target_thread } => {
            let accepted = match event {
                ForegroundEvent::Foreground { accepted } => accepted,
                _ => false,
            };
            (
                ForegroundState::Detaching { accepted },
                ForegroundAction::DetachInput { foreground_thread, target_thread },
            )
        },
        ForegroundState::Detaching { accepted } => {
            if accepted {
                ended(FocusEnd::Focused)
            } else {
                ended(FocusEnd::Failed(FocusFailure::ForegroundRejected))
            }
        },
    }
}

/// Where a restore stands, and what the host was told to do, after the
/// events `events` from the start.
pub open spec fn foreground_run(events: Seq<ForegroundEvent>, window_id: Seq<char>) -> (
    ForegroundState,
    Seq<ForegroundAction>,
)
    decreases events.len(),
{
    if events.len() == 0 {
        (ForegroundState::Idle, Seq::empty())
    } else {
        let (state, actions) = foreground_run(events.drop_last(), window_id);
        let (next, action) = foreground_step(state, events.last(), window_id);
        (next, actions.push(action))
    }
}

/// Whether the input queues are attached after the host did what `actions`
/// say.
pub open spec fn input_attached(actions: Seq<ForegroundAction>) -> bool
    decreases actions.len(),
{
    if actions.len() == 0 {
        false
    } else {
        match actions.last() {
            ForegroundAction::AttachInput { .. } => true,
            ForegroundAction::DetachInput { .. } => false,
            _ => input_attached(actions.drop_last()),
        }
    }
}

/// The input queues are always detached again: whatever the host reports,
/// the foreground is asked for only while they are attached, they are
/// attached exactly while the restore attaches or requests, and the restore
/// ends with success only after a foreground request that was accepted.
pub proof fn lemma_input_is_detached(events: Seq<ForegroundEvent>, window_id: Seq<char>)
    ensures
        ({
            let (state, actions) = foreground_run(events, window_id);
            &&& actions.len() == events.len()
            &&& input_attached(actions) <==> state is Attaching || state is Requesting
            &&& forall|k: int|
                0 <= k < actions.len() ==> match #[trigger] actions[k] {
                    ForegroundAction::RaiseAndRequestForeground { .. } => input_attached(
                        actions.take(k),
                    ),
                    ForegroundAction::Finish(end) => {
                        &&& !input_attached(actions.take(k + 1))
                        &&& end is Focused ==> k >= 2 && events[k - 1] == (
                            ForegroundEvent::Foreground { accepted: true })
                    },
                    _ => true,
                }
        }),
    decreases events.len(),
{
    if events.len() > 0 {
        let shorter = events.drop_last();
        lemma_input_is_detached(shorter, window_id);
        let (before, earlier) = foreground_run(shorter, window_id);
        let (state, actions) = foreground_run(events, window_id);
        assert(actions.drop_last() =~= earlier);
        assert forall|k: int| 0 <= k < actions.len() implies match #[trigger] actions[k] {
            ForegroundAction::RaiseAndRequestForeground { .. } => input_attached(actions.take(k)),
            ForegroundAction::Finish(end) => {
                &&& !input_attached(actions.take(k + 1))
                &&& end is Focused ==> k >= 2 && events[k - 1] == (ForegroundEvent::Foreground {
                    accepted: true,
                })
            },
            _ => true,
        } by {
            if k < earlier.len() {
                assert(actions[k] == earlier[k]);
                assert(actions.take(k) =~= earlier.take(k));
                assert(actions.take(k + 1) =~= earlier.take(k + 1));
                if k >= 1 {
                    assert(shorter[k - 1] == events[k - 1]);
                }
            } else {
                assert(actions.take(k) =~= earlier);
                assert(actions.take(k + 1) =~= actions);
                if before is Detaching {
                    lemma_detaching_follows_request(shorter, window_id);
                }
            }
        }
    }
}

/// A restore that detaches after an accepted request was told of the
/// acceptance by the last event.
proof fn lemma_detaching_follows_request(events: Seq<ForegroundEvent>, window_id: Seq<char>)
    requires
        foreground_run(events, window_id).0 is Detaching,
    ensures
        events.len() >= 2,
        foreground_run(events, window_id).0 == (ForegroundState::Detaching { accepted: true })
            ==> events.last() == (ForegroundEvent::Foreground { accepted: true }),
{
    assert(events.len() > 0);
    let shorter = events.drop_last();
    assert(foreground_run(shorter, window_id).0 is Requesting);
    assert(shorter.len() > 0);
}

} // verus!
