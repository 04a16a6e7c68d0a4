//! Typing text into the focused application.
//!
//! One insertion creates the injector, takes the process-wide input lock,
//! injects the text, gives the lock back and then waits for the receiving
//! application to consume the events. The host performs each of these;
//! `replace_input_with_text` decides what comes next. The lock keeps the
//! keystrokes of two insertions apart.

use vstd::prelude::*;

verus! {

/// How long an insertion waits after it gave the lock back, in milliseconds.
pub const SETTLE_MILLIS: u64 = 80;

/// Why an insertion failed.
#[derive(Clone, Copy, Debug, PartialEq, Eq, Structural)]
pub enum InsertFailure {
    /// The operating system gave no injector.
    InjectorUnavailable,
    /// The operating system rejected the injection.
    InjectionRejected,
    /// An event came that the step in progress does not end with.
    Unexpected,
}

/// How an insertion ended.
#[derive(Clone, Copy, Debug, PartialEq, Eq, Structural)]
pub enum InsertEnd {
    Inserted,
    Failed(InsertFailure),
}

/// Where an insertion stands.
#[derive(Clone, Copy, Debug, PartialEq, Eq, Structural)]
pub enum InsertState {
    Idle,
    /// The injector is being created.
    Connecting,
    /// The input lock was asked for.
    Locking,
    /// The lock is held and the text is being injected.
    Typing,
    /// The lock is being given back after the text was injected.
    Releasing,
    /// The lock is being given back after a failure.
    Abandoning { failure: InsertFailure },
    /// The lock is free again and the settle delay runs.
    Settling,
    Done,
}

/// What the host reports back.
#[derive(Clone, Copy, Debug, PartialEq, Eq, Structural)]
pub enum InsertEvent {
    /// An insertion was asked for.
    Requested,
    /// The step in progress succeeded.
    Succeeded,
    /// The step in progress failed.
    Failed,
}

/// What the host does next.
#[derive(Clone, Copy, Debug, PartialEq, Eq, Structural)]
pub enum InsertAction {
    CreateInjector,
    /// Take the input lock, waiting for it as long as it takes.
    AcquireLock,
    /// Inject the whole text.
    InjectText,
    ReleaseLock,
    /// Wait for this many milliseconds.
    Wait { millis: u64 },
    /// The insertion is over.
    Finish(InsertEnd),
    /// The insertion was over before: nothing is done.
    Nothing,
}

/// The next state and action of an insertion of a text that is or is not
/// empty.
pub open spec fn insert_step(state: InsertState, event: InsertEvent, text_is_empty: bool) -> (
    InsertState,
    InsertAction,
) {
    match (state, event) {
        (InsertState::Done, _) => (InsertState::Done, InsertAction::Nothing),
        (InsertState::Idle, InsertEvent::Requested) => if text_is_empty {
            (InsertState::Done, InsertAction::Finish(InsertEnd::Inserted))
        } else {
            (InsertState::Connecting, InsertAction::CreateInjector)
        },
        (InsertState::Connecting, InsertEvent::Succeeded) => (
            InsertState::Locking,
            InsertAction::AcquireLock,
        ),
        (InsertState::Connecting, InsertEvent::Failed) => (
            InsertState::Done,
            InsertAction::Finish(InsertEnd::Failed(InsertFailure::InjectorUnavailable)),
        ),
        (InsertState::Locking, InsertEvent::Succeeded) => (
            InsertState::Typing,
            InsertAction::InjectText,
        ),
        (InsertState::Locking, _) => abandoned(InsertFailure::Unexpected),
        (InsertState::Typing, InsertEvent::Succeeded) => (
            InsertState::Releasing,
            InsertAction::ReleaseLock,
        ),
        (InsertState::Typing, InsertEvent::Failed) => abandoned(InsertFailure::InjectionRejected),
        (InsertState::Typing, InsertEvent::Requested) => abandoned(InsertFailure::Unexpected),
        (InsertState::Releasing, _) => (
            InsertState::Settling,
            InsertAction::Wait { millis: SETTLE_MILLIS },
        ),
        (InsertState::Abandoning { failure }, _) => (
            InsertState::Done,
            InsertAction::Finish(InsertEnd::Failed(failure)),
        ),
        (InsertState::Settling, InsertEvent::Succeeded) => (
            InsertState::Done,
            InsertAction::Finish(InsertEnd::Inserted),
        ),
        _ => (InsertState::Done, InsertAction::Finish(InsertEnd::Failed(InsertFailure::Unexpected))),
    }
}

/// The lock is given back before the insertion ends on `failure`.
pub open spec fn abandoned(failure: InsertFailure) -> (InsertState, InsertAction) {
    (InsertState::Abandoning { failure }, InsertAction::ReleaseLock)
}

/// One step of an insertion of `text`: from where the insertion stands and
/// what the host reports, to where it stands next and what the host does
/// next. An empty text is inserted at once: nothing is created, locked or
/// waited for.
pub fn replace_input_with_text(state: InsertState, event: InsertEvent, text: &str) -> (res: (
    InsertState,
    InsertAction,
))
    ensures
        res == insert_step(state, event, text@.len() == 0),
        state is Idle && event is Requested && text@.len() == 0 ==> res == (
            InsertState::Done,
            InsertAction::Finish(InsertEnd::Inserted),
        ),
{
    match state {
        InsertState::Done => (InsertState::Done, InsertAction::Nothing),
        InsertState::Idle => match event {
            InsertEvent::Requested => {
                if text.is_empty() {
                    (InsertState::Done, InsertAction::Finish(InsertEnd::Inserted))
                } else {
                    (InsertState::Connecting, InsertAction::CreateInjector)
                }
            },
            _ => unexpected(),
        },
        InsertState::Connecting => match event {
            InsertEvent::Succeeded => (InsertState::Locking, InsertAction::AcquireLock),
            InsertEvent::Failed => (
                InsertState::Done,
                InsertAction::Finish(InsertEnd::Failed(InsertFailure::InjectorUnavailable)),
            ),
            _ => unexpected(),
        },
        InsertState::Locking => match event {
            InsertEvent::Succeeded => (InsertState::Typing, InsertAction::InjectText),
            _ => abandon(InsertFailure::Unexpected),
        },
        InsertState::Typing => match event {
            InsertEvent::Succeeded => (InsertState::Releasing, InsertAction::ReleaseLock),
            InsertEvent::Failed => abandon(InsertFailure::InjectionRejected),
            InsertEvent::Requested => abandon(InsertFailure::Unexpected),
        },
        InsertState::Releasing => (
            InsertState::Settling,
            InsertAction::Wait { millis: SETTLE_MILLIS },
        ),
        InsertState::Abandoning { failure } => (
            InsertState::Done,
            InsertAction::Finish(InsertEnd::Failed(failure)),
        ),
        InsertState::Settling => match event {
            InsertEvent::Succeeded => (
                InsertState::Done,
                InsertAction::Finish(InsertEnd::Inserted),
            ),
            _ => unexpected(),
        },
    }
}

fn abandon(failure: InsertFailure) -> (res: (InsertState, InsertAction))
    ensures
        res == abandoned(failure),
{
    (InsertState::Abandoning { failure }, InsertAction::ReleaseLock)
}

fn unexpected() -> (res: (InsertState, InsertAction))
    ensures
        res == (
            InsertState::Done,
            InsertAction::Finish(InsertEnd::Failed(InsertFailure::Unexpected)),
        ),
{
    (InsertState::Done, InsertAction::Finish(InsertEnd::Failed(InsertFailure::Unexpected)))
}

/// Where an insertion stands, and what the host was told to do, after the
/// events `events` from the start.
pub open spec fn insert_run(events: Seq<InsertEvent>, text_is_empty: bool) -> (
    InsertState,
    Seq<InsertAction>,
)
    decreases events.len(),
{
    if events.len() == 0 {
        (InsertState::Idle, Seq::empty())
    } else {
        let (state, actions) = insert_run(events.drop_last(), text_is_empty);
        let (next, action) = insert_step(state, events.last(), text_is_empty);
        (next, actions.push(action))
    }
}

/// Whether the host holds the input lock for this insertion, or waits for
/// it, after it did what `actions` say.
pub open spec fn lock_taken(actions: Seq<InsertAction>) -> bool
    decreases actions.len(),
{
    if actions.len() == 0 {
        false
    } else {
        match actions.last() {
            InsertAction::AcquireLock => true,
            InsertAction::ReleaseLock => false,
            _ => lock_taken(actions.drop_last()),
        }
    }
}

/// The lock is given back on every path: whatever the host reports, the text
/// is injected only under the lock, the insertion waits and ends only without
/// it, and the lock is taken exactly while the insertion is locking or typing.
pub proof fn lemma_lock_is_released(events: Seq<InsertEvent>, text_is_empty: bool)
    ensures
        ({
            let (state, actions) = insert_run(events, text_is_empty);
            &&& actions.len() == events.len()
            &&& lock_taken(actions) <==> state is Locking || state is Typing
            &&& forall|k: int|
                0 <= k < actions.len() ==> match #[trigger] actions[k] {
                    InsertAction::InjectText => lock_taken(actions.take(k)),
                    InsertAction::Wait { .. } => !lock_taken(actions.take(k + 1)),
                    InsertAction::Finish(_) => !lock_taken(actions.take(k + 1)),
                    _ => true,
                }
        }),
    decreases events.len(),
{
    if events.len() > 0 {
        lemma_lock_is_released(events.drop_last(), text_is_empty);
        let (before, earlier) = insert_run(events.drop_last(), text_is_empty);
        let (state, actions) = insert_run(events, text_is_empty);
        assert(actions.drop_last() =~= earlier);
        assert forall|k: int| 0 <= k < actions.len() implies match #[trigger] actions[k] {
            InsertAction::InjectText => lock_taken(actions.take(k)),
            InsertAction::Wait { .. } => !lock_taken(actions.take(k + 1)),
            InsertAction::Finish(_) => !lock_taken(actions.take(k + 1)),
            _ => true,
        } by {
            if k < earlier.len() {
                assert(actions[k] == earlier[k]);
                assert(actions.take(k) =~= earlier.take(k));
                assert(actions.take(k + 1) =~= earlier.take(k + 1));
            } else {
                assert(actions.take(k) =~= earlier);
                assert(actions.take(k + 1) =~= actions);
            }
        }
    }
}

/// An empty text is inserted without any delay: whatever the host reports,
/// an insertion of an empty text is over after the first event, and never
/// creates an injector, takes the lock, injects or waits.
pub proof fn lemma_empty_text_is_inserted_at_once(events: Seq<InsertEvent>)
    ensures
        ({
            let (state, actions) = insert_run(events, true);
            &&& actions.len() == events.len()
            &&& events.len() > 0 ==> state is Done
            &&& events.len() > 0 && events[0] is Requested ==> actions[0] == InsertAction::Finish(
                InsertEnd::Inserted,
            )
            &&& forall|k: int|
                0 <= k < actions.len() ==> (#[trigger] actions[k]) is Finish || actions[k] is Nothing
        }),
    decreases events.len(),
{
    if events.len() > 0 {
        let shorter = events.drop_last();
        lemma_empty_text_is_inserted_at_once(shorter);
        let (before, earlier) = insert_run(shorter, true);
        let (state, actions) = insert_run(events, true);
        assert forall|k: int| 0 <= k < actions.len() implies (#[trigger] actions[k]) is Finish
            || actions[k] is Nothing by {
            if k < earlier.len() {
                assert(actions[k] == earlier[k]);
            }
        }
        if shorter.len() > 0 {
            assert(actions[0] == earlier[0]);
            assert(shorter[0] == events[0]);
        }
    }
}

} // verus!
