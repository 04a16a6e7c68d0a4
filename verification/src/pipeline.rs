//! The two flows as a whole: typing a translation into the window that had
//! focus, and the stages from a capture to an insertion.

use crate::input::{
    insert_step, replace_input_with_text, InsertAction, InsertEnd, InsertEvent, InsertState,
};
use vstd::prelude::*;

verus! {

/// How long the flow waits for the focus to move, in milliseconds.
pub const FOCUS_MILLIS: u64 = 200;

/// Where the insertion of a translation stands.
#[derive(Clone, Copy, Debug, PartialEq, Eq, Structural)]
pub enum FlowState {
    Idle,
    /// The remembered window is being brought to the foreground.
    Focusing,
    /// The focus delay runs.
    Pausing,
    /// The text is being typed.
    Inserting(InsertState),
    Done,
}

/// What the host reports back.
#[derive(Clone, Copy, Debug, PartialEq, Eq, Structural)]
pub enum FlowEvent {
    /// The insertion of a translation was asked for.
    Requested,
    /// The focus restore is over; `restored` says whether the window came to
    /// the foreground.
    FocusEnded { restored: bool },
    /// The delay is over.
    Elapsed,
    /// What the host reports of the typing.
    Input(InsertEvent),
}

/// What the host does next.
#[derive(Clone, Copy, Debug, PartialEq, Eq, Structural)]
pub enum FlowAction {
    /// Bring the remembered window to the foreground, and log a failure.
    RestoreFocus,
    /// Wait for this many milliseconds.
    Wait { millis: u64 },
    /// Do this for the typing.
    Input(InsertAction),
    /// The flow is over.
    Finish(InsertEnd),
    /// Nothing is done.
    Nothing,
}

/// A step of the typing as a step of the flow: the end of the typing is the
/// end of the flow.
pub open spec fn typing(step: (InsertState, InsertAction)) -> (FlowState, FlowAction) {
    match step.1 {
        InsertAction::Finish(end) => (FlowState::Done, FlowAction::Finish(end)),
        action => (FlowState::Inserting(step.0), FlowAction::Input(action)),
    }
}

/// The next state and action of the insertion of a translation that is or
/// is not empty. The outcome of the focus restore changes nothing. An event
/// that the step in progress does not end with is passed over, until the
/// typing has begun.
pub open spec fn flow_step(state: FlowState, event: FlowEvent, text_is_empty: bool) -> (
    FlowState,
    FlowAction,
) {
    match (state, event) {
        (FlowState::Idle, FlowEvent::Requested) => (FlowState::Focusing, FlowAction::RestoreFocus),
        (FlowState::Focusing, FlowEvent::FocusEnded { .. }) => (
            FlowState::Pausing,
            FlowAction::Wait { millis: FOCUS_MILLIS },
        ),
        (FlowState::Pausing, FlowEvent::Elapsed) => typing(
            insert_step(InsertState::Idle, InsertEvent::Requested, text_is_empty),
        ),
        (FlowState::Inserting(inner), FlowEvent::Input(reported)) => typing(
            insert_step(inner, reported, text_is_empty),
        ),
        (FlowState::Inserting(inner), _) => typing(
            insert_step(inner, InsertEvent::Failed, text_is_empty),
        ),
        (state, _) => (state, FlowAction::Nothing),
    }
}

fn lift(step: (InsertState, InsertAction)) -> (res: (FlowState, FlowAction))
    ensures
        res == typing(step),
{
    match step.1 {
        InsertAction::Finish(end) => (FlowState::Done, FlowAction::Finish(end)),
        action => (FlowState::Inserting(step.0), FlowAction::Input(action)),
    }
}

/// One step of the insertion of the translation `text` into the window that
/// had focus: from where the flow stands and what the host reports, to where
/// it stands next and what the host does next. The flow restores the focus,
/// waits, and types; it fails only where the typing fails.
pub fn insert_translation_into_previous_input(state: FlowState, event: FlowEvent, text: &str) -> (res:
    (FlowState, FlowAction))
    ensures
        res == flow_step(state, event, text@.len() == 0),
{
    match state {
        FlowState::Idle => match event {
            FlowEvent::Requested => (FlowState::Focusing, FlowAction::RestoreFocus),
            _ => (state, FlowAction::Nothing),
        },
        FlowState::Focusing => match event {
            FlowEvent::FocusEnded { .. } => (
                FlowState::Pausing,
                FlowAction::Wait { millis: FOCUS_MILLIS },
            ),
            _ => (state, FlowAction::Nothing),
        },
        FlowState::Pausing => match event {
            FlowEvent::Elapsed => lift(
                replace_input_with_text(InsertState::Idle, InsertEvent::Requested, text),
            ),
            _ => (state, FlowAction::Nothing),
        },
        FlowState::Inserting(inner) => match event {
            FlowEvent::Input(reported) => lift(replace_input_with_text(inner, reported, text)),
            _ => lift(replace_input_with_text(inner, InsertEvent::Failed, text)),
        },
        FlowState::Done => (state, FlowAction::Nothing),
    }
}

/// Where the flow stands, and what the host was told to do, after the events
/// `events` from the start.
pub open spec fn flow_run(events: Seq<FlowEvent>, text_is_empty: bool) -> (
    FlowState,
    Seq<FlowAction>,
)
    decreases events.len(),
{
    if events.len() == 0 {
        (FlowState::Idle, Seq::empty())
    } else {
        let (state, actions) = flow_run(events.drop_last(), text_is_empty);
        let (next, action) = flow_step(state, events.last(), text_is_empty);
        (next, actions.push(action))
    }
}

/// The flow fails only where the typing fails: whatever the host reports,
/// and whether or not the focus was restored, a flow that ends on a failure
/// was typing when it ended, and was told of the end of a focus restore
/// before.
pub proof fn lemma_flow_fails_only_in_typing(events: Seq<FlowEvent>, text_is_empty: bool)
    ensures
        ({
            let (state, actions) = flow_run(events, text_is_empty);
            &&& actions.len() == events.len()
            &&& state is Inserting ==> !(state->Inserting_0 is Idle) && !(state->Inserting_0 is Done)
            &&& forall|k: int|
                0 <= k < actions.len() ==> ((#[trigger] actions[k]) matches FlowAction::Finish(
                    InsertEnd::Failed(_),
                ) ==> flow_run(events.take(k), text_is_empty).0 is Inserting)
        }),
    decreases events.len(),
{
    if events.len() > 0 {
        let shorter = events.drop_last();
        lemma_flow_fails_only_in_typing(shorter, text_is_empty);
        let (before, earlier) = flow_run(shorter, text_is_empty);
        let (state, actions) = flow_run(events, text_is_empty);
        assert forall|k: int| 0 <= k < actions.len() implies ((#[trigger] actions[k]) matches FlowAction::Finish(
            InsertEnd::Failed(_),
        ) ==> flow_run(events.take(k), text_is_empty).0 is Inserting) by {
            if k < earlier.len() {
                assert(actions[k] == earlier[k]);
                assert(shorter.take(k) =~= events.take(k));
            } else {
                assert(events.take(k) =~= shorter);
            }
        }
    }
}

/// A focus restore that failed and one that succeeded are followed by the
/// same step.
pub proof fn lemma_focus_failure_is_passed_over(text_is_empty: bool)
    ensures
        flow_step(FlowState::Focusing, FlowEvent::FocusEnded { restored: false }, text_is_empty)
            == flow_step(FlowState::Focusing, FlowEvent::FocusEnded { restored: true }, text_is_empty),
        flow_step(FlowState::Focusing, FlowEvent::FocusEnded { restored: false }, text_is_empty).1
            == (FlowAction::Wait { millis: FOCUS_MILLIS }),
{
}

/// The stages of one pass from a capture to an insertion.
#[derive(Clone, Copy, Debug, PartialEq, Eq, Structural)]
pub enum PipelineStage {
    Idle,
    CaptureRequested,
    Captured,
    CropRequested,
    Cropped,
    RecognitionRequested,
    Recognized,
    FocusRestoring,
    Inserting,
    Done,
    Error,
}

/// What moves the pipeline on.
#[derive(Clone, Copy, Debug, PartialEq, Eq, Structural)]
pub enum Signal {
    /// The user asks for a capture.
    CaptureAsked,
    /// The user asks for the crop of the rectangle drawn.
    CropAsked,
    /// The user has finished the selection: the crop is to be recognised.
    RecognitionAsked,
    /// A text is to be typed into the window that had focus.
    InsertionAsked,
    /// The stage in progress did its work.
    Succeeded,
    /// The stage in progress had nothing to work on: no display at the
    /// origin asked for, or no full capture to crop.
    Skipped,
    /// The stage in progress failed.
    Failed,
}

/// The stage after `signal`. A capture that fails or finds no display, a
/// crop without a capture and a recognition that fails lead back to `Idle`.
/// A crop that fails and a typing that fails are errors. The outcome of the
/// focus restore changes nothing. `Done` and `Error` are final: nothing is
/// tried again. A signal out of turn is an error.
pub open spec fn stage_after(stage: PipelineStage, signal: Signal) -> PipelineStage {
    match (stage, signal) {
        (PipelineStage::Done, _) => PipelineStage::Done,
        (PipelineStage::Error, _) => PipelineStage::Error,
        (PipelineStage::Idle, Signal::CaptureAsked) => PipelineStage::CaptureRequested,
        (PipelineStage::Idle, Signal::InsertionAsked) => PipelineStage::FocusRestoring,
        (PipelineStage::CaptureRequested, Signal::Succeeded) => PipelineStage::Captured,
        (PipelineStage::CaptureRequested, Signal::Skipped) => PipelineStage::Idle,
        (PipelineStage::CaptureRequested, Signal::Failed) => PipelineStage::Idle,
        (PipelineStage::Captured, Signal::CropAsked) => PipelineStage::CropRequested,
        (PipelineStage::CropRequested, Signal::Succeeded) => PipelineStage::Cropped,
        (PipelineStage::CropRequested, Signal::Skipped) => PipelineStage::Idle,
        (PipelineStage::Cropped, Signal::RecognitionAsked) => PipelineStage::RecognitionRequested,
        (PipelineStage::RecognitionRequested, Signal::Succeeded) => PipelineStage::Recognized,
        (PipelineStage::RecognitionRequested, Signal::Failed) => PipelineStage::Idle,
        (PipelineStage::Recognized, Signal::InsertionAsked) => PipelineStage::FocusRestoring,
        (PipelineStage::FocusRestoring, Signal::Succeeded) => PipelineStage::Inserting,
        (PipelineStage::FocusRestoring, Signal::Skipped) => PipelineStage::Inserting,
        (PipelineStage::FocusRestoring, Signal::Failed) => PipelineStage::Inserting,
        (PipelineStage::Inserting, Signal::Succeeded) => PipelineStage::Done,
        _ => PipelineStage::Error,
    }
}

/// Moves the pipeline on by one signal.
pub fn advance(stage: PipelineStage, signal: Signal) -> (res: PipelineStage)
    ensures
        res == stage_after(stage, signal),
{
    match stage {
        PipelineStage::Done => PipelineStage::Done,
        PipelineStage::Error => PipelineStage::Error,
        PipelineStage::Idle => match signal {
            Signal::CaptureAsked => PipelineStage::CaptureRequested,
            Signal::InsertionAsked => PipelineStage::FocusRestoring,
            _ => PipelineStage::Error,
        },
        PipelineStage::CaptureRequested => match signal {
            Signal::Succeeded => PipelineStage::Captured,
            Signal::Skipped | Signal::Failed => PipelineStage::Idle,
            _ => PipelineStage::Error,
        },
        PipelineStage::Captured => match signal {
            Signal::CropAsked => PipelineStage::CropRequested,
            _ => PipelineStage::Error,
        },
        PipelineStage::CropRequested => match signal {
            Signal::Succeeded => PipelineStage::Cropped,
            Signal::Skipped => PipelineStage::Idle,
            _ => PipelineStage::Error,
        },
        PipelineStage::Cropped => match signal {
            Signal::RecognitionAsked => PipelineStage::RecognitionRequested,
            _ => PipelineStage::Error,
        },
        PipelineStage::RecognitionRequested => match signal {
            Signal::Succeeded => PipelineStage::Recognized,
            Signal::Failed => PipelineStage::Idle,
            _ => PipelineStage::Error,
        },
        PipelineStage::Recognized => match signal {
            Signal::InsertionAsked => PipelineStage::FocusRestoring,
            _ => PipelineStage::Error,
        },
        PipelineStage::FocusRestoring => match signal {
            Signal::Succeeded | Signal::Skipped | Signal::Failed => PipelineStage::Inserting,
            _ => PipelineStage::Error,
        },
        PipelineStage::Inserting => match signal {
            Signal::Succeeded => PipelineStage::Done,
            _ => PipelineStage::Error,
        },
    }
}

/// The stage after the signals `signals`, from `stage`.
pub open spec fn stage_after_all(stage: PipelineStage, signals: Seq<Signal>) -> PipelineStage
    decreases signals.len(),
{
    if signals.len() == 0 {
        stage
    } else {
        stage_after(stage_after_all(stage, signals.drop_last()), signals.last())
    }
}

/// Nothing is tried again: once the pipeline is done or in error it stays
/// there, whatever comes.
pub proof fn lemma_final_stages_stay(stage: PipelineStage, signals: Seq<Signal>)
    requires
        stage is Done || stage is Error,
    ensures
        stage_after_all(stage, signals) == stage,
    decreases signals.len(),
{
    if signals.len() > 0 {
        lemma_final_stages_stay(stage, signals.drop_last());
    }
}

/// The error stage can be reached from every stage but `Done`.
pub proof fn lemma_error_is_reachable(stage: PipelineStage)
    requires
        !(stage is Done),
    ensures
        exists|signal: Signal| stage_after(stage, signal) is Error,
{
    let signal = match stage {
        PipelineStage::Idle => Signal::Succeeded,
        PipelineStage::CaptureRequested => Signal::CaptureAsked,
        PipelineStage::Captured => Signal::Succeeded,
        PipelineStage::CropRequested => Signal::Failed,
        PipelineStage::Cropped => Signal::Succeeded,
        PipelineStage::RecognitionRequested => Signal::CaptureAsked,
        PipelineStage::Recognized => Signal::Succeeded,
        PipelineStage::FocusRestoring => Signal::CaptureAsked,
        _ => Signal::Failed,
    };
    assert(stage_after(stage, signal) is Error);
}

} // verus!
