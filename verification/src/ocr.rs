//! The two triggers of recognition and what follows them.
//!
//! The start trigger shows the capture overlay where the on-device service
//! recognises, runs the helper program where there is one, and does nothing
//! on an unsupported platform. The finish trigger lets the on-device service
//! recognise the crop. A recognition that succeeded is followed by three
//! steps in this order: the text is forwarded, the focused window is
//! remembered, the result window is asked to surface. A recognition that
//! failed forwards nothing.

use crate::recognition::{helper_for, helper_of, HelperBinary, RecognitionEngine};
use vstd::prelude::*;
use vstd::string::StringExecFns;

verus! {

/// Why a recognition failed.
#[derive(Clone, Copy, Debug, PartialEq, Eq, Structural)]
pub enum OcrFailure {
    /// The place of the helper among the resources was not resolved.
    HelperUnresolved,
    /// There is no helper at its place.
    HelperMissing,
    /// The helper could not be started.
    HelperNotRun,
    /// The helper ended without success.
    HelperFailed,
    /// The place of the crop file was not resolved.
    CropUnresolved,
    /// The on-device engine could not be made, or recognised nothing.
    EngineFailed,
    /// An event came that the step in progress does not end with.
    Unexpected,
}

/// The text of `failure_message`.
pub open spec fn failure_text(failure: OcrFailure, place: Seq<char>, detail: Seq<char>) -> Seq<char> {
    match failure {
        OcrFailure::HelperUnresolved => "Failed to resolve ocr binary resource '"@ + place + "': "@
            + detail,
        OcrFailure::HelperMissing => "OCR binary not found at "@ + place
            + ". Please ensure the binary is bundled correctly."@,
        OcrFailure::HelperNotRun => "Failed to execute ocr binary at "@ + place + ": "@ + detail,
        OcrFailure::CropUnresolved => "Failed to resolve ocr_images directory: "@ + detail,
        OcrFailure::Unexpected => "unexpected event during recognition"@,
        OcrFailure::HelperFailed | OcrFailure::EngineFailed => detail,
    }
}

/// The failure in words. `place` is the path that the failure is about, and
/// `detail` the text of the error that the host got; for a helper that
/// ended without success and for an engine that failed, `detail` is the
/// whole message.
pub fn failure_message(failure: OcrFailure, place: &str, detail: &str) -> (res: String)
    ensures
        res@ == failure_text(failure, place@, detail@),
{
    match failure {
        OcrFailure::HelperUnresolved => {
            let mut out = String::from_str("Failed to resolve ocr binary resource '");
            out.append(place);
            out.append("': ");
            out.append(detail);
            out
        },
        OcrFailure::HelperMissing => {
            let mut out = String::from_str("OCR binary not found at ");
            out.append(place);
            out.append(". Please ensure the binary is bundled correctly.");
            out
        },
        OcrFailure::HelperNotRun => {
            let mut out = String::from_str("Failed to execute ocr binary at ");
            out.append(place);
            out.append(": ");
            out.append(detail);
            out
        },
        OcrFailure::CropUnresolved => {
            let mut out = String::from_str("Failed to resolve ocr_images directory: ");
            out.append(detail);
            out
        },
        OcrFailure::Unexpected => String::from_str("unexpected event during recognition"),
        OcrFailure::HelperFailed | OcrFailure::EngineFailed => String::from_str(detail),
    }
}

/// How a trigger ended.
#[derive(Clone, Copy, Debug, PartialEq, Eq, Structural)]
pub enum OcrEnd {
    /// The text was forwarded and the result window asked for.
    Recognized,
    /// The engine of this platform has nothing to do at this trigger, or
    /// recognises nothing at all: a success with no text.
    NothingRecognized,
    Failed(OcrFailure),
}

/// The trigger that a flow began with.
#[derive(Clone, Copy, Debug, PartialEq, Eq, Structural)]
pub enum OcrTrigger {
    /// The start trigger, on a machine that takes this build of the helper.
    Start { helper: HelperBinary },
    Finish,
}

/// Where a flow stands.
#[derive(Clone, Copy, Debug, PartialEq, Eq, Structural)]
pub enum OcrState {
    Idle,
    ResolvingHelper,
    ProbingHelper,
    RunningHelper,
    ResolvingCrop,
    Recognizing,
    Forwarding,
    Remembering,
    Surfacing,
    Done,
}

/// What the host reports back.
#[derive(Clone, Copy, Debug, PartialEq, Eq, Structural)]
pub enum OcrEvent {
    /// The trigger came.
    Requested,
    /// The step in progress succeeded.
    Succeeded,
    /// The step in progress failed.
    Failed,
    /// Whether there is a file at the helper's place.
    Probed { exists: bool },
    /// The helper could not be started.
    NotStarted,
}

/// What the host does next.
#[derive(Clone, Copy, Debug, PartialEq, Eq, Structural)]
pub enum OcrAction {
    /// Show the window in which the user selects a rectangle. Nothing
    /// follows it.
    ShowCaptureOverlay,
    /// Resolve the place of this build of the helper among the resources.
    ResolveHelper { binary: HelperBinary },
    /// See whether there is a file at the helper's place.
    ProbeHelper,
    /// Run the helper and wait for it to end.
    RunHelper,
    /// Resolve the place of the crop file in the cache directory.
    ResolveCropPath,
    /// Let the on-device service recognise the crop file.
    RecognizeCrop,
    /// Hand the recognised text to the translation sink.
    ForwardText,
    /// Query the focused window and remember it.
    RememberWindow,
    /// Ask the result window to surface.
    ShowResultWindow,
    /// The flow is over.
    Finish(OcrEnd),
    /// The flow was over before: nothing is done.
    Nothing,
}

/// The flow ends on `failure`.
pub open spec fn ocr_failed(failure: OcrFailure) -> (OcrState, OcrAction) {
    (OcrState::Done, OcrAction::Finish(OcrEnd::Failed(failure)))
}

/// What a trigger begins with on the platform of `engine`.
pub open spec fn ocr_begin(trigger: OcrTrigger, engine: RecognitionEngine) -> (OcrState, OcrAction) {
    match (trigger, engine) {
        (OcrTrigger::Start { .. }, RecognitionEngine::OnDeviceService) => (
            OcrState::Done,
            OcrAction::ShowCaptureOverlay,
        ),
        (OcrTrigger::Start { helper }, RecognitionEngine::ExternalHelper) => (
            OcrState::ResolvingHelper,
            OcrAction::ResolveHelper { binary: helper },
        ),
        (OcrTrigger::Finish, RecognitionEngine::OnDeviceService) => (
            OcrState::ResolvingCrop,
            OcrAction::ResolveCropPath,
        ),
        _ => (OcrState::Done, OcrAction::Finish(OcrEnd::NothingRecognized)),
    }
}

/// The next state and action of the flow that `trigger` began.
pub open spec fn ocr_step(
    trigger: OcrTrigger,
    engine: RecognitionEngine,
    state: OcrState,
    event: OcrEvent,
) -> (OcrState, OcrAction) {
    match (state, event) {
        (OcrState::Done, _) => (OcrState::Done, OcrAction::Nothing),
        (OcrState::Idle, OcrEvent::Requested) => ocr_begin(trigger, engine),
        (OcrState::ResolvingHelper, OcrEvent::Succeeded) => (
            OcrState::ProbingHelper,
            OcrAction::ProbeHelper,
        ),
        (OcrState::ResolvingHelper, OcrEvent::Failed) => ocr_failed(OcrFailure::HelperUnresolved),
        (OcrState::ProbingHelper, OcrEvent::Probed { exists }) => if exists {
            (OcrState::RunningHelper, OcrAction::RunHelper)
        } else {
            ocr_failed(OcrFailure::HelperMissing)
        },
        (OcrState::RunningHelper, OcrEvent::Succeeded) => (
            OcrState::Forwarding,
            OcrAction::ForwardText,
        ),
        (OcrState::RunningHelper, OcrEvent::Failed) => ocr_failed(OcrFailure::HelperFailed),
        (OcrState::RunningHelper, OcrEvent::NotStarted) => ocr_failed(OcrFailure::HelperNotRun),
        (OcrState::ResolvingCrop, OcrEvent::Succeeded) => (
            OcrState::Recognizing,
            OcrAction::RecognizeCrop,
        ),
        (OcrState::ResolvingCrop, OcrEvent::Failed) => ocr_failed(OcrFailure::CropUnresolved),
        (OcrState::Recognizing, OcrEvent::Succeeded) => (
            OcrState::Forwarding,
            OcrAction::ForwardText,
        ),
        (OcrState::Recognizing, OcrEvent::Failed) => ocr_failed(OcrFailure::EngineFailed),
        (OcrState::Forwarding, _) => (OcrState::Remembering, OcrAction::RememberWindow),
        (OcrState::Remembering, _) => (OcrState::Surfacing, OcrAction::ShowResultWindow),
        (OcrState::Surfacing, _) => (OcrState::Done, OcrAction::Finish(OcrEnd::Recognized)),
        _ => ocr_failed(OcrFailure::Unexpected),
    }
}

fn failed(failure: OcrFailure) -> (res: (OcrState, OcrAction))
    ensures
        res == ocr_failed(failure),
{
    (OcrState::Done, OcrAction::Finish(OcrEnd::Failed(failure)))
}

fn step(trigger: OcrTrigger, engine: RecognitionEngine, state: OcrState, event: OcrEvent) -> (res: (
    OcrState,
    OcrAction,
))
    ensures
        res == ocr_step(trigger, engine, state, event),
{
    match state {
        OcrState::Done => (OcrState::Done, OcrAction::Nothing),
        OcrState::Idle => match event {
            OcrEvent::Requested => match (trigger, engine) {
                (OcrTrigger::Start { .. }, RecognitionEngine::OnDeviceService) => (
                    OcrState::Done,
                    OcrAction::ShowCaptureOverlay,
                ),
                (OcrTrigger::Start { helper }, RecognitionEngine::ExternalHelper) => (
                    OcrState::ResolvingHelper,
                    OcrAction::ResolveHelper { binary: helper },
                ),
                (OcrTrigger::Finish, RecognitionEngine::OnDeviceService) => (
                    OcrState::ResolvingCrop,
                    OcrAction::ResolveCropPath,
                ),
                _ => (OcrState::Done, OcrAction::Finish(OcrEnd::NothingRecognized)),
            },
            _ => failed(OcrFailure::Unexpected),
        },
        OcrState::ResolvingHelper => match event {
            OcrEvent::Succeeded => (OcrState::ProbingHelper, OcrAction::ProbeHelper),
            OcrEvent::Failed => failed(OcrFailure::HelperUnresolved),
            _ => failed(OcrFailure::Unexpected),
        },
        OcrState::ProbingHelper => match event {
            OcrEvent::Probed { exists } => {
                if exists {
                    (OcrState::RunningHelper, OcrAction::RunHelper)
                } else {
                    failed(OcrFailure::HelperMissing)
                }
            },
            _ => failed(OcrFailure::Unexpected),
        },
        OcrState::RunningHelper => match event {
            OcrEvent::Succeeded => (OcrState::Forwarding, OcrAction::ForwardText),
            OcrEvent::Failed => failed(OcrFailure::HelperFailed),
            OcrEvent::NotStarted => failed(OcrFailure::HelperNotRun),
            _ => failed(OcrFailure::Unexpected),
        },
        OcrState::ResolvingCrop => match event {
            OcrEvent::Succeeded => (OcrState::Recognizing, OcrAction::RecognizeCrop),
            OcrEvent::Failed => failed(OcrFailure::CropUnresolved),
            _ => failed(OcrFailure::Unexpected),
        },
        OcrState::Recognizing => match event {
            OcrEvent::Succeeded => (OcrState::Forwarding, OcrAction::ForwardText),
            OcrEvent::Failed => failed(OcrFailure::EngineFailed),
            _ => failed(OcrFailure::Unexpected),
        },
        OcrState::Forwarding => (OcrState::Remembering, OcrAction::RememberWindow),
        OcrState::Remembering => (OcrState::Surfacing, OcrAction::ShowResultWindow),
        OcrState::Surfacing => (OcrState::Done, OcrAction::Finish(OcrEnd::Recognized)),
    }
}

/// One step of the flow that the start trigger began, on a machine whose
/// processor is of the vendor `cpu_vendor`: from where the flow stands and
/// what the host reports, to where it stands next and what the host does
/// next.
pub fn do_ocr(engine: RecognitionEngine, state: OcrState, event: OcrEvent, cpu_vendor: &str) -> (res: (
    OcrState,
    OcrAction,
))
    ensures
        res == ocr_step(
            OcrTrigger::Start { helper: helper_of(cpu_vendor@) },
            engine,
            state,
            event,
        ),
{
    step(OcrTrigger::Start { helper: helper_for(cpu_vendor) }, engine, state, event)
}

/// The first step after the start trigger.
pub fn ocr(engine: RecognitionEngine, cpu_vendor: &str) -> (res: (OcrState, OcrAction))
    ensures
        res == ocr_begin(OcrTrigger::Start { helper: helper_of(cpu_vendor@) }, engine),
{
    do_ocr(engine, OcrState::Idle, OcrEvent::Requested, cpu_vendor)
}

/// The start trigger: what the platform of `engine` does first.
pub fn start_ocr(engine: RecognitionEngine, cpu_vendor: &str) -> (res: (OcrState, OcrAction))
    ensures
        res == ocr_begin(OcrTrigger::Start { helper: helper_of(cpu_vendor@) }, engine),
{
    ocr(engine, cpu_vendor)
}

/// One step of the flow that the finish trigger began: from where the flow
/// stands and what the host reports, to where it stands next and what the
/// host does next.
pub fn do_finish_ocr(engine: RecognitionEngine, state: OcrState, event: OcrEvent) -> (res: (
    OcrState,
    OcrAction,
))
    ensures
        res == ocr_step(OcrTrigger::Finish, engine, state, event),
{
    step(OcrTrigger::Finish, engine, state, event)
}

/// The finish trigger: what the platform of `engine` does first.
pub fn finish_ocr(engine: RecognitionEngine) -> (res: (OcrState, OcrAction))
    ensures
        res == ocr_begin(OcrTrigger::Finish, engine),
{
    do_finish_ocr(engine, OcrState::Idle, OcrEvent::Requested)
}

/// Where a flow stands, and what the host was told to do, after the events
/// `events` from the start.
pub open spec fn ocr_run(trigger: OcrTrigger, engine: RecognitionEngine, events: Seq<OcrEvent>) -> (
    OcrState,
    Seq<OcrAction>,
)
    decreases events.len(),
{
    if events.len() == 0 {
        (OcrState::Idle, Seq::empty())
    } else {
        let (state, actions) = ocr_run(trigger, engine, events.drop_last());
        let (next, action) = ocr_step(trigger, engine, state, events.last());
        (next, actions.push(action))
    }
}

/// What the state says of the actions so far, as far as it matters for the
/// order of what follows a recognition.
pub open spec fn ocr_state_in_order(
    state: OcrState,
    events: Seq<OcrEvent>,
    actions: Seq<OcrAction>,
) -> bool {
    let n = actions.len() as int;
    &&& state is Forwarding ==> n >= 2 && actions[n - 1] == OcrAction::ForwardText
    &&& state is Remembering ==> n >= 3 && actions[n - 1] == OcrAction::RememberWindow && actions[n
        - 2] == OcrAction::ForwardText
    &&& state is Surfacing ==> n >= 4 && actions[n - 1] == OcrAction::ShowResultWindow && actions[n
        - 2] == OcrAction::RememberWindow && actions[n - 3] == OcrAction::ForwardText
    &&& !(state is Forwarding || state is Remembering || state is Surfacing || state is Done)
        ==> nothing_forwarded(actions, n)
}

/// None of the first `k` actions forwards the text.
pub open spec fn nothing_forwarded(actions: Seq<OcrAction>, k: int) -> bool {
    forall|j: int| 0 <= j < k && j < actions.len() ==> actions[j] != OcrAction::ForwardText
}

/// The action at index `k` stands where it may: the text is forwarded only
/// after a step that succeeded, the window is remembered right after the
/// text was forwarded, the result window is asked for right after the window
/// was remembered, and an end without a recognition has forwarded nothing.
pub open spec fn ocr_action_in_place(events: Seq<OcrEvent>, actions: Seq<OcrAction>, k: int) -> bool {
    match actions[k] {
        OcrAction::ForwardText => k >= 1 && events[k] == OcrEvent::Succeeded,
        OcrAction::RememberWindow => k >= 1 && actions[k - 1] == OcrAction::ForwardText,
        OcrAction::ShowResultWindow => k >= 2 && actions[k - 1] == OcrAction::RememberWindow
            && actions[k - 2] == OcrAction::ForwardText,
        OcrAction::Finish(OcrEnd::Recognized) => k >= 3 && actions[k - 1]
            == OcrAction::ShowResultWindow,
        OcrAction::Finish(_) => nothing_forwarded(actions, k),
        _ => true,
    }
}

/// What follows a recognition comes in order, and only after a success:
/// whatever the host reports, every action of the flow stands where
/// `ocr_action_in_place` lets it stand.
pub proof fn lemma_forward_remember_surface(
    trigger: OcrTrigger,
    engine: RecognitionEngine,
    events: Seq<OcrEvent>,
)
    ensures
        ({
            let (state, actions) = ocr_run(trigger, engine, events);
            &&& actions.len() == events.len()
            &&& ocr_state_in_order(state, events, actions)
            &&& forall|k: int|
                0 <= k < actions.len() ==> #[trigger] ocr_action_in_place(events, actions, k)
        }),
    decreases events.len(),
{
    if events.len() > 0 {
        let shorter = events.drop_last();
        lemma_forward_remember_surface(trigger, engine, shorter);
        let (before, earlier) = ocr_run(trigger, engine, shorter);
        let (state, actions) = ocr_run(trigger, engine, events);
        let n = earlier.len() as int;
        assert(actions == earlier.push(ocr_step(trigger, engine, before, events.last()).1));
        assert forall|j: int| 0 <= j < n implies actions[j] == earlier[j] by {}
        assert forall|k: int| 0 <= k < actions.len() implies #[trigger] ocr_action_in_place(
            events,
            actions,
            k,
        ) by {
            if k < n {
                assert(ocr_action_in_place(shorter, earlier, k));
                assert(shorter[k] == events[k]);
                if nothing_forwarded(earlier, k) {
                    assert(nothing_forwarded(actions, k));
                }
            } else {
                assert(ocr_state_in_order(before, shorter, earlier));
                if nothing_forwarded(earlier, n) {
                    assert(nothing_forwarded(actions, k));
                }
            }
        }
        if nothing_forwarded(earlier, n) && actions[n] != OcrAction::ForwardText {
            assert(nothing_forwarded(actions, n + 1));
        }
    }
}

} // verus!
