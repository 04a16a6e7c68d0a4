//! Capturing one display into the full-capture file.
//!
//! The host lists the displays, probes and creates the cache directory,
//! captures and writes. `screenshot` decides, after each of these steps,
//! what comes next: it picks the display whose origin was asked for, encodes
//! the snapshot, and stops at the first step that fails.

use crate::crop::Raster;
use vstd::prelude::*;
use vstd::string::StringExecFns;

verus! {

/// The name of the directory under the cache directory that holds the
/// capture and the crop.
pub const CACHE_DIRECTORY: &'static str = "ocr_images";

/// The name of the full-capture file in that directory.
pub const FULL_CAPTURE_FILE: &'static str = "fullscreen.png";

/// The place and size of one attached display.
#[derive(Clone, Copy, Debug, PartialEq, Eq, Structural)]
pub struct DisplayInfo {
    pub id: u32,
    pub x: i32,
    pub y: i32,
    pub width: u32,
    pub height: u32,
}

/// The display's origin is (`x`, `y`).
pub open spec fn at_origin(display: DisplayInfo, x: i32, y: i32) -> bool {
    display.x == x && display.y == y
}

/// The index of the first display whose origin is (`x`, `y`).
pub open spec fn first_at_origin(displays: Seq<DisplayInfo>, x: i32, y: i32) -> Option<int>
    decreases displays.len(),
{
    if displays.len() == 0 {
        None
    } else {
        match first_at_origin(displays.drop_last(), x, y) {
            Some(i) => Some(i),
            None => if at_origin(displays.last(), x, y) {
                Some(displays.len() - 1)
            } else {
                None
            },
        }
    }
}

/// `first_at_origin` is the least index of a display at the origin, and is
/// nothing exactly where no display is there.
pub proof fn lemma_first_at_origin(displays: Seq<DisplayInfo>, x: i32, y: i32)
    ensures
        match first_at_origin(displays, x, y) {
            Some(i) => {
                &&& 0 <= i < displays.len()
                &&& at_origin(displays[i], x, y)
                &&& forall|j: int| 0 <= j < i ==> !at_origin(#[trigger] displays[j], x, y)
            },
            None => forall|j: int|
                0 <= j < displays.len() ==> !at_origin(#[trigger] displays[j], x, y),
        },
    decreases displays.len(),
{
    if displays.len() > 0 {
        lemma_first_at_origin(displays.drop_last(), x, y);
        assert forall|j: int| 0 <= j < displays.len() - 1 implies displays.drop_last()[j]
            == displays[j] by {}
        match first_at_origin(displays.drop_last(), x, y) {
            Some(i) => {
                assert(displays.drop_last()[i] == displays[i]);
                assert forall|j: int| 0 <= j < i implies !at_origin(
                    #[trigger] displays[j],
                    x,
                    y,
                ) by {
                    assert(displays.drop_last()[j] == displays[j]);
                }
            },
            None => {
                assert forall|j: int| 0 <= j < displays.len() - 1 implies !at_origin(
                    #[trigger] displays[j],
                    x,
                    y,
                ) by {
                    assert(displays.drop_last()[j] == displays[j]);
                }
            },
        }
    }
}

/// The index of the first display whose origin is (`x`, `y`), if there is one.
pub fn select_display(displays: &Vec<DisplayInfo>, x: i32, y: i32) -> (res: Option<usize>)
    ensures
        match res {
            Some(i) => first_at_origin(displays@, x, y) == Some(i as int),
            None => first_at_origin(displays@, x, y) is None,
        },
        match res {
            Some(i) => {
                &&& i < displays.len()
                &&& at_origin(displays[i as int], x, y)
                &&& forall|j: int| 0 <= j < i ==> !at_origin(#[trigger] displays[j], x, y)
            },
            None => forall|j: int|
                0 <= j < displays.len() ==> !at_origin(#[trigger] displays[j], x, y),
        },
{
    let mut found: Option<usize> = None;
    let mut i: usize = 0;
    assert(displays@.take(0) =~= Seq::<DisplayInfo>::empty());
    while i < displays.len()
        invariant
            i <= displays.len(),
            match found {
                Some(k) => first_at_origin(displays@.take(i as int), x, y) == Some(k as int),
                None => first_at_origin(displays@.take(i as int), x, y) is None,
            },
        decreases displays.len() - i,
    {
        assert(displays@.take(i + 1).drop_last() =~= displays@.take(i as int));
        if found.is_none() && displays[i].x == x && displays[i].y == y {
            found = Some(i);
        }
        i = i + 1;
    }
    assert(displays@.take(displays.len() as int) =~= displays@);
    proof {
        lemma_first_at_origin(displays@, x, y);
    }
    found
}

/// The step of a capture that failed.
#[derive(Clone, Copy, Debug, PartialEq, Eq, Structural)]
pub enum CaptureFailure {
    Enumerate,
    ResolveDirectory,
    CreateDirectory,
    Capture,
    Encode,
    Write,
    /// An event came that the step in progress does not end with.
    Unexpected,
}

/// The text of a failure for the log: the step that failed, then `detail`,
/// the text of the error.
pub open spec fn failure_text(failure: CaptureFailure, detail: Seq<char>) -> Seq<char> {
    match failure {
        CaptureFailure::Enumerate => "Failed to get screens: "@ + detail,
        CaptureFailure::ResolveDirectory => "Failed to resolve ocr_images directory: "@ + detail,
        CaptureFailure::CreateDirectory => "Failed to create ocr_images directory: "@ + detail,
        CaptureFailure::Capture => "Failed to capture screen: "@ + detail,
        CaptureFailure::Encode => "Failed to convert image to PNG: "@ + detail,
        CaptureFailure::Write => "Failed to write screenshot file: "@ + detail,
        CaptureFailure::Unexpected => "Unexpected event during capture: "@ + detail,
    }
}

/// The line for the log: the step that failed, then `detail`, the text of
/// the error.
pub fn failure_message(failure: CaptureFailure, detail: &str) -> (res: String)
    ensures
        res@ == failure_text(failure, detail@),
{
    let mut out = match failure {
        CaptureFailure::Enumerate => String::from_str("Failed to get screens: "),
        CaptureFailure::ResolveDirectory => String::from_str(
            "Failed to resolve ocr_images directory: ",
        ),
        CaptureFailure::CreateDirectory => String::from_str(
            "Failed to create ocr_images directory: ",
        ),
        CaptureFailure::Capture => String::from_str("Failed to capture screen: "),
        CaptureFailure::Encode => String::from_str("Failed to convert image to PNG: "),
        CaptureFailure::Write => String::from_str("Failed to write screenshot file: "),
        CaptureFailure::Unexpected => String::from_str("Unexpected event during capture: "),
    };
    out.append(detail);
    out
}

/// The bytes of the PNG file that `screenshots` encodes from the RGBA pixels
/// of a snapshot with fast compression, or the text of its error.
pub uninterp spec fn capture_png(width: u32, height: u32, pixels: Seq<u8>) -> Result<
    Seq<u8>,
    Seq<char>,
>;

/// Encodes a snapshot as a PNG file with `screenshots::Image::to_png` and
/// fast compression, on an image made by `screenshots::Image::new`; an
/// error is handed out as `{:?}` writes it. Nothing of this is proved here:
/// the contract names the result.
#[verifier::external_body]
fn encode_snapshot(snapshot: &Raster) -> (res: Result<Vec<u8>, String>)
    ensures
        match capture_png(snapshot.spec_width(), snapshot.spec_height(), snapshot.spec_pixels()) {
            Ok(b) => res matches Ok(v) && v@ == b,
            Err(m) => res matches Err(e) && e@ == m,
        },
{
    let image =
        screenshots::Image::new(snapshot.width(), snapshot.height(), snapshot.pixels().clone());
    match image.to_png(screenshots::Compression::Fast) {
        Ok(png) => Ok(png),
        Err(e) => Err(format!("{:?}", e)),
    }
}

/// Where a capture stands.
#[derive(Clone, Copy, Debug, PartialEq, Eq, Structural)]
pub enum CaptureState {
    Idle,
    Enumerating,
    ProbingDirectory { display: usize },
    CreatingDirectory { display: usize },
    Capturing,
    Writing,
    Done,
}

/// What the host reports back.
#[derive(Debug)]
pub enum CaptureEvent {
    /// A capture was asked for.
    Requested,
    /// The attached displays, as the operating system lists them.
    Displays(Vec<DisplayInfo>),
    /// The cache directory was resolved, and does or does not exist.
    DirectoryProbed { exists: bool },
    /// The snapshot of the display.
    Captured(Raster),
    /// The step in progress succeeded.
    Succeeded,
    /// The step in progress failed with an error of this text.
    Failed { detail: String },
}

/// How a capture ended.
#[derive(Debug, PartialEq, Eq)]
pub enum CaptureEnd {
    /// The full-capture file holds the new capture.
    Written,
    /// No display has the origin asked for: nothing was done, and this is no
    /// error.
    NoMatchingDisplay,
    /// A step failed: `message` is the line for the log, and the
    /// full-capture file is as it was.
    Failed { failure: CaptureFailure, message: String },
}

/// What the host does next.
#[derive(Debug, PartialEq, Eq)]
pub enum CaptureAction {
    ListDisplays,
    /// Resolve the cache directory and see whether it exists.
    ProbeCacheDirectory,
    /// Create the cache directory and what lies above it.
    CreateCacheDirectory,
    /// Take a full snapshot of the display with this index in the list.
    CaptureDisplay { index: usize },
    /// Write these bytes to the full-capture file, over what it held.
    WriteFullCapture { png: Vec<u8> },
    /// The capture is over.
    Finish(CaptureEnd),
    /// The capture was over before: nothing is done.
    Nothing,
}

/// A `CaptureAction` by the values that it holds.
pub enum CaptureStep {
    ListDisplays,
    ProbeCacheDirectory,
    CreateCacheDirectory,
    CaptureDisplay { index: usize },
    WriteFullCapture { png: Seq<u8> },
    Written,
    NoMatchingDisplay,
    Failed { failure: CaptureFailure, message: Seq<char> },
    Nothing,
}

impl View for CaptureAction {
    type V = CaptureStep;

    open spec fn view(&self) -> CaptureStep {
        match *self {
            CaptureAction::ListDisplays => CaptureStep::ListDisplays,
            CaptureAction::ProbeCacheDirectory => CaptureStep::ProbeCacheDirectory,
            CaptureAction::CreateCacheDirectory => CaptureStep::CreateCacheDirectory,
            CaptureAction::CaptureDisplay { index } => CaptureStep::CaptureDisplay { index },
            CaptureAction::WriteFullCapture { png } => CaptureStep::WriteFullCapture { png: png@ },
            CaptureAction::Finish(CaptureEnd::Written) => CaptureStep::Written,
            CaptureAction::Finish(CaptureEnd::NoMatchingDisplay) => CaptureStep::NoMatchingDisplay,
            CaptureAction::Finish(CaptureEnd::Failed { failure, message }) => CaptureStep::Failed {
                failure,
                message: message@,
            },
            CaptureAction::Nothing => CaptureStep::Nothing,
        }
    }
}

/// The capture ends on a failure with the error text `detail`.
pub open spec fn failed(failure: CaptureFailure, detail: Seq<char>) -> (CaptureState, CaptureStep) {
    (CaptureState::Done, CaptureStep::Failed { failure, message: failure_text(failure, detail) })
}

/// The error text that an event carries.
pub open spec fn detail_of(event: CaptureEvent) -> Seq<char> {
    match event {
        CaptureEvent::Failed { detail } => detail@,
        _ => Seq::empty(),
    }
}

/// The next state and action of a capture at the origin (`x`, `y`).
pub open spec fn capture_step(state: CaptureState, event: CaptureEvent, x: i32, y: i32) -> (
    CaptureState,
    CaptureStep,
) {
    match (state, event) {
        (CaptureState::Done, _) => (CaptureState::Done, CaptureStep::Nothing),
        (CaptureState::Idle, CaptureEvent::Requested) => (
            CaptureState::Enumerating,
            CaptureStep::ListDisplays,
        ),
        (CaptureState::Enumerating, CaptureEvent::Displays(displays)) => match first_at_origin(
            displays@,
            x,
            y,
        ) {
            Some(i) => (
                CaptureState::ProbingDirectory { display: i as usize },
                CaptureStep::ProbeCacheDirectory,
            ),
            None => (CaptureState::Done, CaptureStep::NoMatchingDisplay),
        },
        (CaptureState::Enumerating, CaptureEvent::Failed { detail }) => failed(
            CaptureFailure::Enumerate,
            detail@,
        ),
        (CaptureState::ProbingDirectory { display }, CaptureEvent::DirectoryProbed { exists }) => {
            if exists {
                (CaptureState::Capturing, CaptureStep::CaptureDisplay { index: display })
            } else {
                (CaptureState::CreatingDirectory { display }, CaptureStep::CreateCacheDirectory)
            }
        },
        (CaptureState::ProbingDirectory { .. }, CaptureEvent::Failed { detail }) => failed(
            CaptureFailure::ResolveDirectory,
            detail@,
        ),
        (CaptureState::CreatingDirectory { display }, CaptureEvent::Succeeded) => (
            CaptureState::Capturing,
            CaptureStep::CaptureDisplay { index: display },
        ),
        (CaptureState::CreatingDirectory { .. }, CaptureEvent::Failed { detail }) => failed(
            CaptureFailure::CreateDirectory,
            detail@,
        ),
        (CaptureState::Capturing, CaptureEvent::Captured(snapshot)) => match capture_png(
            snapshot.spec_width(),
            snapshot.spec_height(),
            snapshot.spec_pixels(),
        ) {
            Ok(png) => (CaptureState::Writing, CaptureStep::WriteFullCapture { png }),
            Err(detail) => failed(CaptureFailure::Encode, detail),
        },
        (CaptureState::Capturing, CaptureEvent::Failed { detail }) => failed(
            CaptureFailure::Capture,
            detail@,
        ),
        (CaptureState::Writing, CaptureEvent::Succeeded) => (
            CaptureState::Done,
            CaptureStep::Written,
        ),
        (CaptureState::Writing, CaptureEvent::Failed { detail }) => failed(
            CaptureFailure::Write,
            detail@,
        ),
        (_, event) => failed(CaptureFailure::Unexpected, detail_of(event)),
    }
}

fn fail(failure: CaptureFailure, detail: &str) -> (res: (CaptureState, CaptureAction))
    ensures
        res.0 == failed(failure, detail@).0,
        res.1@ == failed(failure, detail@).1,
{
    (
        CaptureState::Done,
        CaptureAction::Finish(
            CaptureEnd::Failed { failure, message: failure_message(failure, detail) },
        ),
    )
}

fn out_of_turn(event: &CaptureEvent) -> (res: (CaptureState, CaptureAction))
    ensures
        res.0 == failed(CaptureFailure::Unexpected, detail_of(*event)).0,
        res.1@ == failed(CaptureFailure::Unexpected, detail_of(*event)).1,
{
    match event {
        CaptureEvent::Failed { detail } => fail(CaptureFailure::Unexpected, detail.as_str()),
        _ => {
            proof {
                reveal_strlit("");
                assert(""@ =~= Seq::<char>::empty());
            }
            fail(CaptureFailure::Unexpected, "")
        },
    }
}

/// One step of a capture of the display whose origin is (`x`, `y`): from
/// where the capture stands and what the host reports, to where it stands
/// next and what the host does next. The snapshot is encoded here; the
/// bytes to write come with the action.
pub fn screenshot(state: CaptureState, event: &CaptureEvent, x: i32, y: i32) -> (res: (
    CaptureState,
    CaptureAction,
))
    ensures
        res.0 == capture_step(state, *event, x, y).0,
        res.1@ == capture_step(state, *event, x, y).1,
{
    match state {
        CaptureState::Done => (CaptureState::Done, CaptureAction::Nothing),
        CaptureState::Idle => match event {
            CaptureEvent::Requested => (CaptureState::Enumerating, CaptureAction::ListDisplays),
            _ => out_of_turn(event),
        },
        CaptureState::Enumerating => match event {
            CaptureEvent::Displays(displays) => match select_display(displays, x, y) {
                Some(i) => (
                    CaptureState::ProbingDirectory { display: i },
                    CaptureAction::ProbeCacheDirectory,
                ),
                None => (CaptureState::Done, CaptureAction::Finish(CaptureEnd::NoMatchingDisplay)),
            },
            CaptureEvent::Failed { detail } => fail(CaptureFailure::Enumerate, detail.as_str()),
            _ => out_of_turn(event),
        },
        CaptureState::ProbingDirectory { display } => match event {
            CaptureEvent::DirectoryProbed { exists } => {
                if *exists {
                    (CaptureState::Capturing, CaptureAction::CaptureDisplay { index: display })
                } else {
                    (
                        CaptureState::CreatingDirectory { display },
                        CaptureAction::CreateCacheDirectory,
                    )
                }
            },
            CaptureEvent::Failed { detail } => fail(
                CaptureFailure::ResolveDirectory,
                detail.as_str(),
            ),
            _ => out_of_turn(event),
        },
        CaptureState::CreatingDirectory { display } => match event {
            CaptureEvent::Succeeded => (
                CaptureState::Capturing,
                CaptureAction::CaptureDisplay { index: display },
            ),
            CaptureEvent::Failed { detail } => fail(
                CaptureFailure::CreateDirectory,
                detail.as_str(),
            ),
            _ => out_of_turn(event),
        },
        CaptureState::Capturing => match event {
            CaptureEvent::Captured(snapshot) => match encode_snapshot(snapshot) {
                Ok(png) => (CaptureState::Writing, CaptureAction::WriteFullCapture { png }),
                Err(detail) => fail(CaptureFailure::Encode, detail.as_str()),
            },
            CaptureEvent::Failed { detail } => fail(CaptureFailure::Capture, detail.as_str()),
            _ => out_of_turn(event),
        },
        CaptureState::Writing => match event {
            CaptureEvent::Succeeded => (
                CaptureState::Done,
                CaptureAction::Finish(CaptureEnd::Written),
            ),
            CaptureEvent::Failed { detail } => fail(CaptureFailure::Write, detail.as_str()),
            _ => out_of_turn(event),
        },
    }
}

/// Where a capture stands, and what the host was told to do, after the events
/// `events` from the start.
pub open spec fn capture_run(events: Seq<CaptureEvent>, x: i32, y: i32) -> (
    CaptureState,
    Seq<CaptureStep>,
)
    decreases events.len(),
{
    if events.len() == 0 {
        (CaptureState::Idle, Seq::empty())
    } else {
        let (state, actions) = capture_run(events.drop_last(), x, y);
        let (next, action) = capture_step(state, events.last(), x, y);
        (next, actions.push(action))
    }
}

/// The action touches the cache directory, the display or the capture file.
pub open spec fn has_effect(action: CaptureStep) -> bool {
    match action {
        CaptureStep::CreateCacheDirectory => true,
        CaptureStep::CaptureDisplay { .. } => true,
        CaptureStep::WriteFullCapture { .. } => true,
        _ => false,
    }
}

/// A capture at coordinates that are the origin of no attached display
/// writes no file and reports no error: whatever the host reports, as long
/// as no list of displays that it reports holds a display at (`x`, `y`), the
/// capture never asks for a directory, a snapshot or a write, and the list of
/// displays itself ends the capture without a failure.
pub proof fn lemma_no_matching_display_writes_nothing(events: Seq<CaptureEvent>, x: i32, y: i32)
    requires
        forall|i: int|
            0 <= i < events.len() ==> ((#[trigger] events[i]) matches CaptureEvent::Displays(d)
                ==> first_at_origin(d@, x, y) is None),
    ensures
        ({
            let (state, actions) = capture_run(events, x, y);
            &&& actions.len() == events.len()
            &&& state is Idle || state is Enumerating || state is Done
            &&& forall|k: int| 0 <= k < actions.len() ==> !has_effect(#[trigger] actions[k])
            &&& forall|k: int|
                0 <= k < events.len() && (#[trigger] events[k]) is Displays && capture_run(
                    events.take(k),
                    x,
                    y,
                ).0 is Enumerating ==> actions[k] == CaptureStep::NoMatchingDisplay
        }),
    decreases events.len(),
{
    if events.len() > 0 {
        let shorter = events.drop_last();
        assert forall|i: int| 0 <= i < shorter.len() implies ((#[trigger] shorter[i]) matches CaptureEvent::Displays(
            d,
        ) ==> first_at_origin(d@, x, y) is None) by {
            assert(shorter[i] == events[i]);
        }
        lemma_no_matching_display_writes_nothing(shorter, x, y);
        let (state, actions) = capture_run(events, x, y);
        let (before, earlier) = capture_run(shorter, x, y);
        assert(events.last() == events[events.len() - 1]);
        assert forall|k: int|
            0 <= k < events.len() && (#[trigger] events[k]) is Displays && capture_run(
                events.take(k),
                x,
                y,
            ).0 is Enumerating implies actions[k] == CaptureStep::NoMatchingDisplay by {
            if k < events.len() - 1 {
                assert(shorter[k] == events[k]);
                assert(shorter.take(k) =~= events.take(k));
                assert(actions[k] == earlier[k]);
            } else {
                assert(events.take(k) =~= shorter);
            }
        }
    }
}

/// Nothing is written but an encoded snapshot: whatever the host reports,
/// the bytes of every write are the PNG file of the snapshot that the host
/// reported just before, and a capture ends as written only after a write.
pub proof fn lemma_only_snapshots_are_written(events: Seq<CaptureEvent>, x: i32, y: i32)
    ensures
        ({
            let (state, actions) = capture_run(events, x, y);
            &&& actions.len() == events.len()
            &&& state is Writing ==> actions.len() > 0 && actions.last() is WriteFullCapture
            &&& forall|k: int|
                0 <= k < actions.len() ==> match #[trigger] actions[k] {
                    CaptureStep::WriteFullCapture { png } => events[k] matches CaptureEvent::Captured(
                        snapshot,
                    ) && capture_png(
                        snapshot.spec_width(),
                        snapshot.spec_height(),
                        snapshot.spec_pixels(),
                    ) == Ok::<Seq<u8>, Seq<char>>(png),
                    CaptureStep::Written => k >= 1 && actions[k - 1] is WriteFullCapture,
                    _ => true,
                }
        }),
    decreases events.len(),
{
    if events.len() > 0 {
        let shorter = events.drop_last();
        lemma_only_snapshots_are_written(shorter, x, y);
        let (state, actions) = capture_run(events, x, y);
        let (before, earlier) = capture_run(shorter, x, y);
        assert(events.last() == events[events.len() - 1]);
        assert forall|k: int| 0 <= k < actions.len() implies match #[trigger] actions[k] {
            CaptureStep::WriteFullCapture { png } => events[k] matches CaptureEvent::Captured(
                snapshot,
            ) && capture_png(
                snapshot.spec_width(),
                snapshot.spec_height(),
                snapshot.spec_pixels(),
            ) == Ok::<Seq<u8>, Seq<char>>(png),
            CaptureStep::Written => k >= 1 && actions[k - 1] is WriteFullCapture,
            _ => true,
        } by {
            if k < events.len() - 1 {
                assert(shorter[k] == events[k]);
                assert(actions[k] == earlier[k]);
                if k >= 1 {
                    assert(actions[k - 1] == earlier[k - 1]);
                }
            } else if k >= 1 {
                assert(actions[k - 1] == earlier[k - 1]);
            }
        }
    }
}

} // verus!
