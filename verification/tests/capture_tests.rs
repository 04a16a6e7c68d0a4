use ocr_insertion::capture::{
    failure_message, screenshot, select_display, CaptureAction, CaptureEnd, CaptureEvent,
    CaptureFailure, CaptureState, DisplayInfo, CACHE_DIRECTORY, FULL_CAPTURE_FILE,
};
use ocr_insertion::crop::Raster;

fn display(id: u32, x: i32, y: i32) -> DisplayInfo {
    DisplayInfo { id, x, y, width: 100, height: 100 }
}

fn snapshot(width: u32, height: u32) -> Raster {
    let mut pixels = Vec::new();
    for y in 0..height {
        for x in 0..width {
            pixels.extend_from_slice(&[x as u8, y as u8, 7, 255]);
        }
    }
    Raster::new(width, height, pixels).unwrap()
}

fn failure(detail: &str) -> CaptureEvent {
    CaptureEvent::Failed { detail: detail.to_string() }
}

fn failed(failure: CaptureFailure, message: &str) -> (CaptureState, CaptureAction) {
    (
        CaptureState::Done,
        CaptureAction::Finish(CaptureEnd::Failed { failure, message: message.to_string() }),
    )
}

fn run(x: i32, y: i32, events: Vec<CaptureEvent>) -> (CaptureState, Vec<CaptureAction>) {
    let mut state = CaptureState::Idle;
    let mut actions = Vec::new();
    for event in &events {
        let (next, action) = screenshot(state, event, x, y);
        state = next;
        actions.push(action);
    }
    (state, actions)
}

#[test]
fn select_display_takes_the_first_at_the_origin() {
    let displays = vec![display(1, 0, 0), display(2, 1920, 0), display(3, 1920, 0), display(4, -5, 7)];
    assert_eq!(select_display(&displays, 0, 0), Some(0));
    assert_eq!(select_display(&displays, 1920, 0), Some(1));
    assert_eq!(select_display(&displays, -5, 7), Some(3));
    assert_eq!(select_display(&displays, 0, 1920), None);
    assert_eq!(select_display(&displays, 1, 0), None);
    assert_eq!(select_display(&Vec::new(), 0, 0), None);
}

#[test]
fn capture_without_matching_display_does_nothing() {
    let (state, actions) = run(
        5,
        5,
        vec![CaptureEvent::Requested, CaptureEvent::Displays(vec![display(1, 0, 0), display(2, 100, 0)])],
    );
    assert_eq!(state, CaptureState::Done);
    assert_eq!(
        actions,
        vec![CaptureAction::ListDisplays, CaptureAction::Finish(CaptureEnd::NoMatchingDisplay)]
    );
    let (state, actions) = run(0, 0, vec![CaptureEvent::Requested, CaptureEvent::Displays(Vec::new())]);
    assert_eq!(state, CaptureState::Done);
    assert_eq!(actions[1], CaptureAction::Finish(CaptureEnd::NoMatchingDisplay));
}

#[test]
fn capture_writes_the_display_at_the_origin() {
    let (state, mut actions) = run(
        0,
        0,
        vec![
            CaptureEvent::Requested,
            CaptureEvent::Displays(vec![display(9, 50, 0), display(1, 0, 0)]),
            CaptureEvent::DirectoryProbed { exists: false },
            CaptureEvent::Succeeded,
            CaptureEvent::Captured(snapshot(6, 4)),
            CaptureEvent::Succeeded,
        ],
    );
    assert_eq!(state, CaptureState::Done);
    assert_eq!(actions.len(), 6);
    assert_eq!(actions[0], CaptureAction::ListDisplays);
    assert_eq!(actions[1], CaptureAction::ProbeCacheDirectory);
    assert_eq!(actions[2], CaptureAction::CreateCacheDirectory);
    assert_eq!(actions[3], CaptureAction::CaptureDisplay { index: 1 });
    assert_eq!(actions[5], CaptureAction::Finish(CaptureEnd::Written));
    let png = match actions.remove(4) {
        CaptureAction::WriteFullCapture { png } => png,
        other => panic!("expected a write, got {:?}", other),
    };
    assert_ne!(&png, snapshot(6, 4).pixels());
    let decoded = image::load_from_memory_with_format(&png, image::ImageFormat::Png)
        .unwrap()
        .to_rgba8();
    assert_eq!((decoded.width(), decoded.height()), (6, 4));
    assert_eq!(&decoded.into_raw(), snapshot(6, 4).pixels());
}

#[test]
fn capture_keeps_an_existing_directory() {
    let (_, actions) = run(
        0,
        0,
        vec![
            CaptureEvent::Requested,
            CaptureEvent::Displays(vec![display(1, 0, 0)]),
            CaptureEvent::DirectoryProbed { exists: true },
        ],
    );
    assert_eq!(actions[2], CaptureAction::CaptureDisplay { index: 0 });
    assert!(!actions.contains(&CaptureAction::CreateCacheDirectory));
}

#[test]
fn capture_stops_at_the_first_failure() {
    let fail = failure("denied");
    assert_eq!(
        screenshot(CaptureState::Enumerating, &fail, 0, 0),
        failed(CaptureFailure::Enumerate, "Failed to get screens: denied")
    );
    assert_eq!(
        screenshot(CaptureState::ProbingDirectory { display: 0 }, &fail, 0, 0),
        failed(CaptureFailure::ResolveDirectory, "Failed to resolve ocr_images directory: denied")
    );
    assert_eq!(
        screenshot(CaptureState::CreatingDirectory { display: 0 }, &fail, 0, 0),
        failed(CaptureFailure::CreateDirectory, "Failed to create ocr_images directory: denied")
    );
    assert_eq!(
        screenshot(CaptureState::Capturing, &fail, 0, 0),
        failed(CaptureFailure::Capture, "Failed to capture screen: denied")
    );
    assert_eq!(
        screenshot(CaptureState::Writing, &fail, 0, 0),
        failed(CaptureFailure::Write, "Failed to write screenshot file: denied")
    );
    assert_eq!(
        screenshot(CaptureState::Idle, &fail, 0, 0),
        failed(CaptureFailure::Unexpected, "Unexpected event during capture: denied")
    );
    assert_eq!(
        screenshot(CaptureState::Idle, &CaptureEvent::Succeeded, 0, 0),
        failed(CaptureFailure::Unexpected, "Unexpected event during capture: ")
    );
    assert_eq!(
        screenshot(CaptureState::Done, &CaptureEvent::Requested, 0, 0),
        (CaptureState::Done, CaptureAction::Nothing)
    );
}

#[test]
fn capture_that_cannot_be_encoded_writes_nothing() {
    let (state, actions) = run(
        0,
        0,
        vec![
            CaptureEvent::Requested,
            CaptureEvent::Displays(vec![display(1, 0, 0)]),
            CaptureEvent::DirectoryProbed { exists: true },
            CaptureEvent::Captured(snapshot(0, 0)),
            CaptureEvent::Succeeded,
        ],
    );
    assert_eq!(state, CaptureState::Done);
    assert!(!actions.iter().any(|a| matches!(a, CaptureAction::WriteFullCapture { .. })));
    match &actions[3] {
        CaptureAction::Finish(CaptureEnd::Failed { failure, message }) => {
            assert_eq!(*failure, CaptureFailure::Encode);
            assert!(message.starts_with("Failed to convert image to PNG: "));
            assert!(message.len() > "Failed to convert image to PNG: ".len());
        }
        other => panic!("expected an encode failure, got {:?}", other),
    }
    assert_eq!(actions[4], CaptureAction::Nothing);
}

#[test]
fn capture_names_its_files_and_failures() {
    assert_eq!(CACHE_DIRECTORY, "ocr_images");
    assert_eq!(FULL_CAPTURE_FILE, "fullscreen.png");
    assert_eq!(failure_message(CaptureFailure::Enumerate, "x"), "Failed to get screens: x");
    assert_eq!(
        failure_message(CaptureFailure::Encode, "bad"),
        "Failed to convert image to PNG: bad"
    );
}
