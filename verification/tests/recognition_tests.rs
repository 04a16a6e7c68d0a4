use ocr_insertion::capture::{
    screenshot, CaptureAction, CaptureEnd, CaptureEvent, CaptureState, DisplayInfo,
};
use ocr_insertion::crop::{cut_image, CutOutcome, Raster};
use ocr_insertion::ocr::{
    do_finish_ocr, do_ocr, failure_message, finish_ocr, ocr, start_ocr, OcrAction, OcrEnd,
    OcrEvent, OcrFailure, OcrState,
};
use ocr_insertion::recognition::{
    do_ocr_with_cut_file_path, helper_arguments, helper_for, helper_resource, helper_result,
    join_lines, plain_path, HelperBinary, RecognitionEngine,
};
use ocr_insertion::window::{remember_active_window, ActiveWindowTracker, WindowHandle};

fn lines(items: &[&str]) -> Vec<String> {
    items.iter().map(|s| s.to_string()).collect()
}

#[test]
fn lines_are_joined_with_line_feeds() {
    assert_eq!(join_lines(&lines(&["Hello", "World"])), "Hello\nWorld\n");
    assert_eq!(join_lines(&lines(&[])), "");
    assert_eq!(join_lines(&lines(&["one"])), "one\n");
    assert_eq!(join_lines(&lines(&["  padded \t", "", " x"])), "padded\n\nx\n");
}

#[test]
fn helper_build_follows_the_vendor() {
    assert_eq!(helper_for("Apple"), HelperBinary::Apple);
    assert_eq!(helper_for("GenuineIntel"), HelperBinary::Intel);
    assert_eq!(helper_for("apple"), HelperBinary::Intel);
    assert_eq!(helper_for("Apple "), HelperBinary::Intel);
    assert_eq!(helper_for(""), HelperBinary::Intel);
    assert_eq!(helper_resource(HelperBinary::Apple), "resources/bin/ocr_apple");
    assert_eq!(helper_resource(HelperBinary::Intel), "resources/bin/ocr_intel");
}

#[test]
fn helper_gets_the_crop_and_the_language() {
    assert_eq!(
        helper_arguments("/cache/ocr_images/cut.png"),
        vec!["/cache/ocr_images/cut.png".to_string(), "-l".to_string(), "zh".to_string()]
    );
}

#[test]
fn helper_output_is_forwarded_as_it_is() {
    let out = "line one\n  line two  \n".as_bytes().to_vec();
    assert_eq!(
        helper_result(true, Some(0), &out, &Vec::new()),
        Ok("line one\n  line two  \n".to_string())
    );
    assert_eq!(helper_result(true, None, &Vec::new(), &b"ignored".to_vec()), Ok(String::new()));
}

#[test]
fn helper_output_that_is_no_utf8_is_read_lossily() {
    let out = vec![b'a', 0xff, b'b'];
    assert_eq!(helper_result(true, Some(0), &out, &Vec::new()), Ok("a\u{FFFD}b".to_string()));
    assert_eq!(
        helper_result(false, Some(2), &Vec::new(), &out),
        Err("OCR binary failed with exit code Some(2): a\u{FFFD}b".to_string())
    );
}

#[test]
fn helper_failure_carries_exit_code_and_stderr() {
    let err = b"no screen".to_vec();
    assert_eq!(
        helper_result(false, Some(1), &b"partial".to_vec(), &err),
        Err("OCR binary failed with exit code Some(1): no screen".to_string())
    );
    assert_eq!(
        helper_result(false, Some(-11), &Vec::new(), &err),
        Err("OCR binary failed with exit code Some(-11): no screen".to_string())
    );
    assert_eq!(
        helper_result(false, None, &Vec::new(), &Vec::new()),
        Err("OCR binary failed with exit code None: ".to_string())
    );
}

#[test]
fn verbatim_marker_is_taken_out_of_the_path() {
    assert_eq!(plain_path("\\\\?\\C:\\cache\\cut.png"), "C:\\cache\\cut.png");
    assert_eq!(plain_path("C:\\cache\\cut.png"), "C:\\cache\\cut.png");
    assert_eq!(plain_path("\\\\?\\\\\\?\\x"), "x");
    assert_eq!(plain_path(""), "");
}

#[test]
fn on_device_outcome_becomes_text_or_advice() {
    let recognised = lines(&[" Hello ", "World"]);
    assert_eq!(do_ocr_with_cut_file_path(Ok(&recognised)), Ok("Hello\nWorld\n".to_string()));
    assert_eq!(
        do_ocr_with_cut_file_path(Err("The operation completed successfully. (0x00000000)")),
        Err("Language package not installed!\n\nSee: https://learn.microsoft.com/zh-cn/windows/powertoys/text-extractor#supported-languages".to_string())
    );
    assert_eq!(
        do_ocr_with_cut_file_path(Err("Access is denied. (0x80070005)")),
        Err("Access is denied. (0x80070005)".to_string())
    );
}

#[test]
fn start_trigger_depends_on_the_engine() {
    assert_eq!(
        start_ocr(RecognitionEngine::OnDeviceService, "GenuineIntel"),
        (OcrState::Done, OcrAction::ShowCaptureOverlay)
    );
    assert_eq!(
        start_ocr(RecognitionEngine::ExternalHelper, "Apple"),
        (OcrState::ResolvingHelper, OcrAction::ResolveHelper { binary: HelperBinary::Apple })
    );
    assert_eq!(
        ocr(RecognitionEngine::ExternalHelper, "GenuineIntel"),
        (OcrState::ResolvingHelper, OcrAction::ResolveHelper { binary: HelperBinary::Intel })
    );
    assert_eq!(
        start_ocr(RecognitionEngine::Unsupported, "Apple"),
        (OcrState::Done, OcrAction::Finish(OcrEnd::NothingRecognized))
    );
}

#[test]
fn finish_trigger_depends_on_the_engine() {
    assert_eq!(
        finish_ocr(RecognitionEngine::OnDeviceService),
        (OcrState::ResolvingCrop, OcrAction::ResolveCropPath)
    );
    assert_eq!(
        finish_ocr(RecognitionEngine::ExternalHelper),
        (OcrState::Done, OcrAction::Finish(OcrEnd::NothingRecognized))
    );
    assert_eq!(
        finish_ocr(RecognitionEngine::Unsupported),
        (OcrState::Done, OcrAction::Finish(OcrEnd::NothingRecognized))
    );
}

#[test]
fn helper_flow_forwards_remembers_and_surfaces() {
    let engine = RecognitionEngine::ExternalHelper;
    let mut state = OcrState::Idle;
    let mut actions = Vec::new();
    for event in [
        OcrEvent::Requested,
        OcrEvent::Succeeded,
        OcrEvent::Probed { exists: true },
        OcrEvent::Succeeded,
        OcrEvent::Succeeded,
        OcrEvent::Succeeded,
        OcrEvent::Succeeded,
    ] {
        let (next, action) = do_ocr(engine, state, event, "Apple");
        state = next;
        actions.push(action);
    }
    assert_eq!(state, OcrState::Done);
    assert_eq!(
        actions,
        vec![
            OcrAction::ResolveHelper { binary: HelperBinary::Apple },
            OcrAction::ProbeHelper,
            OcrAction::RunHelper,
            OcrAction::ForwardText,
            OcrAction::RememberWindow,
            OcrAction::ShowResultWindow,
            OcrAction::Finish(OcrEnd::Recognized),
        ]
    );
}

#[test]
fn helper_flow_fails_without_forwarding() {
    let engine = RecognitionEngine::ExternalHelper;
    let failed = |f| (OcrState::Done, OcrAction::Finish(OcrEnd::Failed(f)));
    assert_eq!(
        do_ocr(engine, OcrState::ResolvingHelper, OcrEvent::Failed, "x"),
        failed(OcrFailure::HelperUnresolved)
    );
    assert_eq!(
        do_ocr(engine, OcrState::ProbingHelper, OcrEvent::Probed { exists: false }, "x"),
        failed(OcrFailure::HelperMissing)
    );
    assert_eq!(
        do_ocr(engine, OcrState::RunningHelper, OcrEvent::NotStarted, "x"),
        failed(OcrFailure::HelperNotRun)
    );
    assert_eq!(
        do_ocr(engine, OcrState::RunningHelper, OcrEvent::Failed, "x"),
        failed(OcrFailure::HelperFailed)
    );
    assert_eq!(
        do_ocr(engine, OcrState::Idle, OcrEvent::Succeeded, "x"),
        failed(OcrFailure::Unexpected)
    );
    assert_eq!(
        do_ocr(engine, OcrState::Done, OcrEvent::Requested, "x"),
        (OcrState::Done, OcrAction::Nothing)
    );
}

#[test]
fn recognition_failure_forwards_nothing() {
    let engine = RecognitionEngine::OnDeviceService;
    let mut state = OcrState::Idle;
    let mut actions = Vec::new();
    for event in [OcrEvent::Requested, OcrEvent::Succeeded, OcrEvent::Failed, OcrEvent::Succeeded] {
        let (next, action) = do_finish_ocr(engine, state, event);
        state = next;
        actions.push(action);
    }
    assert_eq!(
        actions,
        vec![
            OcrAction::ResolveCropPath,
            OcrAction::RecognizeCrop,
            OcrAction::Finish(OcrEnd::Failed(OcrFailure::EngineFailed)),
            OcrAction::Nothing,
        ]
    );
    assert_eq!(
        do_finish_ocr(engine, OcrState::ResolvingCrop, OcrEvent::Failed),
        (OcrState::Done, OcrAction::Finish(OcrEnd::Failed(OcrFailure::CropUnresolved)))
    );
}

#[test]
fn capture_crop_recognise_end_to_end() {
    // The capture: one display of 100 by 100 at the origin.
    let displays = vec![DisplayInfo { id: 1, x: 0, y: 0, width: 100, height: 100 }];
    let mut state = CaptureState::Idle;
    let mut fullscreen: Option<Vec<u8>> = None;
    let mut event = CaptureEvent::Requested;
    loop {
        let (next, action) = screenshot(state, &event, 0, 0);
        state = next;
        event = match action {
            CaptureAction::ListDisplays => CaptureEvent::Displays(displays.clone()),
            CaptureAction::ProbeCacheDirectory => CaptureEvent::DirectoryProbed { exists: true },
            CaptureAction::CreateCacheDirectory => CaptureEvent::Succeeded,
            CaptureAction::CaptureDisplay { index } => {
                let shown = displays[index];
                let mut pixels = Vec::new();
                for y in 0..shown.height {
                    for x in 0..shown.width {
                        pixels.extend_from_slice(&[x as u8, y as u8, 0, 255]);
                    }
                }
                CaptureEvent::Captured(Raster::new(shown.width, shown.height, pixels).unwrap())
            }
            CaptureAction::WriteFullCapture { png } => {
                fullscreen = Some(png);
                CaptureEvent::Succeeded
            }
            CaptureAction::Finish(end) => {
                assert_eq!(end, CaptureEnd::Written);
                break;
            }
            CaptureAction::Nothing => panic!("the capture went on after its end"),
        };
    }
    let fullscreen = fullscreen.expect("fullscreen.png was written");

    // The crop: 50 by 20 at (10, 10).
    let cut = match cut_image(Some(&fullscreen), 10, 10, 50, 20) {
        CutOutcome::Written(bytes) => bytes,
        other => panic!("expected cut.png, got {:?}", other),
    };
    let decoded = image::load_from_memory_with_format(&cut, image::ImageFormat::Png).unwrap();
    assert_eq!((decoded.width(), decoded.height()), (50, 20));
    assert_eq!(decoded.to_rgba8().get_pixel(0, 0).0, [10, 10, 0, 255]);
    assert_eq!(decoded.to_rgba8().get_pixel(49, 19).0, [59, 29, 0, 255]);

    // The recognition: the engine returns two lines.
    let recognised = lines(&["Hello", "World"]);
    let mut tracker = ActiveWindowTracker::new(500);
    let mut log: Vec<String> = Vec::new();
    let mut forwarded: Option<String> = None;
    let mut state = OcrState::Idle;
    let mut event = OcrEvent::Requested;
    loop {
        let (next, action) = do_finish_ocr(RecognitionEngine::OnDeviceService, state, event);
        state = next;
        event = match action {
            OcrAction::ResolveCropPath => OcrEvent::Succeeded,
            OcrAction::RecognizeCrop => match do_ocr_with_cut_file_path(Ok(&recognised)) {
                Ok(text) => {
                    forwarded = Some(text);
                    OcrEvent::Succeeded
                }
                Err(_) => OcrEvent::Failed,
            },
            OcrAction::ForwardText => {
                log.push(format!("forward {:?}", forwarded.clone().unwrap()));
                OcrEvent::Succeeded
            }
            OcrAction::RememberWindow => {
                remember_active_window(
                    &mut tracker,
                    Ok(WindowHandle {
                        title: "Notes".to_string(),
                        app_name: "Notes".to_string(),
                        window_id: "77".to_string(),
                        process_id: 999,
                    }),
                );
                log.push("remember".to_string());
                OcrEvent::Succeeded
            }
            OcrAction::ShowResultWindow => {
                log.push("surface".to_string());
                OcrEvent::Succeeded
            }
            OcrAction::Finish(end) => {
                assert_eq!(end, OcrEnd::Recognized);
                break;
            }
            other => panic!("unexpected action {:?}", other),
        };
    }
    assert_eq!(forwarded.unwrap(), "Hello\nWorld\n");
    assert_eq!(log, vec!["forward \"Hello\\nWorld\\n\"", "remember", "surface"]);
    assert_eq!(tracker.snapshot().unwrap().process_id, 999);
}

#[test]
fn recognition_failures_are_named_in_words() {
    let text = |f| failure_message(f, "\"/res/ocr_intel\"", "No such file");
    assert_eq!(
        failure_message(OcrFailure::HelperUnresolved, "resources/bin/ocr_intel", "unknown path"),
        "Failed to resolve ocr binary resource 'resources/bin/ocr_intel': unknown path"
    );
    assert_eq!(
        text(OcrFailure::HelperMissing),
        "OCR binary not found at \"/res/ocr_intel\". Please ensure the binary is bundled correctly."
    );
    assert_eq!(
        text(OcrFailure::HelperNotRun),
        "Failed to execute ocr binary at \"/res/ocr_intel\": No such file"
    );
    assert_eq!(text(OcrFailure::HelperFailed), "No such file");
    assert_eq!(text(OcrFailure::EngineFailed), "No such file");
    assert_eq!(
        text(OcrFailure::CropUnresolved),
        "Failed to resolve ocr_images directory: No such file"
    );
    assert_eq!(text(OcrFailure::Unexpected), "unexpected event during recognition");
}
