use ocr_insertion::focus::activation::{
    activation_script, focus_window as focus_by_activation, ActivationAction, ActivationEvent,
    ActivationState,
};
use ocr_insertion::focus::foreground::{
    focus_window as focus_past_lock, parse_hwnd, ForegroundAction, ForegroundEvent,
    ForegroundState,
};
use ocr_insertion::focus::xprotocol::{
    activation_data, focus_window as focus_by_request, RequestAction, RequestEvent, RequestState,
    ACTIVATION_ATOM, ACTIVATION_EVENT_MASK, CURRENT_TIME, SOURCE_APPLICATION,
};
use ocr_insertion::focus::{failure_message, FocusEnd, FocusFailure};
use ocr_insertion::window::WindowHandle;

fn window(app_name: &str, window_id: &str) -> WindowHandle {
    WindowHandle {
        title: "Notes".to_string(),
        app_name: app_name.to_string(),
        window_id: window_id.to_string(),
        process_id: 999,
    }
}

#[test]
fn parse_hwnd_reads_hexadecimal_between_brackets() {
    assert_eq!(parse_hwnd("HWND(0x1a2b)"), Ok(0x1a2b));
    assert_eq!(parse_hwnd("HWND(1A2B)"), Ok(0x1a2b));
    assert_eq!(parse_hwnd("  HWND(ff)\n"), Ok(255));
    assert_eq!(parse_hwnd("HWND(0x0xff)"), Ok(255));
    assert_eq!(parse_hwnd("HWND(+1f)"), Ok(31));
    assert_eq!(parse_hwnd("HWND(0x+1f)"), Ok(31));
    assert_eq!(parse_hwnd("HWND(0)"), Ok(0));
    assert_eq!(parse_hwnd("HWND(123456)"), Ok(0x123456));
    assert_eq!(parse_hwnd("HWND(ffffffff)"), Ok(0xffff_ffff));
}

#[test]
fn parse_hwnd_rejects_other_forms() {
    for id in ["", "HWND", "HWND(", "hwnd(1)", "HWND(1", "1)", "HWND 1)", "WND(1)", "HWND(1) x", "(1)"] {
        assert_eq!(parse_hwnd(id), Err(FocusFailure::InvalidWindowIdFormat), "{:?}", id);
    }
}

#[test]
fn parse_hwnd_rejects_what_is_no_number() {
    for id in [
        "HWND()",
        "HWND(0x)",
        "HWND(xyz)",
        "HWND( 1)",
        "HWND(1 )",
        "HWND(-1)",
        "HWND(+)",
        "HWND(0X1f)",
        "HWND(1fffffffffffffffffffffffffffffffff)",
        "HWND(1))",
    ] {
        assert_eq!(parse_hwnd(id), Err(FocusFailure::UnparsableWindowId), "{:?}", id);
    }
}

#[test]
fn parse_hwnd_fits_the_machine_word() {
    let most = format!("HWND({:x})", usize::MAX);
    assert_eq!(parse_hwnd(&most), Ok(usize::MAX));
    let more = format!("HWND(1{:x})", usize::MAX);
    assert_eq!(parse_hwnd(&more), Err(FocusFailure::UnparsableWindowId));
}

#[test]
fn failure_messages_are_exact() {
    let w = window("Editor", "HWND(zz)");
    let text = |f| failure_message(f, &w, "os says no");
    assert_eq!(text(FocusFailure::EmptyAppName), "previous window app name is empty");
    assert_eq!(text(FocusFailure::ActivationRefused), "failed to focus app Editor");
    assert_eq!(text(FocusFailure::InvalidWindowIdFormat), "invalid window id format: HWND(zz)");
    assert_eq!(text(FocusFailure::UnparsableWindowId), "failed to parse window id HWND(zz)");
    assert_eq!(text(FocusFailure::TargetThreadUnresolved), "failed to get target thread id");
    assert_eq!(text(FocusFailure::ForegroundRejected), "SetForegroundWindow failed");
    assert_eq!(text(FocusFailure::InvalidWindowId), "invalid window id HWND(zz)");
    assert_eq!(text(FocusFailure::ScreenMissing), "failed to get screen");
    assert_eq!(text(FocusFailure::Unexpected), "unexpected event during focus restore");
    assert_eq!(text(FocusFailure::ScriptNotRun), "os says no");
    assert_eq!(text(FocusFailure::ConnectionFailed), "os says no");
    assert_eq!(text(FocusFailure::AtomUnavailable), "os says no");
    assert_eq!(text(FocusFailure::FlushFailed), "os says no");
}

#[test]
fn activation_script_escapes_quotes() {
    assert_eq!(activation_script("Notes"), "tell application \"Notes\" to activate");
    assert_eq!(
        activation_script("My \"App\""),
        "tell application \"My \\\"App\\\"\" to activate"
    );
    assert_eq!(activation_script(""), "tell application \"\" to activate");
    assert_eq!(activation_script("a\\b"), "tell application \"a\\b\" to activate");
}

#[test]
fn activation_succeeds_at_once_or_by_script() {
    let w = window("Editor", "1");
    let (s, a) = focus_by_activation(ActivationState::Idle, ActivationEvent::Requested, &w);
    assert_eq!(s, ActivationState::Activating);
    assert_eq!(a, ActivationAction::ActivateApplication { process_id: 999 });
    assert_eq!(
        focus_by_activation(s, ActivationEvent::Activated(true), &w),
        (ActivationState::Done, ActivationAction::Finish(FocusEnd::Focused))
    );
    let (s, a) = focus_by_activation(s, ActivationEvent::Activated(false), &w);
    assert_eq!((s, a), (ActivationState::Scripting, ActivationAction::RunActivationScript));
    assert_eq!(
        focus_by_activation(s, ActivationEvent::ScriptExited { success: true }, &w),
        (ActivationState::Done, ActivationAction::Finish(FocusEnd::Focused))
    );
    assert_eq!(
        focus_by_activation(s, ActivationEvent::ScriptExited { success: false }, &w),
        (
            ActivationState::Done,
            ActivationAction::Finish(FocusEnd::Failed(FocusFailure::ActivationRefused))
        )
    );
    assert_eq!(
        focus_by_activation(s, ActivationEvent::ScriptNotRun, &w),
        (
            ActivationState::Done,
            ActivationAction::Finish(FocusEnd::Failed(FocusFailure::ScriptNotRun))
        )
    );
    assert_eq!(
        focus_by_activation(ActivationState::Done, ActivationEvent::Requested, &w),
        (ActivationState::Done, ActivationAction::Nothing)
    );
    assert_eq!(
        focus_by_activation(ActivationState::Idle, ActivationEvent::ScriptNotRun, &w),
        (
            ActivationState::Done,
            ActivationAction::Finish(FocusEnd::Failed(FocusFailure::Unexpected))
        )
    );
}

#[test]
fn activation_without_a_name_fails_after_the_first_try() {
    let w = window("", "1");
    assert_eq!(
        focus_by_activation(ActivationState::Activating, ActivationEvent::Activated(false), &w),
        (
            ActivationState::Done,
            ActivationAction::Finish(FocusEnd::Failed(FocusFailure::EmptyAppName))
        )
    );
    assert_eq!(
        focus_by_activation(ActivationState::Activating, ActivationEvent::Activated(true), &w),
        (ActivationState::Done, ActivationAction::Finish(FocusEnd::Focused))
    );
}

fn run_past_lock(id: &str, events: &[ForegroundEvent]) -> (ForegroundState, Vec<ForegroundAction>) {
    let mut state = ForegroundState::Idle;
    let mut actions = Vec::new();
    for event in events {
        let (next, action) = focus_past_lock(state, *event, id);
        state = next;
        actions.push(action);
    }
    (state, actions)
}

#[test]
fn foreground_restores_a_minimized_window_first() {
    let (state, actions) = run_past_lock(
        "HWND(0x2a)",
        &[
            ForegroundEvent::Requested,
            ForegroundEvent::Minimized(true),
            ForegroundEvent::Completed,
            ForegroundEvent::Threads { target_thread: 7, foreground_thread: 3 },
            ForegroundEvent::Completed,
            ForegroundEvent::Foreground { accepted: true },
            ForegroundEvent::Completed,
        ],
    );
    assert_eq!(state, ForegroundState::Done);
    assert_eq!(
        actions,
        vec![
            ForegroundAction::QueryMinimized { window: 42 },
            ForegroundAction::RestoreWindow { window: 42 },
            ForegroundAction::ResolveThreads { window: 42 },
            ForegroundAction::AttachInput { foreground_thread: 3, target_thread: 7 },
            ForegroundAction::RaiseAndRequestForeground { window: 42 },
            ForegroundAction::DetachInput { foreground_thread: 3, target_thread: 7 },
            ForegroundAction::Finish(FocusEnd::Focused),
        ]
    );
}

#[test]
fn foreground_detaches_after_a_rejected_request() {
    let (state, actions) = run_past_lock(
        "HWND(2a)",
        &[
            ForegroundEvent::Requested,
            ForegroundEvent::Minimized(false),
            ForegroundEvent::Threads { target_thread: 7, foreground_thread: 0 },
            ForegroundEvent::Completed,
            ForegroundEvent::Foreground { accepted: false },
            ForegroundEvent::Completed,
        ],
    );
    assert_eq!(state, ForegroundState::Done);
    assert_eq!(
        actions,
        vec![
            ForegroundAction::QueryMinimized { window: 42 },
            ForegroundAction::ResolveThreads { window: 42 },
            ForegroundAction::AttachInput { foreground_thread: 0, target_thread: 7 },
            ForegroundAction::RaiseAndRequestForeground { window: 42 },
            ForegroundAction::DetachInput { foreground_thread: 0, target_thread: 7 },
            ForegroundAction::Finish(FocusEnd::Failed(FocusFailure::ForegroundRejected)),
        ]
    );
}

#[test]
fn foreground_fails_without_a_target_thread_or_a_window() {
    let (state, actions) = run_past_lock(
        "HWND(2a)",
        &[
            ForegroundEvent::Requested,
            ForegroundEvent::Minimized(false),
            ForegroundEvent::Threads { target_thread: 0, foreground_thread: 3 },
        ],
    );
    assert_eq!(state, ForegroundState::Done);
    assert_eq!(
        actions[2],
        ForegroundAction::Finish(FocusEnd::Failed(FocusFailure::TargetThreadUnresolved))
    );
    assert_eq!(
        run_past_lock("42", &[ForegroundEvent::Requested]),
        (
            ForegroundState::Done,
            vec![ForegroundAction::Finish(FocusEnd::Failed(FocusFailure::InvalidWindowIdFormat))]
        )
    );
    assert_eq!(
        run_past_lock("HWND(zz)", &[ForegroundEvent::Requested]),
        (
            ForegroundState::Done,
            vec![ForegroundAction::Finish(FocusEnd::Failed(FocusFailure::UnparsableWindowId))]
        )
    );
}

#[test]
fn request_to_window_manager_runs_in_order() {
    let id = "4194311";
    let mut state = RequestState::Idle;
    let mut actions = Vec::new();
    for event in [
        RequestEvent::Requested,
        RequestEvent::Succeeded,
        RequestEvent::Succeeded,
        RequestEvent::Succeeded,
        RequestEvent::Succeeded,
        RequestEvent::Succeeded,
    ] {
        let (next, action) = focus_by_request(state, event, id);
        state = next;
        actions.push(action);
    }
    assert_eq!(state, RequestState::Done);
    assert_eq!(
        actions,
        vec![
            RequestAction::Connect,
            RequestAction::FindRoot,
            RequestAction::InternAtom,
            RequestAction::SendActivation { window: 4194311 },
            RequestAction::Flush,
            RequestAction::Finish(FocusEnd::Focused),
        ]
    );
}

#[test]
fn request_to_window_manager_fails_where_a_step_fails() {
    let failed = |f| (RequestState::Done, RequestAction::Finish(FocusEnd::Failed(f)));
    assert_eq!(
        focus_by_request(RequestState::Idle, RequestEvent::Requested, "0x10"),
        failed(FocusFailure::InvalidWindowId)
    );
    assert_eq!(
        focus_by_request(RequestState::Idle, RequestEvent::Requested, "4294967296"),
        failed(FocusFailure::InvalidWindowId)
    );
    assert_eq!(
        focus_by_request(RequestState::Connecting { window: 1 }, RequestEvent::Failed, "1"),
        failed(FocusFailure::ConnectionFailed)
    );
    assert_eq!(
        focus_by_request(RequestState::FindingRoot { window: 1 }, RequestEvent::Failed, "1"),
        failed(FocusFailure::ScreenMissing)
    );
    assert_eq!(
        focus_by_request(RequestState::Interning { window: 1 }, RequestEvent::Failed, "1"),
        failed(FocusFailure::AtomUnavailable)
    );
    assert_eq!(
        focus_by_request(RequestState::Flushing, RequestEvent::Failed, "1"),
        failed(FocusFailure::FlushFailed)
    );
    assert_eq!(
        focus_by_request(RequestState::Sending, RequestEvent::Failed, "1"),
        (RequestState::Flushing, RequestAction::Flush)
    );
}

#[test]
fn activation_request_has_the_protocol_values() {
    assert_eq!(activation_data(4194311), [1, 0, 4194311, 0, 0]);
    assert_eq!(ACTIVATION_ATOM, "_NET_ACTIVE_WINDOW");
    assert_eq!(SOURCE_APPLICATION, 1);
    assert_eq!(CURRENT_TIME, xcb::x::CURRENT_TIME);
    let mask = xcb::x::EventMask::SUBSTRUCTURE_REDIRECT | xcb::x::EventMask::SUBSTRUCTURE_NOTIFY;
    assert_eq!(ACTIVATION_EVENT_MASK, mask.bits());
}

#[test]
fn events_out_of_turn_end_a_restore() {
    assert_eq!(
        focus_past_lock(ForegroundState::Probing { window: 1 }, ForegroundEvent::Completed, "HWND(1)"),
        (
            ForegroundState::Done,
            ForegroundAction::Finish(FocusEnd::Failed(FocusFailure::Unexpected))
        )
    );
    assert_eq!(
        focus_past_lock(
            ForegroundState::Requesting { foreground_thread: 3, target_thread: 7 },
            ForegroundEvent::Completed,
            "HWND(1)"
        ),
        (
            ForegroundState::Detaching { accepted: false },
            ForegroundAction::DetachInput { foreground_thread: 3, target_thread: 7 }
        )
    );
    assert_eq!(
        focus_by_request(RequestState::Idle, RequestEvent::Succeeded, "1"),
        (RequestState::Done, RequestAction::Finish(FocusEnd::Failed(FocusFailure::Unexpected)))
    );
    assert_eq!(
        focus_by_request(RequestState::Done, RequestEvent::Requested, "1"),
        (RequestState::Done, RequestAction::Nothing)
    );
    assert_eq!(
        focus_past_lock(ForegroundState::Done, ForegroundEvent::Requested, "HWND(1)"),
        (ForegroundState::Done, ForegroundAction::Nothing)
    );
}
