use ocr_insertion::window::{
    describe_window, focus_previous_window, is_translator_process, remember_active_window,
    remember_active_window_command, ActiveWindowTracker, WindowHandle,
};

fn window(pid: u64, title: &str) -> WindowHandle {
    WindowHandle {
        title: title.to_string(),
        app_name: "Editor".to_string(),
        window_id: "4194311".to_string(),
        process_id: pid,
    }
}

#[test]
fn remember_stores_foreign_window_and_skips_own() {
    let mut tracker = ActiveWindowTracker::new(500);
    assert!(tracker.snapshot().is_none());
    remember_active_window(&mut tracker, Ok(window(999, "Notes")));
    let held = tracker.snapshot().expect("a window is held");
    assert_eq!(held.process_id, 999);
    assert_eq!(held.title, "Notes");
    remember_active_window(&mut tracker, Ok(window(500, "Translator")));
    let held = tracker.snapshot().expect("the window is still held");
    assert_eq!(held.process_id, 999);
    assert_eq!(held.title, "Notes");
}

#[test]
fn remember_never_stores_own_window() {
    let mut tracker = ActiveWindowTracker::new(42);
    remember_active_window(&mut tracker, Ok(window(42, "Self")));
    assert!(tracker.snapshot().is_none());
    assert!(!tracker.has_window());
}

#[test]
fn failed_query_leaves_slot_unchanged() {
    let mut tracker = ActiveWindowTracker::new(1);
    remember_active_window(&mut tracker, Err(()));
    assert!(tracker.snapshot().is_none());
    remember_active_window(&mut tracker, Ok(window(7, "Mail")));
    remember_active_window(&mut tracker, Err(()));
    remember_active_window(&mut tracker, Err(()));
    let held = tracker.snapshot().unwrap();
    assert_eq!(held.process_id, 7);
    assert_eq!(held.title, "Mail");
    assert_eq!(held.app_name, "Editor");
    assert_eq!(held.window_id, "4194311");
}

#[test]
fn remember_overwrites_with_last_foreign_window() {
    let mut tracker = ActiveWindowTracker::new(1);
    remember_active_window(&mut tracker, Ok(window(7, "Mail")));
    remember_active_window(&mut tracker, Ok(window(8, "Browser")));
    assert_eq!(tracker.snapshot().unwrap().title, "Browser");
}

#[test]
fn command_reports_whether_a_window_is_held() {
    let mut tracker = ActiveWindowTracker::new(500);
    assert!(!remember_active_window_command(&mut tracker, Err(())));
    assert!(!remember_active_window_command(&mut tracker, Ok(window(500, "Self"))));
    assert!(remember_active_window_command(&mut tracker, Ok(window(999, "Notes"))));
    assert!(remember_active_window_command(&mut tracker, Err(())));
    assert!(remember_active_window_command(&mut tracker, Ok(window(500, "Self"))));
    assert_eq!(tracker.snapshot().unwrap().process_id, 999);
}

#[test]
fn translator_process_is_recognised_by_pid() {
    assert!(is_translator_process(&window(500, "x"), 500));
    assert!(!is_translator_process(&window(999, "x"), 500));
}

#[test]
fn describe_window_names_every_field() {
    let text = describe_window(&window(999, "Notes"));
    assert_eq!(text, "title='Notes', app='Editor', pid=999, id=4194311");
    let zero = describe_window(&WindowHandle {
        title: String::new(),
        app_name: String::new(),
        window_id: String::new(),
        process_id: 0,
    });
    assert_eq!(zero, "title='', app='', pid=0, id=");
    let large = describe_window(&window(u64::MAX, "t"));
    assert_eq!(large, "title='t', app='Editor', pid=18446744073709551615, id=4194311");
}

#[test]
fn focus_previous_window_needs_a_window() {
    let mut tracker = ActiveWindowTracker::new(500);
    let missing = focus_previous_window(&tracker);
    assert_eq!(missing.err().unwrap(), "no previous window recorded");
    remember_active_window(&mut tracker, Ok(window(999, "Notes")));
    let found = focus_previous_window(&tracker).unwrap();
    assert_eq!(found.process_id, 999);
    assert_eq!(found.title, "Notes");
}

#[test]
fn snapshot_is_a_copy() {
    let mut tracker = ActiveWindowTracker::new(500);
    remember_active_window(&mut tracker, Ok(window(999, "Notes")));
    let mut copy = tracker.snapshot().unwrap();
    copy.title.push_str(" changed");
    let again = copy.clone();
    assert_eq!(again.title, "Notes changed");
    assert_eq!(tracker.snapshot().unwrap().title, "Notes");
}
