use os_monitor::monitoring::{
    platform_detect_changes, platform_detect_changes_with_deps, should_flush, DefaultDependencies,
    EventSender, FocusedWindowDetector,
};
use os_monitor::{AppEvent, Monitor};
use os_monitor::focus::FocusSample;

struct MockDependencies {
    focused_window_detected: bool,
    should_send_events: bool,
    events_sent: bool,
}

impl FocusedWindowDetector for MockDependencies {
    fn detect_focused_window(&mut self) {
        self.focused_window_detected = true;
    }
}

impl EventSender for MockDependencies {
    fn send_buffered_events(&mut self) {
        self.events_sent = true;
    }

    fn should_send_events(&self) -> bool {
        self.should_send_events
    }

    fn mark_events_sent(&mut self) {
        // Nothing to do in the mock
    }
}

#[test]
fn test_platform_detect_changes() {
    // Setup
    let mut deps = MockDependencies {
        focused_window_detected: false,
        should_send_events: true,
        events_sent: false,
    };

    // Execute
    let result = platform_detect_changes_with_deps(&mut deps);

    // Verify
    assert!(result.is_ok());
    assert!(
        deps.focused_window_detected,
        "detect_focused_window should be called"
    );
    assert!(
        deps.events_sent,
        "send_buffered_events should be called when should_send_events is true"
    );

    // Test when events shouldn't be sent
    let mut deps = MockDependencies {
        focused_window_detected: false,
        should_send_events: false,
        events_sent: false,
    };

    let result = platform_detect_changes_with_deps(&mut deps);

    assert!(result.is_ok());
    assert!(
        deps.focused_window_detected,
        "detect_focused_window should always be called"
    );
    assert!(
        !deps.events_sent,
        "send_buffered_events should not be called when should_send_events is false"
    );
}

#[test]
fn test_should_flush_interval() {
    assert!(!should_flush(0, 0));
    assert!(!should_flush(29999, 0));
    assert!(should_flush(30000, 0));
    assert!(should_flush(90000, 10000));
    // A clock reading before the recorded flush is never due.
    assert!(!should_flush(5, 10));
}

#[test]
fn test_default_dependencies_cycle_publishes_window_event() {
    let monitor = Monitor::new();
    let mut receiver = monitor.subscribe();
    let mut deps = DefaultDependencies::new(monitor, 0);

    deps.pending_sample = Some(FocusSample {
        app_name: "Editor".to_string(),
        window_title: "notes.txt".to_string(),
        bundle_id: Some("com.example.editor".to_string()),
        url: None,
    });
    let result = platform_detect_changes(&mut deps);
    assert!(result.is_ok());

    match receiver.try_recv() {
        Ok(AppEvent::Window(e)) => {
            assert_eq!(e.app_name, "Editor");
            assert_eq!(e.window_title, "notes.txt");
            assert_eq!(e.bundle_id.as_deref(), Some("com.example.editor"));
            assert_eq!(e.url, None);
        }
        other => panic!("expected a window event, got {:?}", other),
    }

    // The same sample again: deduplicated, nothing published.
    deps.pending_sample = Some(FocusSample {
        app_name: "Editor".to_string(),
        window_title: "notes.txt".to_string(),
        bundle_id: Some("com.example.editor".to_string()),
        url: None,
    });
    let result = platform_detect_changes(&mut deps);
    assert!(result.is_ok());
    assert!(receiver.try_recv().is_err());
}

#[test]
fn test_default_dependencies_flush_on_interval() {
    let monitor = Monitor::new();
    let mut receiver = monitor.subscribe();
    let mut deps = DefaultDependencies::new(monitor, 0);

    deps.flags.record_mouse();

    // Before the interval: the cycle must not flush.
    deps.now_ms = 29000;
    platform_detect_changes(&mut deps).unwrap();
    assert!(receiver.try_recv().is_err());

    // Past the interval: exactly one keyboard tick and one mouse tick.
    deps.now_ms = 30000;
    platform_detect_changes(&mut deps).unwrap();
    match receiver.try_recv() {
        Ok(AppEvent::Keyboard(activity)) => assert!(!activity),
        other => panic!("expected a keyboard tick, got {:?}", other),
    }
    match receiver.try_recv() {
        Ok(AppEvent::Mouse(activity)) => assert!(activity),
        other => panic!("expected a mouse tick, got {:?}", other),
    }
    assert!(receiver.try_recv().is_err());

    // The flush was recorded: the next cycle does not flush again.
    deps.now_ms = 31000;
    platform_detect_changes(&mut deps).unwrap();
    assert!(receiver.try_recv().is_err());
}
