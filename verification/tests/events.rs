use os_monitor::event::blocked_apps_from_raw;
use os_monitor::{
    convert_mouse_event_type, AppEvent, BlockedApp, BlockedAppEvent, Monitor, MonitorError,
    MouseEventType, Platform, WindowEvent,
};

#[test]
fn test_multiple_receivers() {
    // Create a monitor
    let monitor = Monitor::new();

    // Create three receivers
    let mut receiver1 = monitor.subscribe();
    let mut receiver2 = monitor.subscribe();
    let mut receiver3 = monitor.subscribe();

    // Send a mouse event
    monitor.send_mouse_event(true);

    // Test that all receivers get the event
    match receiver1.blocking_recv() {
        Ok(AppEvent::Mouse(activity)) => assert!(activity),
        _ => panic!("Receiver 1 did not get the correct event"),
    }

    match receiver2.blocking_recv() {
        Ok(AppEvent::Mouse(activity)) => assert!(activity),
        _ => panic!("Receiver 2 did not get the correct event"),
    }

    match receiver3.blocking_recv() {
        Ok(AppEvent::Mouse(activity)) => assert!(activity),
        _ => panic!("Receiver 3 did not get the correct event"),
    }
}

#[test]
fn test_late_subscriber() {
    // Create a monitor
    let monitor = Monitor::new();

    // Create initial receiver
    let mut receiver1 = monitor.subscribe();

    // Send first event
    monitor.send_mouse_event(true);

    // Create a late subscriber
    let mut receiver2 = monitor.subscribe();

    // Send second event
    monitor.send_keyboard_event(true);

    // First receiver gets both events
    match receiver1.blocking_recv() {
        Ok(AppEvent::Mouse(activity)) => assert!(activity),
        _ => panic!("Receiver 1 did not get the mouse event"),
    }

    match receiver1.blocking_recv() {
        Ok(AppEvent::Keyboard(activity)) => assert!(activity),
        _ => panic!("Receiver 1 did not get the keyboard event"),
    }

    // Second receiver only gets the keyboard event (missed the mouse event)
    match receiver2.blocking_recv() {
        Ok(AppEvent::Keyboard(activity)) => assert!(activity),
        _ => panic!("Receiver 2 did not get the keyboard event"),
    }
}

#[test]
fn test_all_event_types() {
    // Create a monitor
    let monitor = Monitor::new();

    // Create receivers
    let mut receiver1 = monitor.subscribe();
    let mut receiver2 = monitor.subscribe();

    // Send different types of events
    monitor.send_mouse_event(true);
    monitor.send_keyboard_event(false);

    let window_event = WindowEvent {
        app_name: "Test App".to_string(),
        window_title: "Test Window".to_string(),
        bundle_id: Some("com.test.app".to_string()),
        url: None,
        platform: Platform::Mac,
    };
    monitor.send_window_event(window_event.clone());

    let blocked_app = BlockedApp {
        app_name: "Block Test".to_string(),
        app_external_id: "com.block.test".to_string(),
        is_site: false,
    };
    monitor.send_app_blocked_event(BlockedAppEvent {
        blocked_apps: vec![blocked_app.clone()],
    });

    // Test first receiver gets all events
    match receiver1.blocking_recv() {
        Ok(AppEvent::Mouse(activity)) => assert!(activity),
        _ => panic!("Receiver 1 did not get the mouse event"),
    }

    match receiver1.blocking_recv() {
        Ok(AppEvent::Keyboard(activity)) => assert!(!activity),
        _ => panic!("Receiver 1 did not get the keyboard event"),
    }

    match receiver1.blocking_recv() {
        Ok(AppEvent::Window(event)) => {
            assert_eq!(event.app_name, "Test App");
            assert_eq!(event.window_title, "Test Window");
        }
        _ => panic!("Receiver 1 did not get the window event"),
    }

    match receiver1.blocking_recv() {
        Ok(AppEvent::AppBlocked(event)) => {
            assert_eq!(event.blocked_apps.len(), 1);
            assert_eq!(event.blocked_apps[0].app_name, "Block Test");
        }
        _ => panic!("Receiver 1 did not get the app blocked event"),
    }

    // Test second receiver also gets all events
    match receiver2.blocking_recv() {
        Ok(AppEvent::Mouse(activity)) => assert!(activity),
        _ => panic!("Receiver 2 did not get the mouse event"),
    }

    match receiver2.blocking_recv() {
        Ok(AppEvent::Keyboard(activity)) => assert!(!activity),
        _ => panic!("Receiver 2 did not get the keyboard event"),
    }

    match receiver2.blocking_recv() {
        Ok(AppEvent::Window(event)) => {
            assert_eq!(event.app_name, "Test App");
            assert_eq!(event.window_title, "Test Window");
        }
        _ => panic!("Receiver 2 did not get the window event"),
    }

    match receiver2.blocking_recv() {
        Ok(AppEvent::AppBlocked(event)) => {
            assert_eq!(event.blocked_apps.len(), 1);
            assert_eq!(event.blocked_apps[0].app_name, "Block Test");
        }
        _ => panic!("Receiver 2 did not get the app blocked event"),
    }
}

#[test]
fn test_publish_order_is_kept_per_receiver() {
    let monitor = Monitor::new();
    let mut receiver = monitor.subscribe();
    monitor.send_mouse_event(false);
    monitor.send_mouse_event(true);
    monitor.send_keyboard_event(true);

    assert!(matches!(receiver.try_recv(), Ok(AppEvent::Mouse(false))));
    assert!(matches!(receiver.try_recv(), Ok(AppEvent::Mouse(true))));
    assert!(matches!(receiver.try_recv(), Ok(AppEvent::Keyboard(true))));
    assert!(receiver.try_recv().is_err());
}

#[test]
fn test_publish_without_subscribers_is_a_no_op() {
    let monitor = Monitor::new();
    // No receiver exists; publishing must not fail observably.
    monitor.send_mouse_event(true);
    let mut receiver = monitor.subscribe();
    // The late subscriber sees nothing published before it subscribed.
    assert!(receiver.try_recv().is_err());
}

#[test]
fn test_mouse_event_type_from_code() {
    assert_eq!(MouseEventType::from_code(0), Ok(MouseEventType::Move));
    assert_eq!(MouseEventType::from_code(1), Ok(MouseEventType::LeftDown));
    assert_eq!(MouseEventType::from_code(2), Ok(MouseEventType::LeftUp));
    assert_eq!(MouseEventType::from_code(3), Ok(MouseEventType::RightDown));
    assert_eq!(MouseEventType::from_code(4), Ok(MouseEventType::RightUp));
    assert_eq!(MouseEventType::from_code(5), Ok(MouseEventType::MiddleDown));
    assert_eq!(MouseEventType::from_code(6), Ok(MouseEventType::MiddleUp));
    assert_eq!(MouseEventType::from_code(7), Ok(MouseEventType::Scroll));
    assert_eq!(
        MouseEventType::from_code(8),
        Err("Invalid mouse event type")
    );
    assert_eq!(
        MouseEventType::from_code(-1),
        Err("Invalid mouse event type")
    );
}

#[test]
fn test_convert_mouse_event_type_drops_unknown_codes() {
    assert_eq!(convert_mouse_event_type(0), Some(MouseEventType::Move));
    assert_eq!(convert_mouse_event_type(7), Some(MouseEventType::Scroll));
    assert_eq!(convert_mouse_event_type(8), None);
    assert_eq!(convert_mouse_event_type(-3), None);
}

#[test]
fn test_blocked_apps_from_raw_defaults() {
    let names = vec![Some("Safari".to_string()), None];
    let ids = vec![None, Some("com.example.tool".to_string())];
    let ev = blocked_apps_from_raw(&names, &ids);
    assert_eq!(ev.blocked_apps.len(), 2);
    assert_eq!(ev.blocked_apps[0].app_name, "Safari");
    assert_eq!(ev.blocked_apps[0].app_external_id, "unknown.bundle.id");
    assert!(!ev.blocked_apps[0].is_site);
    assert_eq!(ev.blocked_apps[1].app_name, "Unknown App");
    assert_eq!(ev.blocked_apps[1].app_external_id, "com.example.tool");
    assert!(!ev.blocked_apps[1].is_site);
}

#[test]
fn test_monitor_error_messages() {
    assert_eq!(
        MonitorError::AlreadyRunning.message(),
        "Monitor is already running"
    );
    assert_eq!(MonitorError::NotRunning.message(), "Monitor is not running");
    assert_eq!(
        MonitorError::PlatformError("bad handle".to_string()).message(),
        "Platform error: bad handle"
    );
    assert_eq!(
        MonitorError::ForeignException("signal".to_string()).message(),
        "Foreign exception: signal"
    );
    assert_eq!(
        MonitorError::Other("misc".to_string()).message(),
        "Other error: misc"
    );
}
