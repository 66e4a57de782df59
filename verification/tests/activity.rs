use os_monitor::{send_buffered_events, ActivityFlags, AppEvent, InputSignal, Monitor};

#[test]
fn test_mouse_event_callback() {
    let mut flags = ActivityFlags::new();
    assert!(!flags.has_mouse);

    flags.record_mouse();

    assert!(flags.has_mouse, "Mouse activity should be set to true");
}

#[test]
fn test_keyboard_event_callback() {
    // Ensure activity is initially false
    let mut flags = ActivityFlags::new();
    assert!(!flags.has_keyboard);

    // Call the callback
    flags.record_keyboard();

    // Verify activity is now true
    assert!(flags.has_keyboard, "Keyboard activity should be set to true");
}

#[test]
fn test_many_mouse_signals_one_tick() {
    // However many raw mouse signals land in one interval, the flush
    // reads exactly (mouse: true, keyboard: false) once.
    let mut flags = ActivityFlags::new();
    let signals = vec![InputSignal::Mouse; 1000];
    flags.apply_signals(&signals);
    let (mouse, keyboard) = flags.take();
    assert!(mouse);
    assert!(!keyboard);
    // The flush cleared both flags.
    assert!(!flags.has_mouse);
    assert!(!flags.has_keyboard);
}

#[test]
fn test_flush_publishes_both_ticks_every_time() {
    let monitor = Monitor::new();
    let mut receiver = monitor.subscribe();
    let mut flags = ActivityFlags::new();

    for _ in 0..250 {
        flags.record_mouse();
    }
    send_buffered_events(&mut flags, &monitor);

    // Exactly one Keyboard(false) and one Mouse(true), in that order.
    assert!(matches!(receiver.try_recv(), Ok(AppEvent::Keyboard(false))));
    assert!(matches!(receiver.try_recv(), Ok(AppEvent::Mouse(true))));
    assert!(receiver.try_recv().is_err());

    // An idle interval still publishes both ticks, both false.
    send_buffered_events(&mut flags, &monitor);
    assert!(matches!(receiver.try_recv(), Ok(AppEvent::Keyboard(false))));
    assert!(matches!(receiver.try_recv(), Ok(AppEvent::Mouse(false))));
    assert!(receiver.try_recv().is_err());
}

#[test]
fn test_mixed_signals_set_both_flags() {
    let mut flags = ActivityFlags::new();
    let signals = vec![InputSignal::Keyboard, InputSignal::Mouse, InputSignal::Keyboard];
    flags.apply_signals(&signals);
    let (mouse, keyboard) = flags.take();
    assert!(mouse);
    assert!(keyboard);
}
