use os_monitor::focus::{
    evaluate_focus_enforcement, process_focus_sample, process_focus_samples, FocusSample,
    WindowTitle,
};

fn sample(app: &str, title: &str) -> FocusSample {
    FocusSample {
        app_name: app.to_string(),
        window_title: title.to_string(),
        bundle_id: None,
        url: None,
    }
}

#[test]
fn test_first_sample_emits_event() {
    let mut state = WindowTitle::new();
    let ev = process_focus_sample(&mut state, &sample("Editor", "notes.txt"));
    let ev = ev.expect("the first sample must be published");
    assert_eq!(ev.app_name, "Editor");
    assert_eq!(ev.window_title, "notes.txt");
    assert_eq!(state.app_name, "Editor");
    assert_eq!(state.title, "notes.txt");
}

#[test]
fn test_duplicate_sample_emits_nothing() {
    let mut state = WindowTitle::new();
    assert!(process_focus_sample(&mut state, &sample("Editor", "notes.txt")).is_some());
    assert!(process_focus_sample(&mut state, &sample("Editor", "notes.txt")).is_none());
    assert!(process_focus_sample(&mut state, &sample("Editor", "notes.txt")).is_none());
    assert_eq!(state.app_name, "Editor");
    assert_eq!(state.title, "notes.txt");
}

#[test]
fn test_title_change_alone_emits_event() {
    let mut state = WindowTitle::new();
    assert!(process_focus_sample(&mut state, &sample("Editor", "notes.txt")).is_some());
    let ev = process_focus_sample(&mut state, &sample("Editor", "todo.txt"));
    assert!(ev.is_some());
}

#[test]
fn test_sample_carries_identifiers_through() {
    let mut state = WindowTitle::new();
    let s = FocusSample {
        app_name: "Browser".to_string(),
        window_title: "news".to_string(),
        bundle_id: Some("com.example.browser".to_string()),
        url: Some("https://news.example".to_string()),
    };
    let ev = process_focus_sample(&mut state, &s).expect("a changed sample is published");
    assert_eq!(ev.bundle_id.as_deref(), Some("com.example.browser"));
    assert_eq!(ev.url.as_deref(), Some("https://news.example"));
}

#[test]
fn test_batch_emits_one_event_per_transition() {
    let mut state = WindowTitle::new();
    let samples = vec![
        sample("A", "1"),
        sample("A", "1"),
        sample("B", "1"),
        sample("B", "1"),
        sample("B", "1"),
        sample("A", "1"),
    ];
    let evs = process_focus_samples(&mut state, &samples);
    assert_eq!(evs.len(), 3);
    assert_eq!(evs[0].app_name, "A");
    assert_eq!(evs[1].app_name, "B");
    assert_eq!(evs[2].app_name, "A");
    assert_eq!(state.app_name, "A");
}

#[test]
fn test_batch_of_duplicates_emits_nothing() {
    let mut state = WindowTitle::new();
    assert!(process_focus_sample(&mut state, &sample("A", "1")).is_some());
    let samples = vec![sample("A", "1"), sample("A", "1"), sample("A", "1")];
    let evs = process_focus_samples(&mut state, &samples);
    assert_eq!(evs.len(), 0);
}

#[test]
fn test_enforcement_blocked_url_redirects_and_reports() {
    let s = FocusSample {
        app_name: "Browser".to_string(),
        window_title: "feed".to_string(),
        bundle_id: Some("com.example.browser".to_string()),
        url: Some("facebook.com".to_string()),
    };
    let r = evaluate_focus_enforcement(&s, true, false);
    assert!(r.redirect_to_vibes);
    let ev = r.blocked_event.expect("a blocked navigation is reported");
    assert_eq!(ev.blocked_apps.len(), 1);
    assert_eq!(ev.blocked_apps[0].app_name, "Browser");
    assert_eq!(ev.blocked_apps[0].app_external_id, "facebook.com");
    assert!(ev.blocked_apps[0].is_site);
    assert_eq!(r.close_app, None);
}

#[test]
fn test_enforcement_blocked_bundle_closes_app() {
    let s = FocusSample {
        app_name: "Game".to_string(),
        window_title: "level 2".to_string(),
        bundle_id: Some("com.example.game".to_string()),
        url: None,
    };
    let r = evaluate_focus_enforcement(&s, false, true);
    assert!(!r.redirect_to_vibes);
    assert!(r.blocked_event.is_none());
    assert_eq!(r.close_app.as_deref(), Some("com.example.game"));
}

#[test]
fn test_enforcement_nothing_blocked_does_nothing() {
    let s = FocusSample {
        app_name: "Editor".to_string(),
        window_title: "notes.txt".to_string(),
        bundle_id: None,
        url: None,
    };
    let r = evaluate_focus_enforcement(&s, true, true);
    assert!(!r.redirect_to_vibes);
    assert!(r.blocked_event.is_none());
    assert_eq!(r.close_app, None);
}
