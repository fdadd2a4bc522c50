use awatcher::toplevel::{ActiveWindowError, HandleEvent, ToplevelState};

#[test]
fn new_window_is_unknown_until_named() {
    let mut state = ToplevelState::new();
    state.add_toplevel(7);
    assert_eq!(state.windows[&7].app_id, "unknown");
    assert_eq!(state.windows[&7].title, "unknown");
    assert!(state.handle_event(7, HandleEvent::AppId { app_id: "firefox".into() }));
    assert!(state.handle_event(7, HandleEvent::Title { title: "News".into() }));
    assert_eq!(state.windows[&7].app_id, "firefox");
    assert_eq!(state.windows[&7].title, "News");
}

#[test]
fn activation_selects_active_window() {
    let mut state = ToplevelState::new();
    assert_eq!(state.get_active_window().err(), Some(ActiveWindowError::Unknown));
    state.add_toplevel(1);
    state.add_toplevel(2);
    state.handle_event(2, HandleEvent::Title { title: "Editor".into() });
    state.handle_event(1, HandleEvent::State { activated: false });
    assert_eq!(state.current_window_id, None);
    state.handle_event(2, HandleEvent::State { activated: true });
    state.handle_event(2, HandleEvent::Done);
    assert_eq!(state.get_active_window().unwrap().title, "Editor");
}

#[test]
fn closed_window_is_removed() {
    let mut state = ToplevelState::new();
    state.add_toplevel(3);
    state.handle_event(3, HandleEvent::State { activated: true });
    assert!(state.handle_event(3, HandleEvent::Closed));
    assert!(state.windows.is_empty());
    assert_eq!(state.get_active_window().err(), Some(ActiveWindowError::NotFound { id: 3 }));
    assert!(!state.handle_event(3, HandleEvent::Title { title: "x".into() }));
}
