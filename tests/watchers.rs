use awatcher::config::Config;
use awatcher::watchers::{
    candidates_of, Backend, Supervisor, SupervisorAction, SupervisorEvent, SupervisorState,
    WatcherType,
};

fn config() -> Config {
    Config {
        port: 5600,
        host: "127.0.0.1".to_string(),
        idle_timeout: 180,
        poll_time_idle: 5,
        poll_time_window: 1,
        no_server: false,
        filters: Vec::new(),
    }
}

#[test]
fn sleep_time_per_kind() {
    assert_eq!(WatcherType::Idle.sleep_time(&config()), 5);
    assert_eq!(WatcherType::ActiveWindow.sleep_time(&config()), 1);
    assert_eq!(WatcherType::Idle.to_string(), "idle");
    assert_eq!(WatcherType::ActiveWindow.to_string(), "active window");
}

#[test]
fn priority_lists() {
    assert_eq!(
        candidates_of(WatcherType::Idle),
        vec![
            Backend::WaylandExtIdleNotify,
            Backend::WaylandKdeIdle,
            Backend::X11ScreensaverIdle,
            Backend::GnomeIdle
        ]
    );
    assert_eq!(candidates_of(WatcherType::ActiveWindow)[2], Backend::X11Window);
    assert_eq!(Backend::X11Window.name(), "X11 window");
}

#[test]
fn first_working_backend_is_selected() {
    let mut s = Supervisor::new(WatcherType::Idle, &config());
    assert_eq!(s.action(), SupervisorAction::Construct { backend: Backend::WaylandExtIdleNotify });
    s.step(SupervisorEvent::ConstructionFailed);
    assert_eq!(s.action(), SupervisorAction::Construct { backend: Backend::WaylandKdeIdle });
    s.step(SupervisorEvent::ConstructionFailed);
    s.step(SupervisorEvent::Constructed);
    assert_eq!(s.state, SupervisorState::Running { backend: Backend::X11ScreensaverIdle });
    assert_eq!(s.action(), SupervisorAction::Iterate { timeout_seconds: 5, sleep_seconds: 5 });
}

#[test]
fn failures_keep_running() {
    let mut s = Supervisor::new(WatcherType::ActiveWindow, &config());
    s.step(SupervisorEvent::Constructed);
    for e in [
        SupervisorEvent::IterationFailed,
        SupervisorEvent::IterationTimedOut,
        SupervisorEvent::IterationSucceeded,
        SupervisorEvent::ConstructionFailed,
    ] {
        s.step(e);
        assert_eq!(s.state, SupervisorState::Running { backend: Backend::WaylandForeignToplevel });
    }
    s.step(SupervisorEvent::Shutdown);
    assert_eq!(s.state, SupervisorState::Stopped);
    assert_eq!(s.action(), SupervisorAction::Finish);
}

#[test]
fn all_failing_disables_kind() {
    let mut s = Supervisor::new(WatcherType::ActiveWindow, &config());
    for _ in 0..4 {
        s.step(SupervisorEvent::ConstructionFailed);
    }
    assert_eq!(s.state, SupervisorState::Disabled);
    assert_eq!(s.action(), SupervisorAction::Finish);
}
