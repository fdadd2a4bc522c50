use awatcher::config::Config;
use awatcher::filters::{Filter, Pattern};
use awatcher::idle::{Status, Tracker};
use awatcher::report::{
    classify_error, idle_status_pings, Attempt, Heartbeat, Ping, ReportClient, Retry, RetryStep,
    MAX_ATTEMPTS,
};

fn config(no_server: bool, filters: Vec<Filter>) -> Config {
    Config {
        port: 5600,
        host: "127.0.0.1".to_string(),
        idle_timeout: 180,
        poll_time_idle: 5,
        poll_time_window: 1,
        no_server,
        filters,
    }
}

fn client(no_server: bool, filters: Vec<Filter>) -> ReportClient {
    ReportClient::with_host_name(config(no_server, filters), "box")
}

fn pairs(h: &Heartbeat) -> Vec<(&str, &str)> {
    h.data.iter().map(|(k, v)| (k.as_str(), v.as_str())).collect()
}

#[test]
fn bucket_names_carry_host_name() {
    let c = client(false, Vec::new());
    assert_eq!(c.idle_bucket_name, "aw-watcher-afk_box");
    assert_eq!(c.active_window_bucket_name, "aw-watcher-window_box");
}

#[test]
fn new_client_uses_machine_host_name() {
    let c = ReportClient::new(config(true, Vec::new())).unwrap();
    assert!(c.idle_bucket_name.starts_with("aw-watcher-afk_"));
    assert!(c.active_window_bucket_name.starts_with("aw-watcher-window_"));
}

#[test]
fn startup_buckets() {
    let b = client(false, Vec::new()).startup_buckets();
    assert_eq!(b.len(), 2);
    assert_eq!(b[0].bucket, "aw-watcher-afk_box");
    assert_eq!(b[0].bucket_type, "afkstatus");
    assert_eq!(b[1].bucket, "aw-watcher-window_box");
    assert_eq!(b[1].bucket_type, "currentwindow");
    assert!(client(true, Vec::new()).startup_buckets().is_empty());
}

#[test]
fn create_bucket_twice_gives_same_request() {
    let first = ReportClient::create_bucket("aw-watcher-afk_box", "afkstatus");
    let second = ReportClient::create_bucket("aw-watcher-afk_box", "afkstatus");
    assert_eq!(first.bucket, second.bucket);
    assert_eq!(first.bucket_type, second.bucket_type);
    let mut retry = Retry::new();
    assert_eq!(retry.next(Attempt::Succeeded), RetryStep::Done { ok: true });
}

#[test]
fn ping_heartbeat() {
    let c = client(false, Vec::new());
    let h = c.ping(true, 1000, 250).unwrap();
    assert_eq!(h.bucket, "aw-watcher-afk_box");
    assert_eq!(h.timestamp, 1000);
    assert_eq!(h.duration, 250);
    assert_eq!(h.pulsetime, 185);
    assert_eq!(pairs(&h), vec![("status", "afk")]);
    let h = c.ping(false, 1000, 0).unwrap();
    assert_eq!(pairs(&h), vec![("status", "not-afk")]);
    assert!(client(true, Vec::new()).ping(true, 1000, 0).is_none());
}

#[test]
fn transition_to_idle_is_reported_twice() {
    let pings = idle_status_pings(Status::Idle { changed: true, last_input_time: 5000, duration: 30000 });
    assert_eq!(
        pings,
        vec![
            Ping { is_idle: false, timestamp: 5000, duration: 0 },
            Ping { is_idle: true, timestamp: 5001, duration: 30000 },
        ]
    );
}

#[test]
fn transition_to_active_is_reported_twice() {
    let pings = idle_status_pings(Status::Active { changed: true, last_input_time: 5000 });
    assert_eq!(
        pings,
        vec![
            Ping { is_idle: true, timestamp: 4999, duration: 0 },
            Ping { is_idle: false, timestamp: 5000, duration: 0 },
        ]
    );
}

#[test]
fn steady_states_are_reported_once() {
    assert_eq!(
        idle_status_pings(Status::Idle { changed: false, last_input_time: 5000, duration: 7000 }),
        vec![Ping { is_idle: true, timestamp: 5000, duration: 7000 }]
    );
    assert_eq!(
        idle_status_pings(Status::Active { changed: false, last_input_time: 5000 }),
        vec![Ping { is_idle: false, timestamp: 5000, duration: 0 }]
    );
}

#[test]
fn tracker_transition_gives_two_heartbeats() {
    let c = client(false, Vec::new());
    let start: i64 = 1_614_605_400_000;
    let mut tracker = Tracker::new(start, 30_000);
    let now = start + 40_000;
    let status = tracker.get_with_last_input(now, 35);
    let hs = c.handle_idle_status(status);
    assert_eq!(hs.len(), 2);
    assert_eq!(pairs(&hs[0]), vec![("status", "not-afk")]);
    assert_eq!(pairs(&hs[1]), vec![("status", "afk")]);
    assert_eq!(hs[0].timestamp, now - 35_000);
    assert_eq!(hs[1].timestamp, hs[0].timestamp + 1);
    assert_eq!(hs[1].duration, 35_000);
    assert!(client(true, Vec::new()).handle_idle_status(status).is_empty());
}

#[test]
fn window_heartbeat_unfiltered() {
    let c = client(false, Vec::new());
    let h = c.send_active_window("firefox", "News", 42).unwrap();
    assert_eq!(h.bucket, "aw-watcher-window_box");
    assert_eq!(h.timestamp, 42);
    assert_eq!(h.duration, 0);
    assert_eq!(h.pulsetime, 2);
    assert_eq!(pairs(&h), vec![("app", "firefox"), ("title", "News")]);
}

#[test]
fn window_heartbeat_replaced() {
    let f = Filter::new(
        Some(Pattern::new("org\\.kde\\.(.*)").unwrap()),
        None,
        Some("$1".to_string()),
        None,
    );
    let c = client(false, vec![f]);
    let h = c.send_active_window("org.kde.dolphin", "/home", 7).unwrap();
    assert_eq!(pairs(&h), vec![("app", "dolphin"), ("title", "/home")]);
}

#[test]
fn match_only_rule_sends_nothing() {
    let f = Filter::new(Some(Pattern::new("secret").unwrap()), None, None, None);
    let c = client(false, vec![f]);
    assert!(c.send_active_window("secret", "t", 7).is_none());
    assert!(c.send_active_window("secret", "t", 8).is_none());
    assert!(c.get_filtered_data("secret", "t").is_none());
    assert!(c.send_active_window("other", "t", 8).is_some());
    assert!(client(true, Vec::new()).send_active_window("other", "t", 8).is_none());
}

#[test]
fn retries_stop_at_attempt_limit() {
    let mut retry = Retry::new();
    let mut calls = 0;
    loop {
        calls += 1;
        match retry.next(Attempt::Refused) {
            RetryStep::RetryAfter { seconds } => assert_eq!(seconds, calls as u64),
            RetryStep::Done { ok } => {
                assert!(!ok);
                break;
            }
        }
    }
    assert_eq!(calls, MAX_ATTEMPTS);
    assert_eq!(calls, 3);
}

#[test]
fn other_failures_are_not_retried() {
    let mut retry = Retry::new();
    assert_eq!(retry.next(Attempt::Failed), RetryStep::Done { ok: false });
    let mut retry = Retry::new();
    assert_eq!(retry.next(Attempt::Refused), RetryStep::RetryAfter { seconds: 1 });
    assert_eq!(retry.next(Attempt::Succeeded), RetryStep::Done { ok: true });
}

#[test]
fn refused_connections_are_recognised() {
    assert_eq!(
        classify_error("error trying to connect: tcp connect error: Connection refused (os error 111)"),
        Attempt::Refused
    );
    assert_eq!(classify_error("HTTP status server error (500)"), Attempt::Failed);
    assert_eq!(classify_error(""), Attempt::Failed);
}
