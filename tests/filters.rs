use awatcher::config::Config;
use awatcher::filters::{Filter, FilterResult, Pattern, Replacement};

fn filter(
    matches: (Option<&str>, Option<&str>),
    replaces: (Option<&str>, Option<&str>),
) -> Filter {
    let pattern = |s: &str| Pattern::new(s).unwrap();
    Filter::new(
        matches.0.map(pattern),
        matches.1.map(pattern),
        replaces.0.map(|s| s.to_string()),
        replaces.1.map(|s| s.to_string()),
    )
}

fn expected(e: Option<(Option<&str>, Option<&str>)>) -> FilterResult {
    match e {
        None => FilterResult::Skip,
        Some((None, None)) => FilterResult::Match,
        Some((a, t)) => FilterResult::Replace(Replacement {
            replace_app_id: a.map(Into::into),
            replace_title: t.map(Into::into),
        }),
    }
}

fn check(
    matches: (Option<&str>, Option<&str>),
    replaces: (Option<&str>, Option<&str>),
    data: (&str, &str),
    expect: Option<(Option<&str>, Option<&str>)>,
) {
    let f = filter(matches, replaces);
    assert_eq!(expected(expect), f.apply(data.0, data.1));
}

#[test]
fn replacement_no_match() {
    check(
        (Some("firefox"), Some("Title")),
        (None, Some("Secret")),
        ("org.kde.dolphin", "/home/user"),
        None,
    );
}

#[test]
fn replacement_app_id_match() {
    check(
        (Some(".*dolphin"), Some("Title")),
        (None, Some("Secret")),
        ("org.kde.dolphin", "/home/user"),
        None,
    );
}

#[test]
fn replacement_title_match() {
    check(
        (Some("firefox"), Some("/home/user")),
        (None, Some("Secret")),
        ("org.kde.dolphin", "/home/user"),
        None,
    );
}

#[test]
fn replacement_replace_title() {
    check(
        (Some(".*dolphin"), Some("/home/user")),
        (None, Some("Secret")),
        ("org.kde.dolphin", "/home/user"),
        Some((None, Some("Secret"))),
    );
}

#[test]
fn replacement_replace_app_id() {
    check(
        (Some(".*dolphin"), Some("/home/user")),
        (Some("FM"), None),
        ("org.kde.dolphin", "/home/user"),
        Some((Some("FM"), None)),
    );
}

#[test]
fn replacement_replace_with_catch() {
    check(
        (Some("org\\.kde\\.(.*)"), None),
        (Some("$1"), None),
        ("org.kde.dolphin", "/home/user"),
        Some((Some("dolphin"), None)),
    );
}

#[test]
fn replacement_skip_empty_matches() {
    check(
        (None, None),
        (None, Some("Secret")),
        ("org.kde.dolphin", "/home/user"),
        None,
    );
}

#[test]
fn replacement_match_only() {
    check(
        (Some("org\\.kde\\.(.*)"), None),
        (None, None),
        ("org.kde.dolphin", "/home/user"),
        Some((None, None)),
    );
}

#[test]
fn pattern_matches_whole_text_only() {
    let p = Pattern::new("fire").unwrap();
    assert!(p.is_match("fire"));
    assert!(!p.is_match("firefox"));
    assert!(!p.is_match("campfire"));
}

#[test]
fn invalid_pattern_is_refused() {
    let e = Pattern::new("(unclosed").err().unwrap();
    assert_eq!(e.pattern, "(unclosed");
}

#[test]
fn literal_replacement_without_groups() {
    check(
        (Some("org\\.kde\\..*"), None),
        (Some("$1 files"), None),
        ("org.kde.dolphin", "x"),
        Some((Some("$1 files"), None)),
    );
}

fn config(filters: Vec<Filter>) -> Config {
    Config {
        port: 5600,
        host: "127.0.0.1".to_string(),
        idle_timeout: 180,
        poll_time_idle: 5,
        poll_time_window: 1,
        no_server: false,
        filters,
    }
}

#[test]
fn first_matching_rule_wins() {
    let c = config(vec![
        filter((Some("firefox"), None), (None, Some("Private"))),
        filter((Some("firefox"), None), (Some("browser"), None)),
    ]);
    assert_eq!(
        c.match_window_data("firefox", "x"),
        FilterResult::Replace(Replacement { replace_app_id: None, replace_title: Some("Private".into()) })
    );
}

#[test]
fn capture_group_in_rule_list() {
    let c = config(vec![filter((Some("org\\.kde\\.(.*)"), None), (Some("$1"), None))]);
    assert_eq!(
        c.match_window_data("org.kde.dolphin", "/home/user"),
        FilterResult::Replace(Replacement { replace_app_id: Some("dolphin".into()), replace_title: None })
    );
}

#[test]
fn skipping_rules_fall_through() {
    let c = config(vec![
        filter((Some("code"), None), (Some("VSCode"), None)),
        filter((None, None), (Some("never"), None)),
        filter((None, Some("secret.*")), (None, None)),
    ]);
    assert_eq!(c.match_window_data("firefox", "secret page"), FilterResult::Match);
    assert_eq!(c.match_window_data("firefox", "news"), FilterResult::Skip);
    assert_eq!(config(Vec::new()).match_window_data("a", "b"), FilterResult::Skip);
}

#[test]
fn client_host_maps_zero_network_to_local_host() {
    let mut c = config(Vec::new());
    c.host = "0.0.0.0".to_string();
    assert_eq!(c.client_host(Some(0)), "127.0.0.1");
    c.host = "10.0.0.2".to_string();
    assert_eq!(c.client_host(Some(10)), "10.0.0.2");
    c.host = "example.org".to_string();
    assert_eq!(c.client_host(None), "example.org");
}

#[test]
fn alternation_matches_whole_text_only() {
    let p = Pattern::new("a|b").unwrap();
    assert!(p.is_match("a"));
    assert!(p.is_match("b"));
    assert!(!p.is_match("ax"));
    assert!(!p.is_match("xb"));
}
