use oauth_capture::capture::{run_capture, CaptureRequest, ScriptedNavigation};
use oauth_capture::cookies::{Cookie, CookieJarSnapshot};
use oauth_capture::nav::{interceptor_decide, matches_checkpoint, parse_login_url, NavigationEvent};
use oauth_capture::CaptureError;

fn ev(host: Option<&str>, path: &str) -> NavigationEvent {
    NavigationEvent {
        host: host.map(|h| h.to_string()),
        path: path.to_string(),
    }
}

fn jar(cookies: &[(&str, &str)]) -> CookieJarSnapshot {
    CookieJarSnapshot {
        cookies: cookies
            .iter()
            .map(|(n, v)| Cookie {
                name: n.to_string(),
                value: v.to_string(),
            })
            .collect(),
    }
}

fn nav(host: Option<&str>, path: &str, j: Option<CookieJarSnapshot>) -> ScriptedNavigation {
    ScriptedNavigation {
        event: ev(host, path),
        jar: j,
    }
}

#[test]
fn no_checkpoint_means_abort_and_no_token() {
    let script = vec![
        nav(Some("slack.com"), "/login", Some(jar(&[("d", "tok")]))),
        nav(Some("slack.com"), "/ssb/redirect", Some(jar(&[("d", "tok")]))),
        nav(Some("example.org"), "/checkcookie", Some(jar(&[("d", "tok")]))),
    ];
    let r = run_capture("https://slack.com/login", true, &script);
    assert_eq!(r, Err(CaptureError::Aborted));
}

#[test]
fn done_flag_stays_false_without_checkpoint() {
    let mut req = CaptureRequest::new();
    req.window_opened();
    for path in ["/login", "/workspace", "/files"] {
        let t = req.handle_navigation(&ev(Some("slack.com"), path), Some(&jar(&[("d", "tok")])));
        assert!(t.is_none());
        assert!(!req.is_done());
    }
}

#[test]
fn concurrent_checkpoint_hits_deliver_exactly_once() {
    let mut req = CaptureRequest::new();
    req.window_opened();
    let j = jar(&[("d", "tok123")]);
    let first = req.extract_from_jar(&j);
    let second = req.extract_from_jar(&j);
    assert_eq!(first, Some("tok123".to_string()));
    assert_eq!(second, None);
    assert!(req.is_done());
    assert_eq!(req.observe(), Ok("tok123".to_string()));
}

#[test]
fn absent_cookie_is_noop_then_retry_succeeds() {
    let mut req = CaptureRequest::new();
    req.window_opened();
    let early = req.extract_from_jar(&jar(&[("b", "x")]));
    assert_eq!(early, None);
    assert!(!req.is_done());
    let later = req.extract_from_jar(&jar(&[("b", "x"), ("d", "tok")]));
    assert_eq!(later, Some("tok".to_string()));
    assert!(req.is_done());
}

#[test]
fn destroy_before_checkpoint_observes_abort() {
    let mut req = CaptureRequest::new();
    req.window_opened();
    let t = req.handle_navigation(&ev(Some("slack.com"), "/login"), None);
    assert!(t.is_none());
    req.window_destroyed();
    assert_eq!(req.observe(), Err(CaptureError::Aborted));
}

#[test]
fn destroy_after_resolution_keeps_the_token() {
    let mut req = CaptureRequest::new();
    req.window_opened();
    let t = req.extract_from_jar(&jar(&[("d", "tok")]));
    assert_eq!(t, Some("tok".to_string()));
    req.window_destroyed();
    req.window_destroyed();
    assert_eq!(req.observe(), Ok("tok".to_string()));
}

#[test]
fn invalid_url_yields_invalid_url_without_window() {
    let r = run_capture("not-a-url", true, &vec![]);
    assert_eq!(r, Err(CaptureError::InvalidUrl));
    assert!(parse_login_url("not-a-url").is_err());
}

#[test]
fn window_creation_failure_is_surfaced() {
    let r = run_capture("https://slack.com/login", false, &vec![]);
    assert_eq!(r, Err(CaptureError::WindowCreationFailed));
}

#[test]
fn end_to_end_capture_yields_token() {
    let script = vec![
        nav(Some("slack.com"), "/login", None),
        nav(
            Some("slack.com"),
            "/checkcookie",
            Some(jar(&[("d", "tok123")])),
        ),
    ];
    let r = run_capture("https://slack.com/login", true, &script);
    assert_eq!(r, Ok("tok123".to_string()));
}

#[test]
fn failed_cookie_read_is_retried_on_next_checkpoint() {
    let script = vec![
        nav(Some("slack.com"), "/checkcookie", None),
        nav(
            Some("slack.com"),
            "/checkcookie",
            Some(jar(&[("d", "tok456")])),
        ),
    ];
    let r = run_capture("https://slack.com/login", true, &script);
    assert_eq!(r, Ok("tok456".to_string()));
}

#[test]
fn empty_navigation_sequence_aborts() {
    let r = run_capture("https://slack.com/login", true, &vec![]);
    assert_eq!(r, Err(CaptureError::Aborted));
}

#[test]
fn checkpoint_rule_matches_host_suffix_and_exact_path() {
    assert!(matches_checkpoint(&ev(Some("slack.com"), "/checkcookie")));
    assert!(matches_checkpoint(&ev(Some("app.slack.com"), "/checkcookie")));
    assert!(!matches_checkpoint(&ev(
        Some("slack.com.evil.org"),
        "/checkcookie"
    )));
    assert!(!matches_checkpoint(&ev(Some("slack.com"), "/checkcookie2")));
    assert!(!matches_checkpoint(&ev(Some("slack.com"), "/login")));
    assert!(!matches_checkpoint(&ev(None, "/checkcookie")));
}

#[test]
fn interceptor_always_allows_navigation() {
    let matching = ev(Some("slack.com"), "/checkcookie");
    let other = ev(Some("slack.com"), "/login");
    let d1 = interceptor_decide(false, &matching);
    assert!(d1.allow);
    assert!(d1.dispatch_cookie_read);
    let d2 = interceptor_decide(false, &other);
    assert!(d2.allow);
    assert!(!d2.dispatch_cookie_read);
    let d3 = interceptor_decide(true, &matching);
    assert!(d3.allow);
    assert!(!d3.dispatch_cookie_read);
}

#[test]
fn parse_login_url_reads_host_and_path() {
    let parsed = parse_login_url("https://slack.com/signin?redir=x").unwrap();
    assert_eq!(parsed.host.as_deref(), Some("slack.com"));
    assert_eq!(parsed.path, "/signin");
    let bare = parse_login_url("https://app.slack.com").unwrap();
    assert_eq!(bare.host.as_deref(), Some("app.slack.com"));
    assert_eq!(bare.path, "/");
    let hostless = parse_login_url("data:text/plain,x").unwrap();
    assert_eq!(hostless.host, None);
    assert!(!matches_checkpoint(&hostless));
}

#[test]
fn first_cookie_with_target_name_wins() {
    let j = jar(&[("a", "1"), ("d", "first"), ("d", "second")]);
    assert_eq!(j.find_cookie("d"), Some("first".to_string()));
    assert_eq!(j.find_cookie("missing"), None);
    let empty = jar(&[]);
    assert_eq!(empty.find_cookie("d"), None);
}
