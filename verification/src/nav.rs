//! Navigation events and the checkpoint rule.
//!
//! Every in-window navigation yields a [`NavigationEvent`] (host and path of
//! the target).  The checkpoint rule recognises the moment the login flow has
//! produced a usable session cookie: the host ends in `slack.com` and the
//! path is exactly `/checkcookie`.  The navigation interceptor never blocks
//! a navigation; on a checkpoint match (and only while the capture is still
//! pending) it asks for a cookie read to be dispatched off the UI context.

use vstd::prelude::*;

use crate::CaptureError;
use crate::text;

verus! {

/// Host and path of one attempted navigation.  `host` is `None` for URLs
/// that have no host part.
#[derive(Debug)]
pub struct NavigationEvent {
    pub host: Option<String>,
    pub path: String,
}

/// Mathematical image of a [`NavigationEvent`].
pub ghost struct NavEventView {
    pub host: Option<Seq<char>>,
    pub path: Seq<char>,
}

impl View for NavigationEvent {
    type V = NavEventView;

    open spec fn view(&self) -> NavEventView {
        NavEventView { host: self.host.deep_view(), path: self.path@ }
    }
}

impl DeepView for NavigationEvent {
    type V = NavEventView;

    open spec fn deep_view(&self) -> NavEventView {
        self.view()
    }
}

/// The navigation signals that authentication has completed: its host ends
/// in `slack.com` and its path is exactly `/checkcookie`.
pub open spec fn is_checkpoint(ev: NavEventView) -> bool {
    match ev.host {
        Some(h) => text::is_suffix_of("slack.com"@, h) && ev.path == "/checkcookie"@,
        None => false,
    }
}

/// Decides whether a navigation event is the checkpoint.
pub fn matches_checkpoint(ev: &NavigationEvent) -> (r: bool)
    ensures
        r == is_checkpoint(ev@),
{
    match &ev.host {
        Some(h) => {
            let host_ok = text::str_ends_with(h.as_str(), "slack.com");
            let path_ok = text::str_eq(ev.path.as_str(), "/checkcookie");
            host_ok && path_ok
        },
        None => false,
    }
}

/// What the navigation interceptor tells the hosting runtime: the
/// navigation is always allowed to proceed, and a cookie read is dispatched
/// to a worker context exactly on a fresh checkpoint match.
pub struct NavDecision {
    pub allow: bool,
    pub dispatch_cookie_read: bool,
}

/// The interceptor's decision for one navigation: never block, short-circuit
/// once the capture is done, and dispatch the cookie read only on a
/// checkpoint match.  The read itself must not run on the caller's context.
pub fn interceptor_decide(done: bool, ev: &NavigationEvent) -> (d: NavDecision)
    ensures
        d.allow,
        d.dispatch_cookie_read == (!done && is_checkpoint(ev@)),
{
    if done {
        NavDecision { allow: true, dispatch_cookie_read: false }
    } else {
        let m = matches_checkpoint(ev);
        NavDecision { allow: true, dispatch_cookie_read: m }
    }
}

/// Whether `s` parses as an absolute URL.
pub uninterp spec fn url_parses(s: Seq<char>) -> bool;

/// The host of the URL that `s` parses to, if the URL has one.
pub uninterp spec fn url_host_of(s: Seq<char>) -> Option<Seq<char>>;

/// The path of the URL that `s` parses to.
pub uninterp spec fn url_path_of(s: Seq<char>) -> Seq<char>;

/// Relies on `url::Url::parse`, `url::Url::host_str` and `url::Url::path`:
/// whether a string parses as an absolute URL, and the host and path of the
/// parsed URL, depend on the string alone.
#[verifier::external_body]
fn parse_url_event(s: &str) -> (r: Option<NavigationEvent>)
    ensures
        r is Some <==> url_parses(s@),
        r is Some ==> r.unwrap().host.deep_view() == url_host_of(s@),
        r is Some ==> r.unwrap().path@ == url_path_of(s@),
{
    match url::Url::parse(s) {
        Ok(u) => {
            let host = match u.host_str() {
                Some(h) => Some(h.to_string()),
                None => None,
            };
            Some(NavigationEvent { host, path: u.path().to_string() })
        },
        Err(_) => None,
    }
}

/// Validates the login URL before any window is opened.  A malformed input
/// is rejected with [`CaptureError::InvalidUrl`]; a well-formed one yields
/// the navigation event the window will first be driven to.
pub fn parse_login_url(s: &str) -> (r: Result<NavigationEvent, CaptureError>)
    ensures
        r is Ok <==> url_parses(s@),
        r is Ok ==> r.unwrap()@.host == url_host_of(s@),
        r is Ok ==> r.unwrap()@.path == url_path_of(s@),
        r is Err ==> r.unwrap_err() == CaptureError::InvalidUrl,
{
    match parse_url_event(s) {
        Some(ev) => Ok(ev),
        None => Err(CaptureError::InvalidUrl),
    }
}

} // verus!
