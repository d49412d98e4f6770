//! The capture state machine.
//!
//! A [`CaptureRequest`] models one token-capture attempt:
//! `Idle -> WindowOpen -> { Resolved | Aborted }`.  While the window is
//! open, every navigation either self-loops (no checkpoint match, or the
//! cookie is still absent) or resolves the attempt with the target cookie's
//! value; destroying the window closes the producer side so the awaiting
//! caller observes a definite abort instead of suspending forever.  The
//! transition functions are pure decisions; the window plumbing that feeds
//! them events lives outside the library.

use vstd::prelude::*;

use crate::CaptureError;
use crate::cookies::{CookieJarSnapshot, CookieView, jar_lookup};
use crate::nav::{interceptor_decide, is_checkpoint, NavDecision, NavEventView, NavigationEvent};
use crate::slot::CompletionSlot;

verus! {

/// The phase of a capture attempt.  `Resolved` and `Aborted` are terminal.
#[derive(Clone, Copy, Debug, PartialEq, Eq, Structural)]
pub enum Phase {
    Idle,
    WindowOpen,
    Resolved,
    Aborted,
}

/// Mathematical image of a [`CaptureRequest`].
pub ghost struct CaptureView {
    pub phase: Phase,
    /// The shared flag read by every navigation to short-circuit once the
    /// attempt has resolved.
    pub done: bool,
    /// Whether the completion slot still holds the producer handle.
    pub slot_armed: bool,
    /// The token handed to the channel, if any; set at most once.
    pub delivered: Option<Seq<char>>,
}

/// The internal invariant of a capture attempt: the done flag is set
/// exactly in the resolved phase, the slot is armed exactly while the
/// attempt is still pending, and a token has been delivered exactly in the
/// resolved phase.
pub open spec fn wf(v: CaptureView) -> bool {
    &&& (v.phase is Idle ==> !v.done && v.slot_armed && v.delivered is None)
    &&& (v.phase is WindowOpen ==> !v.done && v.slot_armed && v.delivered is None)
    &&& (v.phase is Resolved ==> v.done && !v.slot_armed && v.delivered is Some)
    &&& (v.phase is Aborted ==> !v.done && !v.slot_armed && v.delivered is None)
}

/// The state of a freshly created attempt.
pub open spec fn initial_view() -> CaptureView {
    CaptureView { phase: Phase::Idle, done: false, slot_armed: true, delivered: None }
}

/// The state right after the window has been opened.
pub open spec fn open_view() -> CaptureView {
    CaptureView { phase: Phase::WindowOpen, done: false, slot_armed: true, delivered: None }
}

/// The name of the cookie that carries the session token.
pub open spec fn token_cookie_name() -> Seq<char> {
    "d"@
}

/// One run of the token extractor, given the value of the target cookie in
/// the snapshot it fetched (`None` when the cookie is absent).  An absent
/// cookie is a no-op; a present cookie resolves the attempt if and only if
/// this extractor wins the take-once slot.  The second component is the
/// token this run delivers to the channel, if any.
pub open spec fn spec_extract(v: CaptureView, cookie: Option<Seq<char>>) -> (CaptureView, Option<
    Seq<char>,
>) {
    match cookie {
        None => (v, None),
        Some(val) => if v.slot_armed {
            (
                CaptureView {
                    phase: Phase::Resolved,
                    done: true,
                    slot_armed: false,
                    delivered: Some(val),
                },
                Some(val),
            )
        } else {
            (v, None)
        },
    }
}

/// Window destruction.  If the attempt is still pending, the producer side
/// is closed and the attempt aborts; a resolved or already aborted attempt
/// is left as it is, which makes closing idempotent.
pub open spec fn spec_abort(v: CaptureView) -> CaptureView {
    if v.slot_armed {
        CaptureView { phase: Phase::Aborted, done: v.done, slot_armed: false, delivered: v.delivered }
    } else {
        v
    }
}

/// One navigation, seen end to end: the interceptor short-circuits once the
/// done flag is set, ignores non-checkpoint navigations, and otherwise runs
/// the extractor over the snapshot the dispatched cookie read produced
/// (`None` when the read itself failed, a transient no-op).
pub open spec fn spec_nav_step(
    v: CaptureView,
    ev: NavEventView,
    jar: Option<Seq<CookieView>>,
) -> (CaptureView, Option<Seq<char>>) {
    if v.done || !is_checkpoint(ev) {
        (v, None)
    } else {
        match jar {
            None => (v, None),
            Some(j) => spec_extract(v, jar_lookup(j, token_cookie_name())),
        }
    }
}

/// One token-capture attempt.
pub struct CaptureRequest {
    phase: Phase,
    done: bool,
    slot: CompletionSlot,
    delivered: Option<String>,
}

impl View for CaptureRequest {
    type V = CaptureView;

    closed spec fn view(&self) -> CaptureView {
        CaptureView {
            phase: self.phase,
            done: self.done,
            slot_armed: self.slot@,
            delivered: self.delivered.deep_view(),
        }
    }
}

impl CaptureRequest {
    /// A fresh attempt: pending, slot armed, nothing delivered.
    pub fn new() -> (r: Self)
        ensures
            r@ == initial_view(),
    {
        CaptureRequest {
            phase: Phase::Idle,
            done: false,
            slot: CompletionSlot::new(),
            delivered: None,
        }
    }

    /// The browser window has been created at the target URL.
    pub fn window_opened(&mut self)
        requires
            old(self)@ == initial_view(),
        ensures
            final(self)@ == open_view(),
    {
        self.phase = Phase::WindowOpen;
    }

    /// The shared done flag, read by the interceptor.
    pub fn is_done(&self) -> (r: bool)
        ensures
            r == self@.done,
    {
        self.done
    }

    /// The interceptor's decision for one navigation: always allow, and
    /// dispatch a cookie read exactly on a fresh checkpoint match.
    pub fn decide_navigation(&self, ev: &NavigationEvent) -> (d: NavDecision)
        ensures
            d.allow,
            d.dispatch_cookie_read == (!self@.done && is_checkpoint(ev@)),
    {
        interceptor_decide(self.done, ev)
    }

    /// The token extractor: runs over a cookie-jar snapshot fetched off the
    /// UI context, and resolves the attempt exactly when the target cookie
    /// is present and this run wins the take-once slot.  Returns the token
    /// this run delivered, if any.
    pub fn extract_from_jar(&mut self, jar: &CookieJarSnapshot) -> (t: Option<String>)
        ensures
            final(self)@ == spec_extract(old(self)@, jar_lookup(jar@, token_cookie_name())).0,
            t.deep_view() == spec_extract(old(self)@, jar_lookup(jar@, token_cookie_name())).1,
    {
        match jar.find_cookie("d") {
            None => None,
            Some(val) => {
                if self.slot.take() {
                    self.done = true;
                    self.phase = Phase::Resolved;
                    self.delivered = Some(val.clone());
                    Some(val)
                } else {
                    None
                }
            },
        }
    }

    /// One navigation, seen end to end: the interceptor decides, and a
    /// dispatched cookie read (when it succeeded) feeds the extractor.
    pub fn handle_navigation(
        &mut self,
        ev: &NavigationEvent,
        jar: Option<&CookieJarSnapshot>,
    ) -> (t: Option<String>)
        ensures
            final(self)@ == spec_nav_step(
                old(self)@,
                ev@,
                (match jar {
                    Some(j) => Some(j@),
                    None => None,
                }),
            ).0,
            t.deep_view() == spec_nav_step(
                old(self)@,
                ev@,
                (match jar {
                    Some(j) => Some(j@),
                    None => None,
                }),
            ).1,
    {
        let d = self.decide_navigation(ev);
        if d.dispatch_cookie_read {
            match jar {
                Some(j) => self.extract_from_jar(j),
                None => None,
            }
        } else {
            None
        }
    }

    /// The window has been destroyed (by the relay handler, by the user, or
    /// by the caller).  Closes the producer side if the attempt was still
    /// pending, so the awaiting consumer unblocks with an abort.
    pub fn window_destroyed(&mut self)
        ensures
            final(self)@ == spec_abort(old(self)@),
    {
        if self.slot.take() {
            self.phase = Phase::Aborted;
        }
    }

    /// What the awaiting caller observes once the attempt is terminal:
    /// the delivered token, or a definite abort.
    pub fn observe(&self) -> (r: Result<String, CaptureError>)
        requires
            wf(self@),
            self@.phase is Resolved || self@.phase is Aborted,
        ensures
            self@.phase is Resolved ==> r is Ok && r.unwrap()@ == self@.delivered.unwrap(),
            self@.phase is Aborted ==> r is Err && r.unwrap_err() == CaptureError::Aborted,
    {
        match self.phase {
            Phase::Resolved => match &self.delivered {
                Some(tok) => Ok(tok.clone()),
                None => Err(CaptureError::Aborted),
            },
            _ => Err(CaptureError::Aborted),
        }
    }
}

/// One navigation of a scripted world: the event the interceptor sees, and
/// the cookie-jar snapshot a dispatched read would produce at that moment
/// (`None` when the read would fail).
pub struct ScriptedNavigation {
    pub event: NavigationEvent,
    pub jar: Option<CookieJarSnapshot>,
}

/// Mathematical image of a [`ScriptedNavigation`].
pub ghost struct ScriptedNavView {
    pub event: NavEventView,
    pub jar: Option<Seq<CookieView>>,
}

impl View for ScriptedNavigation {
    type V = ScriptedNavView;

    open spec fn view(&self) -> ScriptedNavView {
        ScriptedNavView { event: self.event@, jar: self.jar.deep_view() }
    }
}

impl DeepView for ScriptedNavigation {
    type V = ScriptedNavView;

    open spec fn deep_view(&self) -> ScriptedNavView {
        self.view()
    }
}

/// The state a capture attempt reaches after a whole sequence of
/// navigations, processed in order.
pub open spec fn run_script(v: CaptureView, s: Seq<ScriptedNavView>) -> CaptureView
    decreases s.len(),
{
    if s.len() == 0 {
        v
    } else {
        run_script(spec_nav_step(v, s[0].event, s[0].jar).0, s.drop_first())
    }
}

/// Appending one navigation to a sequence runs it after the rest.
pub proof fn lemma_run_script_push(v: CaptureView, s: Seq<ScriptedNavView>, e: ScriptedNavView)
    ensures
        run_script(v, s.push(e)) == spec_nav_step(run_script(v, s), e.event, e.jar).0,
    decreases s.len(),
{
    if s.len() == 0 {
        assert(s.push(e)[0] == e);
        assert(s.push(e).drop_first() =~= s);
        assert(run_script(v, s.push(e)) == run_script(
            spec_nav_step(v, e.event, e.jar).0,
            s.push(e).drop_first(),
        ));
        assert(run_script(spec_nav_step(v, e.event, e.jar).0, s) == spec_nav_step(
            v,
            e.event,
            e.jar,
        ).0);
    } else {
        let v1 = spec_nav_step(v, s[0].event, s[0].jar).0;
        assert(s.push(e)[0] == s[0]);
        assert(s.push(e).drop_first() =~= s.drop_first().push(e));
        assert(run_script(v, s.push(e)) == run_script(v1, s.drop_first().push(e)));
        lemma_run_script_push(v1, s.drop_first(), e);
        assert(run_script(v, s) == run_script(v1, s.drop_first()));
    }
}

/// Every navigation step preserves the attempt's invariant and never
/// returns it to the idle phase.
pub proof fn lemma_nav_step_preserves_wf(
    v: CaptureView,
    ev: NavEventView,
    jar: Option<Seq<CookieView>>,
)
    requires
        wf(v),
        !(v.phase is Idle),
    ensures
        wf(spec_nav_step(v, ev, jar).0),
        !(spec_nav_step(v, ev, jar).0.phase is Idle),
{
}

/// A whole navigation sequence preserves the attempt's invariant and never
/// returns it to the idle phase.
pub proof fn lemma_run_script_wf(v: CaptureView, s: Seq<ScriptedNavView>)
    requires
        wf(v),
        !(v.phase is Idle),
    ensures
        wf(run_script(v, s)),
        !(run_script(v, s).phase is Idle),
    decreases s.len(),
{
    if s.len() > 0 {
        lemma_nav_step_preserves_wf(v, s[0].event, s[0].jar);
        lemma_run_script_wf(spec_nav_step(v, s[0].event, s[0].jar).0, s.drop_first());
    }
}

/// If no navigation of a sequence matches the checkpoint rule, the whole
/// sequence changes nothing: the done flag stays as it was and no token is
/// ever delivered.
pub proof fn lemma_no_checkpoint_no_delivery(v: CaptureView, s: Seq<ScriptedNavView>)
    requires
        forall|i: int| 0 <= i < s.len() ==> !is_checkpoint(#[trigger] s[i].event),
    ensures
        run_script(v, s) == v,
    decreases s.len(),
{
    if s.len() > 0 {
        assert(!is_checkpoint(s[0].event));
        assert(spec_nav_step(v, s[0].event, s[0].jar).0 == v);
        assert(forall|i: int| 0 <= i < s.drop_first().len() ==> !is_checkpoint(
            #[trigger] s.drop_first()[i].event,
        ));
        lemma_no_checkpoint_no_delivery(v, s.drop_first());
    }
}

/// Two extractor runs that both found the target cookie deliver exactly one
/// token between them: the first winner resolves the attempt, the second
/// observes the disarmed slot and delivers nothing.
pub proof fn lemma_single_delivery(v: CaptureView, c1: Seq<char>, c2: Seq<char>)
    ensures
        v.slot_armed ==> spec_extract(v, Some(c1)).1 == Some(c1),
        v.slot_armed ==> spec_extract(spec_extract(v, Some(c1)).0, Some(c2)).1 is None,
        !(spec_extract(v, Some(c1)).1 is Some && spec_extract(
            spec_extract(v, Some(c1)).0,
            Some(c2),
        ).1 is Some),
{
}

/// Two overlapping navigations that both match the checkpoint rule with
/// the target cookie present deliver exactly one token between them, in
/// whichever order their extractor runs are serialised: the first run
/// resolves the attempt, the second observes the done flag or the disarmed
/// slot and delivers nothing.
pub proof fn lemma_concurrent_checkpoints_single_token(
    v: CaptureView,
    ev1: NavEventView,
    ev2: NavEventView,
    j1: Seq<CookieView>,
    j2: Seq<CookieView>,
)
    requires
        wf(v),
        v.phase is WindowOpen,
        is_checkpoint(ev1),
        is_checkpoint(ev2),
        jar_lookup(j1, token_cookie_name()) is Some,
        jar_lookup(j2, token_cookie_name()) is Some,
    ensures
        spec_nav_step(v, ev1, Some(j1)).1 == Some(jar_lookup(j1, token_cookie_name()).unwrap()),
        spec_nav_step(spec_nav_step(v, ev1, Some(j1)).0, ev2, Some(j2)).1 is None,
{
}

/// An extractor run over a snapshot without the target cookie changes
/// nothing, and a later run that does find the cookie still resolves the
/// attempt: the absent-cookie checkpoint is an idempotent retry point.
pub proof fn lemma_absent_cookie_retry(v: CaptureView, val: Seq<char>)
    ensures
        spec_extract(v, None) == (v, None::<Seq<char>>),
        v.slot_armed ==> spec_extract(spec_extract(v, None).0, Some(val)).1 == Some(val),
{
}

/// Destroying the window while the attempt is still pending aborts it
/// definitely: the attempt reaches the terminal aborted phase with nothing
/// delivered, so the awaiting caller observes an abort rather than
/// suspending forever.
pub proof fn lemma_destroy_aborts(v: CaptureView)
    requires
        wf(v),
        v.phase is WindowOpen,
    ensures
        spec_abort(v).phase is Aborted,
        spec_abort(v).delivered is None,
        wf(spec_abort(v)),
{
}

/// Destroying the window after the attempt resolved changes nothing:
/// closing is idempotent and the delivered token is kept.
pub proof fn lemma_destroy_after_resolve(v: CaptureView)
    requires
        wf(v),
        v.phase is Resolved,
    ensures
        spec_abort(v) == v,
{
}

/// A whole capture attempt against a scripted world: validate the URL, open
/// the window, feed every navigation through the interceptor and extractor,
/// then destroy the window and observe the outcome.  `window_ok` is whether
/// the hosting runtime manages to create the window.
pub fn run_capture(url: &str, window_ok: bool, script: &Vec<ScriptedNavigation>) -> (r: Result<
    String,
    CaptureError,
>)
    ensures
        !crate::nav::url_parses(url@) ==> r is Err && r.unwrap_err() == CaptureError::InvalidUrl,
        crate::nav::url_parses(url@) && !window_ok ==> r is Err && r.unwrap_err()
            == CaptureError::WindowCreationFailed,
        crate::nav::url_parses(url@) && window_ok ==> (match run_script(
            open_view(),
            script.deep_view(),
        ).delivered {
            Some(tok) => r is Ok && r.unwrap()@ == tok,
            None => r is Err && r.unwrap_err() == CaptureError::Aborted,
        }),
{
    match crate::nav::parse_login_url(url) {
        Err(e) => {
            return Err(e);
        },
        Ok(_first) => {},
    }
    if !window_ok {
        return Err(CaptureError::WindowCreationFailed);
    }
    let mut req = CaptureRequest::new();
    req.window_opened();
    let ghost all = script.deep_view();
    proof {
        assert(all.take(0) =~= Seq::<ScriptedNavView>::empty());
    }
    let n = script.len();
    let mut i: usize = 0;
    while i < n
        invariant
            n == script.len(),
            all == script.deep_view(),
            0 <= i <= n,
            req@ == run_script(open_view(), all.take(i as int)),
        decreases n - i,
    {
        let step = &script[i];
        assert(step@ == all[i as int]);
        let jar_ref = match &step.jar {
            Some(j) => Some(j),
            None => None,
        };
        let _token = req.handle_navigation(&step.event, jar_ref);
        proof {
            lemma_run_script_push(open_view(), all.take(i as int), all[i as int]);
            assert(all.take(i as int).push(all[i as int]) =~= all.take(i + 1));
        }
        i = i + 1;
    }
    proof {
        assert(all.take(n as int) =~= all);
        lemma_run_script_wf(open_view(), all);
    }
    req.window_destroyed();
    req.observe()
}

} // verus!
