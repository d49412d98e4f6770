//! Point-in-time view of a browser window's cookies.
//!
//! A [`CookieJarSnapshot`] is fetched on demand when the checkpoint is
//! reached; it is never cached across checkpoints.  The token extractor
//! looks up the target cookie (named `d`) by name; the first cookie with
//! that name wins.

use vstd::prelude::*;

verus! {

/// One cookie of a window's jar.
#[derive(Debug)]
pub struct Cookie {
    pub name: String,
    pub value: String,
}

/// Mathematical image of a [`Cookie`].
pub ghost struct CookieView {
    pub name: Seq<char>,
    pub value: Seq<char>,
}

impl View for Cookie {
    type V = CookieView;

    open spec fn view(&self) -> CookieView {
        CookieView { name: self.name@, value: self.value@ }
    }
}

impl DeepView for Cookie {
    type V = CookieView;

    open spec fn deep_view(&self) -> CookieView {
        self.view()
    }
}

/// A read-only snapshot of the cookies of one window.
#[derive(Debug)]
pub struct CookieJarSnapshot {
    pub cookies: Vec<Cookie>,
}

impl View for CookieJarSnapshot {
    type V = Seq<CookieView>;

    open spec fn view(&self) -> Seq<CookieView> {
        self.cookies.deep_view()
    }
}

impl DeepView for CookieJarSnapshot {
    type V = Seq<CookieView>;

    open spec fn deep_view(&self) -> Seq<CookieView> {
        self.view()
    }
}

/// The value of the first cookie named `name`, if any.
pub open spec fn jar_lookup(jar: Seq<CookieView>, name: Seq<char>) -> Option<Seq<char>>
    decreases jar.len(),
{
    if jar.len() == 0 {
        None
    } else if jar[0].name == name {
        Some(jar[0].value)
    } else {
        jar_lookup(jar.drop_first(), name)
    }
}

impl CookieJarSnapshot {
    /// Finds the value of the first cookie with the given name.
    pub fn find_cookie(&self, name: &str) -> (r: Option<String>)
        ensures
            r.deep_view() == jar_lookup(self@, name@),
    {
        let n = self.cookies.len();
        let mut i: usize = 0;
        assert(self@.skip(0) =~= self@);
        while i < n
            invariant
                n == self.cookies.len(),
                0 <= i <= n,
                jar_lookup(self@.skip(i as int), name@) == jar_lookup(self@, name@),
            decreases n - i,
        {
            let c = &self.cookies[i];
            assert(self@[i as int] == self.cookies@[i as int].deep_view());
            assert(self@.skip(i as int)[0] == self@[i as int]);
            if crate::text::str_eq(c.name.as_str(), name) {
                return Some(c.value.clone());
            }
            assert(self@.skip(i as int).drop_first() =~= self@.skip(i + 1));
            i = i + 1;
        }
        assert(self@.skip(n as int) =~= Seq::<CookieView>::empty());
        None
    }
}

} // verus!
