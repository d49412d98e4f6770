//! Capture of a session authentication token from an embedded login flow.
//!
//! The library models the token-capture protocol: a browser window is driven
//! to a third-party login page, every in-window navigation is inspected
//! against a checkpoint rule, and at the checkpoint a secret cookie is
//! extracted and handed to the awaiting caller exactly once.  The window
//! plumbing itself lives outside the library; everything that decides —
//! the checkpoint rule, the cookie lookup, the take-once completion slot,
//! the capture state machine, and the storage-relay decisions — is here,
//! with its behaviour stated in contracts.

use vstd::prelude::*;

pub mod capture;
pub mod cookies;
pub mod gpu;
pub mod identity;
pub mod nav;
pub mod relay;
pub mod slot;
pub mod text;

verus! {

/// The ways a capture attempt can fail, as observed by the caller.
#[derive(Clone, Copy, Debug, PartialEq, Eq, Structural)]
pub enum CaptureError {
    /// The login URL did not parse; no window was opened.
    InvalidUrl,
    /// The embedded browser window could not be created.
    WindowCreationFailed,
    /// The window was destroyed before any token was delivered.
    Aborted,
}

} // verus!
