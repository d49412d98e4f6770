//! The local operating-system user identity handed to the front end.
//!
//! The lookup itself (resolving the current user id against the OS user
//! database) is the surrounding application's business; the record it
//! builds from the looked-up values is the library's.

use vstd::prelude::*;

verus! {

/// The identity of the local operating-system user.
#[derive(Debug)]
pub struct SystemUser {
    pub uid: u32,
    pub name: String,
    pub primary_group: u32,
}

impl SystemUser {
    /// Builds the record from the looked-up values.
    pub fn from_lookup(uid: u32, name: String, primary_group: u32) -> (r: Self)
        ensures
            r.uid == uid,
            r.name@ == name@,
            r.primary_group == primary_group,
    {
        SystemUser { uid, name, primary_group }
    }
}

} // verus!
