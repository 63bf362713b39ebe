//! The identifier of the login session this daemon manages.

use vstd::prelude::*;

verus! {

/// An opaque identifier for a logind-style session. It is resolved once from
/// the environment at startup and never changes for the process lifetime.
#[derive(Debug, Eq, PartialEq, Hash)]
pub struct SessionId(String);

impl View for SessionId {
    type V = Seq<char>;

    closed spec fn view(&self) -> Seq<char> {
        self.0@
    }
}

impl SessionId {
    /// Wraps a raw session id string.
    pub fn new(s: String) -> (r: SessionId)
        ensures
            r@ == s@,
    {
        SessionId(s)
    }

    /// The raw session id string.
    pub fn as_str(&self) -> (r: &str)
        ensures
            r@ == self@,
    {
        self.0.as_str()
    }
}

} // verus!
