//! The session of one caller, as far as the service reads and writes it:
//! the user it is logged in as, if any.

use vstd::prelude::*;

verus! {

/// Key under which a session holds the identifier of its user.
pub const SESSION_USER_ID: &'static str = "uid";

/// A session is anonymous until a login writes a user into it, and
/// anonymous again once the user is removed or the session has expired.
#[derive(Clone, Copy, Debug, PartialEq, Eq)]
pub struct Session {
    user_id: Option<i64>,
}

impl View for Session {
    type V = Option<i64>;

    closed spec fn view(&self) -> Option<i64> {
        self.user_id
    }
}

impl Session {
    /// An anonymous session.
    pub fn new() -> (session: Session)
        ensures
            session@ is None,
    {
        Session { user_id: None }
    }

    /// The user that the session is logged in as.
    pub fn get(&self) -> (uid: Option<i64>)
        ensures
            uid == self@,
    {
        self.user_id
    }

    /// Logs the session in as `uid`.
    pub fn insert(&mut self, uid: i64)
        ensures
            final(self)@ == Some(uid),
    {
        self.user_id = Some(uid);
    }

    /// Logs the session out and returns the user it was logged in as.
    pub fn remove(&mut self) -> (uid: Option<i64>)
        ensures
            uid == old(self)@,
            final(self)@ is None,
    {
        let uid = self.user_id;
        self.user_id = None;
        uid
    }

    /// Ends the session because its time is up.
    pub fn expire(&mut self)
        ensures
            final(self)@ is None,
    {
        self.user_id = None;
    }
}

} // verus!
