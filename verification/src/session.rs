//! Session state: identity and authentication status for the one client
//! session, plus the rate gate for the stochastic ban check.
//!
//! Created unauthenticated at process start; mutated only by a successful
//! login or registration and by the ban check gate; never destroyed during
//! the process lifetime.

use vstd::prelude::*;

verus! {

/// Least interval between two stochastic ban checks, in milliseconds.
pub const BAN_CHECK_GATE_MILLIS: i64 = 1000;

/// The current session's identity and authentication status.
pub struct SessionState {
    pub logged_in: bool,
    pub user_id: Option<String>,
    pub username: Option<String>,
    pub session_token: Option<String>,
    pub last_ban_check_millis: i64,
}

impl SessionState {
    /// Well-formedness: identity, display name and token are present exactly
    /// while authenticated.
    pub open spec fn wf(self) -> bool {
        &&& self.logged_in ==> self.user_id is Some && self.username is Some
            && self.session_token is Some
        &&& !self.logged_in ==> self.user_id is None && self.username is None
            && self.session_token is None
    }

    /// The unauthenticated state at process start.
    pub fn new(now_ms: i64) -> (s: SessionState)
        ensures
            s.wf(),
            !s.logged_in,
            s.last_ban_check_millis == now_ms,
    {
        SessionState {
            logged_in: false,
            user_id: None,
            username: None,
            session_token: None,
            last_ban_check_millis: now_ms,
        }
    }

    /// Records a session the remote store has confirmed: the session becomes
    /// authenticated with the given identity, display name and token.
    pub fn complete_login(&mut self, user_id: String, username: String, token: String)
        requires
            old(self).wf(),
        ensures
            final(self).wf(),
            final(self).logged_in,
            final(self).user_id == Some(user_id),
            final(self).username == Some(username),
            final(self).session_token == Some(token),
            final(self).last_ban_check_millis == old(self).last_ban_check_millis,
    {
        self.logged_in = true;
        self.user_id = Some(user_id);
        self.username = Some(username);
        self.session_token = Some(token);
    }

    /// The rate gate for the stochastic ban check: passes, and records the
    /// check, only when at least `BAN_CHECK_GATE_MILLIS` have elapsed since
    /// the last passed check.
    pub fn gate_ban_check(&mut self, now_ms: i64) -> (go: bool)
        ensures
            go == (now_ms - old(self).last_ban_check_millis >= BAN_CHECK_GATE_MILLIS),
            go ==> *final(self) == (SessionState { last_ban_check_millis: now_ms, ..*old(self) }),
            !go ==> *final(self) == *old(self),
    {
        let elapsed: i128 = (now_ms as i128) - (self.last_ban_check_millis as i128);
        if elapsed >= BAN_CHECK_GATE_MILLIS as i128 {
            self.last_ban_check_millis = now_ms;
            true
        } else {
            false
        }
    }
}

/// The session token for a confirmed login.
pub fn generate_session_token() -> (t: String)
    ensures
        t@ == "dummy_token"@,
{
    "dummy_token".to_owned()
}

} // verus!
