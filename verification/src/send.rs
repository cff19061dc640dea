//! The send path's obligations around the remote append: reject sends
//! without identity or while suspended before any store contact, decide
//! eviction of the oldest message, and finalize the record of a confirmed
//! send for the dispatch channel and for optimistic display.

use vstd::prelude::*;

use crate::ban::BanState;
use crate::errors::ChatError;
use crate::msg::ReceivedMessage;
use crate::session::SessionState;

verus! {

/// Live-window cap on the remote message collection: before appending a new
/// message, the oldest one is evicted whenever the count has reached this cap.
pub const MESSAGE_CAP: usize = 20;

/// Whether the send path must evict the oldest remote message before
/// appending, given the remote collection's current total.
pub fn needs_eviction(total: usize) -> (r: bool)
    ensures
        r == (total >= MESSAGE_CAP),
{
    total >= MESSAGE_CAP
}

/// Admission control for a send attempt, run before any contact with the
/// remote store. An unauthenticated session is an identification error; a
/// still-active suspension (after lazy expiry reconciliation) is a
/// suspension error carrying the reason and the remaining time. Times are
/// non-negative milliseconds since the Unix epoch.
pub fn check_send_allowed(session: &SessionState, ban: &mut BanState, now_ms: i64) -> (r: Result<
    (),
    ChatError,
>)
    requires
        old(ban).wf(),
        now_ms >= 0,
    ensures
        final(ban).wf(),
        !session.logged_in ==> r is Err && r->Err_0 is IdentificationError && *final(ban) == *old(
            ban,
        ),
        session.logged_in ==> ({
            let b = old(ban).spec_reconciled(now_ms);
            &&& *final(ban) == b
            &&& b.active ==> r is Err && (r->Err_0 matches ChatError::SuspensionError {
                reason,
                remaining_ms,
            } && reason == b.reason->0 && remaining_ms == b.expires_at_millis->0 - now_ms)
            &&& !b.active ==> r is Ok
        }),
{
    if !session.logged_in {
        return Err(ChatError::IdentificationError);
    }
    ban.reconcile(now_ms);
    if ban.active {
        let reason = match ban.reason.as_ref() {
            Option::Some(t) => t.clone(),
            Option::None => String::new(),
        };
        let expires = match ban.expires_at_millis {
            Option::Some(e) => e,
            Option::None => now_ms,
        };
        return Err(ChatError::SuspensionError { reason, remaining_ms: expires - now_ms });
    }
    Ok(())
}

/// The record of a send the remote store has confirmed, as it is enqueued
/// and returned for optimistic display: marked as locally originated so the
/// consumer's render step will not display it a second time, and attributed
/// to the session's display name, or to "You" where none is set.
pub fn finalize_sent_message(
    content: String,
    created_at: String,
    user_id: String,
    username: Option<String>,
) -> (m: ReceivedMessage)
    ensures
        m.content == content,
        m.created_at == created_at,
        m.user_id == user_id,
        m.skip_polling,
        match username {
            Option::Some(u) => m.username == u,
            Option::None => m.username@ == "You"@,
        },
{
    let name = match username {
        Option::Some(u) => u,
        Option::None => "You".to_owned(),
    };
    ReceivedMessage { content, username: name, created_at, user_id, skip_polling: true }
}

} // verus!
