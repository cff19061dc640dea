//! The message record carried from the producers (poller, send path) to the
//! presentation consumer.

use vstd::prelude::*;

verus! {

/// A finalized message record.
///
/// `created_at` is kept in its wire form (an RFC 3339 timestamp string); the
/// poller orders messages by the parsed value of this field. `skip_polling`
/// marks a message the sender has already displayed optimistically, so the
/// consumer's render step must not display it again.
#[derive(Debug)]
pub struct ReceivedMessage {
    pub content: String,
    pub username: String,
    pub created_at: String,
    pub user_id: String,
    pub skip_polling: bool,
}

} // verus!
