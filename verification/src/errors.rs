//! Error kinds surfaced by the engine's foreground operations.
//!
//! Background loops never propagate these outward; foreground operations
//! (send, login, register, status-check) return them for the presentation
//! layer to surface as system messages.

use vstd::prelude::*;

verus! {

/// The error vocabulary of the engine.
#[derive(Debug)]
pub enum ChatError {
    /// Transport-level failure while talking to the remote store.
    NetworkFailure(String),
    /// Non-success response from the remote store, with its body.
    RemoteApiError(String),
    /// Malformed payload or unparseable timestamp.
    ParseFailure(String),
    /// Bad credentials, hashing failure, or unknown username.
    AuthFailure(String),
    /// A send was attempted while the session is suspended.
    SuspensionError { reason: String, remaining_ms: i64 },
    /// An action requiring identity was attempted while unauthenticated.
    IdentificationError,
}

} // verus!
