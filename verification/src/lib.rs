//! Core synchronization engine for a small chat client: a cursor-tracking
//! poller that forwards newly seen remote messages in order, a retention
//! sweeper that plans bounded delete batches, a dispatch channel between the
//! background producers and the presentation consumer, a ban-state machine
//! with server-reported and stochastic onset, and the session/send path.

pub mod auth;
pub mod ban;
pub mod channel;
pub mod errors;
pub mod escape;
pub mod msg;
pub mod poller;
pub mod send;
pub mod session;
pub mod sweeper;
pub mod timestamp;
