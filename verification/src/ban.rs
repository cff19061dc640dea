//! The ban monitor: a state machine over {Clear, Banned} for the current
//! session's temporary suspension.
//!
//! Onset is either server-reported (an active ban found at login) or
//! stochastic (a rare uniform roll while active). Expiry is reconciled
//! lazily: whenever ban status is consulted, an elapsed ban clears all its
//! fields together. While Banned, the send path rejects new messages.

use vstd::prelude::*;

use crate::errors::ChatError;

verus! {

/// Chance of a stochastic ban per roll, in hundredths (five per cent).
pub const BAN_CHANCE_PERCENT: u32 = 5;

/// Number of entries in the fixed catalog of ban reasons.
pub const BAN_REASON_COUNT: u32 = 52;

/// Least stochastic ban duration, in seconds (inclusive).
pub const BAN_MIN_SECONDS: u32 = 10;

/// Greatest stochastic ban duration, in seconds (exclusive).
pub const BAN_MAX_SECONDS: u32 = 30;

/// The fixed catalog of ban reasons, by index.
pub open spec fn spec_ban_reason(i: int) -> Seq<char> {
    if i == 0 { "illegal emoji usage"@ }
    else if i == 1 { "excessive happiness"@ }
    else if i == 2 { "breathing too loudly"@ }
    else if i == 3 { "suspicious typing patterns"@ }
    else if i == 4 { "the Random Ban God's will"@ }
    else if i == 5 { "using Comic Sans unironically"@ }
    else if i == 6 { "sending messages too fast"@ }
    else if i == 7 { "sending messages too slow"@ }
    else if i == 8 { "liking pineapple on pizza"@ }
    else if i == 9 { "disliking pineapple on pizza"@ }
    else if i == 10 { "existing"@ }
    else if i == 11 { "spelling mistakes"@ }
    else if i == 12 { "capitalizing every word"@ }
    else if i == 13 { "using too many exclamation marks!!!"@ }
    else if i == 14 { "being too polite"@ }
    else if i == 15 { "being too rude"@ }
    else if i == 16 { "suspicious silence"@ }
    else if i == 17 { "laughing too much"@ }
    else if i == 18 { "not laughing enough"@ }
    else if i == 19 { "incorrect opinion detected"@ }
    else if i == 20 { "overusing GIFs"@ }
    else if i == 21 { "speaking forbidden languages"@ }
    else if i == 22 { "sending cursed images"@ }
    else if i == 23 { "being a bot (maybe)"@ }
    else if i == 24 { "having a suspiciously cool username"@ }
    else if i == 25 { "having no profile picture"@ }
    else if i == 26 { "having too many profile pictures"@ }
    else if i == 27 { "sending memes at 3 AM"@ }
    else if i == 28 { "excessive lurking"@ }
    else if i == 29 { "breathing in Morse code"@ }
    else if i == 30 { "using tabs instead of spaces"@ }
    else if i == 31 { "using spaces instead of tabs"@ }
    else if i == 32 { "being too smart"@ }
    else if i == 33 { "being too dumb"@ }
    else if i == 34 { "using forbidden words"@ }
    else if i == 35 { "using forbidden thoughts"@ }
    else if i == 36 { "being suspiciously normal"@ }
    else if i == 37 { "changing nicknames too often"@ }
    else if i == 38 { "having a lucky day"@ }
    else if i == 39 { "having an unlucky day"@ }
    else if i == 40 { "responding to bots"@ }
    else if i == 41 { "arguing with moderators"@ }
    else if i == 42 { "being too relatable"@ }
    else if i == 43 { "winning too many arguments"@ }
    else if i == 44 { "losing too many arguments"@ }
    else if i == 45 { "complaining about random bans"@ }
    else if i == 46 { "random quantum fluctuations"@ }
    else if i == 47 { "karma imbalance detected"@ }
    else if i == 48 { "the server hamster tripped"@ }
    else if i == 49 { "too much drip"@ }
    else if i == 50 { "not enough drip"@ }
    else { "interdimensional travel violations"@ }
}

/// The catalog entry at index `i`, as an owned string.
pub fn ban_reason_text(i: u32) -> (r: String)
    requires
        i < BAN_REASON_COUNT,
    ensures
        r@ == spec_ban_reason(i as int),
{
    let s: &str =
        if i == 0 { "illegal emoji usage" }
        else if i == 1 { "excessive happiness" }
        else if i == 2 { "breathing too loudly" }
        else if i == 3 { "suspicious typing patterns" }
        else if i == 4 { "the Random Ban God's will" }
        else if i == 5 { "using Comic Sans unironically" }
        else if i == 6 { "sending messages too fast" }
        else if i == 7 { "sending messages too slow" }
        else if i == 8 { "liking pineapple on pizza" }
        else if i == 9 { "disliking pineapple on pizza" }
        else if i == 10 { "existing" }
        else if i == 11 { "spelling mistakes" }
        else if i == 12 { "capitalizing every word" }
        else if i == 13 { "using too many exclamation marks!!!" }
        else if i == 14 { "being too polite" }
        else if i == 15 { "being too rude" }
        else if i == 16 { "suspicious silence" }
        else if i == 17 { "laughing too much" }
        else if i == 18 { "not laughing enough" }
        else if i == 19 { "incorrect opinion detected" }
        else if i == 20 { "overusing GIFs" }
        else if i == 21 { "speaking forbidden languages" }
        else if i == 22 { "sending cursed images" }
        else if i == 23 { "being a bot (maybe)" }
        else if i == 24 { "having a suspiciously cool username" }
        else if i == 25 { "having no profile picture" }
        else if i == 26 { "having too many profile pictures" }
        else if i == 27 { "sending memes at 3 AM" }
        else if i == 28 { "excessive lurking" }
        else if i == 29 { "breathing in Morse code" }
        else if i == 30 { "using tabs instead of spaces" }
        else if i == 31 { "using spaces instead of tabs" }
        else if i == 32 { "being too smart" }
        else if i == 33 { "being too dumb" }
        else if i == 34 { "using forbidden words" }
        else if i == 35 { "using forbidden thoughts" }
        else if i == 36 { "being suspiciously normal" }
        else if i == 37 { "changing nicknames too often" }
        else if i == 38 { "having a lucky day" }
        else if i == 39 { "having an unlucky day" }
        else if i == 40 { "responding to bots" }
        else if i == 41 { "arguing with moderators" }
        else if i == 42 { "being too relatable" }
        else if i == 43 { "winning too many arguments" }
        else if i == 44 { "losing too many arguments" }
        else if i == 45 { "complaining about random bans" }
        else if i == 46 { "random quantum fluctuations" }
        else if i == 47 { "karma imbalance detected" }
        else if i == 48 { "the server hamster tripped" }
        else if i == 49 { "too much drip" }
        else if i == 50 { "not enough drip" }
        else { "interdimensional travel violations" };
    s.to_owned()
}

/// Relies on rand's `thread_rng` and `Rng::gen_range` over `0..n`: a uniform
/// draw below `n`. `gen_range` panics on an empty range, so `n` must be
/// positive; nothing more is promised of a random value.
#[verifier::external_body]
fn draw_below(n: u32) -> (r: u32)
    requires
        n > 0,
    ensures
        r < n,
{
    rand::Rng::gen_range(&mut rand::thread_rng(), 0..n)
}

/// A server-reported ban row, as fetched from the ban collection: fields may
/// be absent in the stored record.
pub struct ServerBanRecord {
    pub reason: Option<String>,
    pub expires_at: Option<String>,
    pub is_active: bool,
}

/// A stochastic ban that has been decided but not yet imposed (the remote
/// store must confirm the appended ban row first).
pub struct PendingBan {
    pub reason: String,
    pub expires_at_millis: i64,
}

/// The session's suspension state.
pub struct BanState {
    pub active: bool,
    pub reason: Option<String>,
    pub expires_at_millis: Option<i64>,
}

impl BanState {
    /// Well-formedness: an active ban carries a reason and an expiry; an
    /// inactive state carries neither. Every constructor establishes this
    /// and every transition preserves it; `impose` additionally requires the
    /// expiry to lie strictly in the future at imposition time.
    pub open spec fn wf(self) -> bool {
        &&& self.active ==> self.reason is Some && self.expires_at_millis is Some
        &&& !self.active ==> self.reason is None && self.expires_at_millis is None
    }

    /// Whether the state is Clear (not Banned).
    pub open spec fn is_clear(self) -> bool {
        !self.active
    }

    /// The Clear state.
    pub fn new() -> (b: BanState)
        ensures
            b.wf(),
            b.is_clear(),
    {
        BanState { active: false, reason: None, expires_at_millis: None }
    }

    /// Transition to Banned with the given reason and expiry, which must lie
    /// strictly in the future.
    pub fn impose(&mut self, reason: String, expires_at_millis: i64, now_ms: i64)
        requires
            old(self).wf(),
            expires_at_millis > now_ms,
        ensures
            final(self).wf(),
            final(self).active,
            final(self).reason == Some(reason),
            final(self).expires_at_millis == Some(expires_at_millis),
    {
        self.active = true;
        self.reason = Some(reason);
        self.expires_at_millis = Some(expires_at_millis);
    }

    /// The state after lazy expiry reconciliation at `now_ms`: an active ban
    /// whose expiry has been reached is cleared, all three fields together;
    /// any other state is untouched.
    pub open spec fn spec_reconciled(self, now_ms: i64) -> BanState {
        if self.active && now_ms >= self.expires_at_millis->0 {
            BanState { active: false, reason: None, expires_at_millis: None }
        } else {
            self
        }
    }

    /// Lazy expiry reconciliation, invoked by every path that consults ban
    /// status: an active ban whose expiry has been reached is cleared, all
    /// three fields together; otherwise the state is untouched.
    pub fn reconcile(&mut self, now_ms: i64)
        requires
            old(self).wf(),
        ensures
            final(self).wf(),
            *final(self) == old(self).spec_reconciled(now_ms),
            old(self).active && now_ms >= old(self).expires_at_millis->0 ==> final(self).is_clear(),
    {
        if self.active {
            let expires = match self.expires_at_millis {
                Option::Some(e) => e,
                Option::None => now_ms,
            };
            if now_ms >= expires {
                self.active = false;
                self.reason = None;
                self.expires_at_millis = None;
            }
        }
    }

    /// The whole seconds left on an active ban, as shown in the
    /// presentation layer's countdown. Times are non-negative milliseconds
    /// since the Unix epoch, taken before the ban has expired.
    pub fn remaining_seconds(&self, now_ms: i64) -> (r: i64)
        requires
            self.wf(),
            self.active,
            0 <= now_ms <= self.expires_at_millis->0,
        ensures
            r == (self.expires_at_millis->0 - now_ms) / 1000,
    {
        let expires = match self.expires_at_millis {
            Option::Some(e) => e,
            Option::None => now_ms,
        };
        (expires - now_ms) / 1000
    }

    /// The server-path check run once after a successful login: an active
    /// stored ban whose expiry still lies in the future imposes the ban; an
    /// active stored ban already elapsed leaves the state Clear-equivalent
    /// (all fields cleared); an inactive or incomplete record changes
    /// nothing. An unparseable stored expiry is a parse failure.
    pub fn apply_server_check(&mut self, now_ms: i64, record: Option<&ServerBanRecord>) -> (r:
        Result<(), ChatError>)
        requires
            old(self).wf(),
        ensures
            final(self).wf(),
            match record {
                Option::None => r is Ok && *final(self) == *old(self),
                Option::Some(b) => {
                    if !b.is_active || b.reason is None || b.expires_at is None {
                        r is Ok && *final(self) == *old(self)
                    } else {
                        match crate::timestamp::rfc3339_millis(b.expires_at->0@) {
                            Option::None => r is Err && r->Err_0 is ParseFailure && *final(self)
                                == *old(self),
                            Option::Some(t) => r is Ok && (if t > now_ms {
                                final(self).active && final(self).reason == Some(b.reason->0)
                                    && final(self).expires_at_millis == Some(t)
                            } else {
                                final(self).is_clear()
                            }),
                        }
                    }
                },
            },
    {
        match record {
            Option::None => Ok(()),
            Option::Some(b) => {
                if !b.is_active {
                    return Ok(());
                }
                match (b.reason.as_ref(), b.expires_at.as_ref()) {
                    (Option::Some(reason), Option::Some(expires_at)) => {
                        match crate::timestamp::parse_rfc3339_millis(expires_at.as_str()) {
                            Option::Some(t) => {
                                if t > now_ms {
                                    self.active = true;
                                    self.reason = Some(reason.clone());
                                    self.expires_at_millis = Some(t);
                                } else {
                                    self.active = false;
                                    self.reason = None;
                                    self.expires_at_millis = None;
                                }
                                Ok(())
                            },
                            Option::None => Err(
                                ChatError::ParseFailure("invalid ban expiry timestamp".to_owned()),
                            ),
                        }
                    },
                    _ => Ok(()),
                }
            },
        }
    }

    /// One stochastic trial ("ban roll") while authenticated and Clear:
    /// decides, with chance `BAN_CHANCE_PERCENT` in a hundred, a ban with a
    /// reason drawn uniformly from the catalog and a duration drawn
    /// uniformly from `[BAN_MIN_SECONDS, BAN_MAX_SECONDS)` seconds. Whatever
    /// the draws, any decided ban expires strictly after `now_ms`, within
    /// the catalog and the duration bounds; the state itself is untouched
    /// until the remote store confirms and `impose` is called.
    pub fn roll_for_ban(&self, now_ms: i64) -> (r: Option<PendingBan>)
        requires
            self.wf(),
            self.is_clear(),
            now_ms <= i64::MAX - 30_000,
        ensures
            r is Some ==> ({
                &&& now_ms < r->0.expires_at_millis
                &&& now_ms + BAN_MIN_SECONDS * 1000 <= r->0.expires_at_millis < now_ms
                    + BAN_MAX_SECONDS * 1000
                &&& exists|i: int|
                    0 <= i < BAN_REASON_COUNT && r->0.reason@ == spec_ban_reason(i)
            }),
    {
        let chance = draw_below(100);
        if chance < BAN_CHANCE_PERCENT {
            let idx = draw_below(BAN_REASON_COUNT);
            let duration_secs = BAN_MIN_SECONDS + draw_below(BAN_MAX_SECONDS - BAN_MIN_SECONDS);
            decide_roll(now_ms, idx, duration_secs)
        } else {
            None
        }
    }
}

/// The deterministic tail of a successful ban roll: the pending ban for a
/// drawn catalog index and duration.
pub fn decide_roll(now_ms: i64, reason_idx: u32, duration_secs: u32) -> (r: Option<PendingBan>)
    requires
        reason_idx < BAN_REASON_COUNT,
        BAN_MIN_SECONDS <= duration_secs < BAN_MAX_SECONDS,
        now_ms <= i64::MAX - 30_000,
    ensures
        r is Some,
        r->0.reason@ == spec_ban_reason(reason_idx as int),
        r->0.expires_at_millis == now_ms + duration_secs * 1000,
{
    let reason = ban_reason_text(reason_idx);
    let expires_at_millis: i64 = now_ms + (duration_secs as i64) * 1000;
    Some(PendingBan { reason, expires_at_millis })
}

/// Ban invariant: in every well-formed state, Banned implies a reason and an
/// expiry are present (and `impose` admits only an expiry strictly in the
/// future), while Clear implies reason and expiry are both unset.
pub proof fn lemma_ban_invariant(b: BanState)
    requires
        b.wf(),
    ensures
        b.active ==> b.reason is Some && b.expires_at_millis is Some,
        !b.active ==> b.reason is None && b.expires_at_millis is None,
{
}

} // verus!
