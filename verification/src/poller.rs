//! The cursor-tracking poller.
//!
//! On each tick the poller is handed the latest window of remote messages in
//! chronological order and forwards exactly those strictly newer than its
//! cursor, then advances the cursor to the greatest parseable timestamp
//! observed. Records whose timestamp does not parse are dropped and never
//! advance the cursor. The cursor is never rewound, which makes forwarding a
//! given record a once-per-lifetime event.

use vstd::prelude::*;

use crate::msg::ReceivedMessage;
use crate::timestamp::parse_rfc3339_millis;
use crate::timestamp::rfc3339_millis;

verus! {

/// Size of the fetch window: how many of the most recent remote messages
/// one tick asks the store for.
pub const FETCH_WINDOW: usize = 20;

/// The parsed timestamp of a message record.
pub open spec fn msg_millis(m: ReceivedMessage) -> Option<i64> {
    rfc3339_millis(m.created_at@)
}

/// Whether a message with parsed timestamp `t` passes a cursor standing at
/// `c`: only strictly newer messages are forwarded.
pub open spec fn passes(c: Option<i64>, t: i64) -> bool {
    match c {
        Option::Some(cv) => t > cv,
        Option::None => true,
    }
}

/// The cursor after observing one parsed timestamp: advanced, never rewound.
pub open spec fn advanced(c: Option<i64>, t: i64) -> Option<i64> {
    match c {
        Option::Some(cv) => Option::Some(
            if t > cv {
                t
            } else {
                cv
            },
        ),
        Option::None => Option::Some(t),
    }
}

/// A record as the poller forwards it: tagged as polled, not locally sent.
pub open spec fn forwarded_form(m: ReceivedMessage) -> ReceivedMessage {
    ReceivedMessage { skip_polling: false, ..m }
}

/// The cursor after one tick over the batch `msgs`, starting from `c`: the
/// maximum of `c` and every parseable timestamp observed in the batch.
pub open spec fn tick_cursor(c: Option<i64>, msgs: Seq<ReceivedMessage>) -> Option<i64>
    decreases msgs.len(),
{
    if msgs.len() == 0 {
        c
    } else {
        match msg_millis(msgs[0]) {
            Option::Some(t) => tick_cursor(advanced(c, t), msgs.drop_first()),
            Option::None => tick_cursor(c, msgs.drop_first()),
        }
    }
}

/// The records one tick forwards, in batch order: each parseable record
/// strictly newer than the cursor as it stood when the record was reached.
pub open spec fn tick_forwarded(c: Option<i64>, msgs: Seq<ReceivedMessage>) -> Seq<
    ReceivedMessage,
>
    decreases msgs.len(),
{
    if msgs.len() == 0 {
        Seq::<ReceivedMessage>::empty()
    } else {
        let rest = msgs.drop_first();
        match msg_millis(msgs[0]) {
            Option::Some(t) => {
                if passes(c, t) {
                    seq![forwarded_form(msgs[0])] + tick_forwarded(advanced(c, t), rest)
                } else {
                    tick_forwarded(advanced(c, t), rest)
                }
            },
            Option::None => tick_forwarded(c, rest),
        }
    }
}

/// Keeps the local view of remote messages current without duplication or
/// reordering. Owns the cursor: the high-water-mark timestamp up to which
/// remote messages have already been forwarded.
pub struct Poller {
    cursor_millis: Option<i64>,
}

impl Poller {
    /// The cursor's current value, in milliseconds since the epoch; `None`
    /// until a first parseable record is observed.
    pub closed spec fn cursor_spec(&self) -> Option<i64> {
        self.cursor_millis
    }

    /// A fresh poller that has forwarded nothing yet.
    pub fn new() -> (p: Poller)
        ensures
            p.cursor_spec() is None,
    {
        Poller { cursor_millis: None }
    }

    /// The cursor's current value.
    pub fn cursor(&self) -> (c: Option<i64>)
        ensures
            c == self.cursor_spec(),
    {
        self.cursor_millis
    }

    /// One tick over the fetch window as the remote store returns it: the
    /// most recent records ordered newest first. The window is reversed to
    /// chronological order and forwarded through `tick`.
    pub fn tick_window(&mut self, newest_first: Vec<ReceivedMessage>) -> (fwd: Vec<
        ReceivedMessage,
    >)
        ensures
            final(self).cursor_spec() == tick_cursor(
                old(self).cursor_spec(),
                newest_first@.reverse(),
            ),
            fwd@ == tick_forwarded(old(self).cursor_spec(), newest_first@.reverse()),
    {
        let batch = chronological(newest_first);
        self.tick(batch)
    }

    /// One tick: forwards the strictly-newer records of the fetched batch in
    /// order and advances the cursor to the greatest parseable timestamp
    /// observed, even for records already forwarded by an earlier tick.
    pub fn tick(&mut self, batch: Vec<ReceivedMessage>) -> (fwd: Vec<ReceivedMessage>)
        ensures
            final(self).cursor_spec() == tick_cursor(old(self).cursor_spec(), batch@),
            fwd@ == tick_forwarded(old(self).cursor_spec(), batch@),
    {
        let ghost orig: Seq<ReceivedMessage> = batch@;
        let ghost c0: Option<i64> = self.cursor_millis;
        let mut batch = batch;
        let mut fwd: Vec<ReceivedMessage> = Vec::new();
        proof {
            assert(fwd@ + tick_forwarded(self.cursor_millis, batch@) =~= tick_forwarded(c0, orig));
        }
        while batch.len() > 0
            invariant
                tick_cursor(c0, orig) == tick_cursor(self.cursor_millis, batch@),
                tick_forwarded(c0, orig) == fwd@ + tick_forwarded(self.cursor_millis, batch@),
            decreases batch.len(),
        {
            let ghost before: Seq<ReceivedMessage> = batch@;
            let ghost c_here: Option<i64> = self.cursor_millis;
            let m = batch.remove(0);
            proof {
                assert(batch@ =~= before.drop_first());
            }
            match parse_rfc3339_millis(m.created_at.as_str()) {
                Option::Some(t) => {
                    let forward = match self.cursor_millis {
                        Option::Some(cv) => t > cv,
                        Option::None => true,
                    };
                    let new_cursor = match self.cursor_millis {
                        Option::Some(cv) => if t > cv {
                            t
                        } else {
                            cv
                        },
                        Option::None => t,
                    };
                    self.cursor_millis = Option::Some(new_cursor);
                    proof {
                        assert(self.cursor_millis == advanced(c_here, t));
                    }
                    if forward {
                        let fm = ReceivedMessage {
                            content: m.content,
                            username: m.username,
                            created_at: m.created_at,
                            user_id: m.user_id,
                            skip_polling: false,
                        };
                        proof {
                            assert(fm == forwarded_form(before[0]));
                        }
                        fwd.push(fm);
                        proof {
                            assert(fwd@ + tick_forwarded(self.cursor_millis, batch@)
                                =~= fwd@.drop_last() + (seq![forwarded_form(before[0])]
                                + tick_forwarded(self.cursor_millis, batch@)));
                        }
                    }
                },
                Option::None => {},
            }
        }
        proof {
            assert(fwd@ + tick_forwarded(self.cursor_millis, batch@) =~= fwd@);
        }
        fwd
    }
}

/// A fetch window in chronological order: the reverse of the newest-first
/// order the remote store returns it in.
pub fn chronological(batch: Vec<ReceivedMessage>) -> (out: Vec<ReceivedMessage>)
    ensures
        out@ == batch@.reverse(),
{
    let ghost orig: Seq<ReceivedMessage> = batch@;
    let mut batch = batch;
    let mut out: Vec<ReceivedMessage> = Vec::new();
    proof {
        assert(batch@ =~= orig.take(batch@.len() as int));
        assert(out@ =~= orig.skip(batch@.len() as int).reverse());
    }
    while batch.len() > 0
        invariant
            batch@.len() <= orig.len(),
            batch@ == orig.take(batch@.len() as int),
            out@ == orig.skip(batch@.len() as int).reverse(),
        decreases batch.len(),
    {
        let ghost before: Seq<ReceivedMessage> = batch@;
        let ghost j: int = before.len() as int;
        let x = batch.pop().unwrap();
        out.push(x);
        proof {
            assert(x == before[j - 1]);
            assert(before[j - 1] == orig.take(j)[j - 1]);
            assert(x == orig[j - 1]);
            assert(batch@ =~= orig.take(j - 1));
            assert(out@ =~= orig.skip(j - 1).reverse());
        }
    }
    proof {
        assert(out@ =~= orig.reverse());
    }
    out
}

/// The cursor never rewinds: after any tick it is at least its value before
/// the tick, so across any sequence of ticks its value is non-decreasing.
pub proof fn lemma_cursor_monotonic(c: Option<i64>, msgs: Seq<ReceivedMessage>)
    ensures
        c is Some ==> tick_cursor(c, msgs) is Some && tick_cursor(c, msgs)->0 >= c->0,
    decreases msgs.len(),
{
    if msgs.len() > 0 {
        match msg_millis(msgs[0]) {
            Option::Some(t) => lemma_cursor_monotonic(advanced(c, t), msgs.drop_first()),
            Option::None => lemma_cursor_monotonic(c, msgs.drop_first()),
        }
    }
}

/// Every record a tick forwards has a parseable timestamp, and the cursor
/// after the tick is at least that timestamp.
pub proof fn lemma_forwarded_le_cursor(c: Option<i64>, msgs: Seq<ReceivedMessage>, fm: ReceivedMessage)
    requires
        tick_forwarded(c, msgs).contains(fm),
    ensures
        msg_millis(fm) is Some,
        tick_cursor(c, msgs) is Some,
        msg_millis(fm)->0 <= tick_cursor(c, msgs)->0,
    decreases msgs.len(),
{
    let rest = msgs.drop_first();
    match msg_millis(msgs[0]) {
        Option::Some(t) => {
            if passes(c, t) {
                let s = tick_forwarded(c, msgs);
                let i = choose|i: int| 0 <= i < s.len() && s[i] == fm;
                if i == 0 {
                    assert(fm == forwarded_form(msgs[0]));
                    assert(msg_millis(fm) == msg_millis(msgs[0]));
                    lemma_cursor_monotonic(advanced(c, t), rest);
                } else {
                    assert(tick_forwarded(advanced(c, t), rest)[i - 1] == fm);
                    assert(tick_forwarded(advanced(c, t), rest).contains(fm));
                    lemma_forwarded_le_cursor(advanced(c, t), rest, fm);
                }
            } else {
                lemma_forwarded_le_cursor(advanced(c, t), rest, fm);
            }
        },
        Option::None => {
            lemma_forwarded_le_cursor(c, rest, fm);
        },
    }
}

/// With the cursor standing at a known value, every record a tick forwards
/// is strictly newer than that value.
pub proof fn lemma_forwarded_gt_start(c: Option<i64>, msgs: Seq<ReceivedMessage>, fm: ReceivedMessage)
    requires
        c is Some,
        tick_forwarded(c, msgs).contains(fm),
    ensures
        msg_millis(fm) is Some,
        msg_millis(fm)->0 > c->0,
    decreases msgs.len(),
{
    let rest = msgs.drop_first();
    match msg_millis(msgs[0]) {
        Option::Some(t) => {
            if passes(c, t) {
                let s = tick_forwarded(c, msgs);
                let i = choose|i: int| 0 <= i < s.len() && s[i] == fm;
                if i == 0 {
                    assert(fm == forwarded_form(msgs[0]));
                    assert(msg_millis(fm) == msg_millis(msgs[0]));
                } else {
                    assert(tick_forwarded(advanced(c, t), rest)[i - 1] == fm);
                    assert(tick_forwarded(advanced(c, t), rest).contains(fm));
                    lemma_forwarded_gt_start(advanced(c, t), rest, fm);
                }
            } else {
                lemma_forwarded_gt_start(advanced(c, t), rest, fm);
            }
        },
        Option::None => {
            lemma_forwarded_gt_start(c, rest, fm);
        },
    }
}

/// No duplicate forwarding: a record forwarded by one tick is never
/// forwarded again by any tick whose starting cursor is at least the first
/// tick's final cursor — by `lemma_cursor_monotonic`, every later tick of
/// the same poller — even if the same record (same timestamp string)
/// reappears in the later fetch window.
pub proof fn lemma_no_duplicate_forwarding(
    c0: Option<i64>,
    b1: Seq<ReceivedMessage>,
    later: Option<i64>,
    b2: Seq<ReceivedMessage>,
    m1: ReceivedMessage,
    m2: ReceivedMessage,
)
    requires
        tick_forwarded(c0, b1).contains(m1),
        m2.created_at@ == m1.created_at@,
        later is Some,
        later->0 >= tick_cursor(c0, b1)->0,
    ensures
        !tick_forwarded(later, b2).contains(m2),
{
    lemma_forwarded_le_cursor(c0, b1, m1);
    if tick_forwarded(later, b2).contains(m2) {
        lemma_forwarded_gt_start(later, b2, m2);
        assert(msg_millis(m2) == msg_millis(m1));
    }
}

/// The consecutive-ticks case of no duplicate forwarding: the second tick
/// starts exactly at the cursor the first one left behind.
pub proof fn lemma_no_duplicate_next_tick(
    c0: Option<i64>,
    b1: Seq<ReceivedMessage>,
    b2: Seq<ReceivedMessage>,
    m1: ReceivedMessage,
    m2: ReceivedMessage,
)
    requires
        tick_forwarded(c0, b1).contains(m1),
        m2.created_at@ == m1.created_at@,
    ensures
        !tick_forwarded(tick_cursor(c0, b1), b2).contains(m2),
{
    lemma_forwarded_le_cursor(c0, b1, m1);
    lemma_no_duplicate_forwarding(c0, b1, tick_cursor(c0, b1), b2, m1, m2);
}

/// Within one tick the forwarded records come out in strictly increasing
/// timestamp order: chronological order is preserved, and no record is
/// forwarded twice in the same tick.
pub proof fn lemma_forwarded_strictly_increasing(
    c: Option<i64>,
    msgs: Seq<ReceivedMessage>,
    i: int,
    j: int,
)
    requires
        0 <= i < j < tick_forwarded(c, msgs).len(),
    ensures
        msg_millis(tick_forwarded(c, msgs)[i]) is Some,
        msg_millis(tick_forwarded(c, msgs)[j]) is Some,
        msg_millis(tick_forwarded(c, msgs)[i])->0 < msg_millis(tick_forwarded(c, msgs)[j])->0,
    decreases msgs.len(),
{
    let rest = msgs.drop_first();
    let s = tick_forwarded(c, msgs);
    match msg_millis(msgs[0]) {
        Option::Some(t) => {
            if passes(c, t) {
                let s2 = tick_forwarded(advanced(c, t), rest);
                if i == 0 {
                    assert(s[0] == forwarded_form(msgs[0]));
                    assert(msg_millis(s[0]) == msg_millis(msgs[0]));
                    assert(s2[j - 1] == s[j]);
                    assert(s2.contains(s2[j - 1]));
                    lemma_forwarded_gt_start(advanced(c, t), rest, s2[j - 1]);
                } else {
                    assert(s2[i - 1] == s[i]);
                    assert(s2[j - 1] == s[j]);
                    lemma_forwarded_strictly_increasing(advanced(c, t), rest, i - 1, j - 1);
                }
            } else {
                lemma_forwarded_strictly_increasing(advanced(c, t), rest, i, j);
            }
        },
        Option::None => {
            lemma_forwarded_strictly_increasing(c, rest, i, j);
        },
    }
}

} // verus!
