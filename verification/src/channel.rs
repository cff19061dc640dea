//! The dispatch channel: the ordered hand-off queue between the background
//! producers (poller, send path) and the presentation consumer.
//!
//! The queue is FIFO and unbounded (producers never block); the consumer
//! drains all currently queued entries at once without blocking. Entries
//! marked `skip_polling` were already displayed by their own sender and are
//! excluded from the consumer's render step.

use vstd::prelude::*;

use crate::msg::ReceivedMessage;

verus! {

/// Ordered queue of finalized message records awaiting the consumer.
pub struct DispatchChannel {
    entries: Vec<ReceivedMessage>,
}

impl View for DispatchChannel {
    type V = Seq<ReceivedMessage>;

    closed spec fn view(&self) -> Seq<ReceivedMessage> {
        self.entries@
    }
}

impl DispatchChannel {
    /// An empty channel.
    pub fn new() -> (c: DispatchChannel)
        ensures
            c@ == Seq::<ReceivedMessage>::empty(),
    {
        DispatchChannel { entries: Vec::new() }
    }

    /// Number of entries currently queued.
    pub fn len(&self) -> (n: usize)
        ensures
            n == self@.len(),
    {
        self.entries.len()
    }

    /// Appends one record at the tail; producers never block.
    pub fn enqueue(&mut self, m: ReceivedMessage)
        ensures
            final(self)@ == old(self)@.push(m),
    {
        self.entries.push(m);
    }

    /// Hands every currently queued entry to the consumer, in enqueue order,
    /// and leaves the channel empty. With no entries queued this is a no-op
    /// returning the empty batch.
    pub fn drain(&mut self) -> (out: Vec<ReceivedMessage>)
        ensures
            out@ == old(self)@,
            final(self)@ == Seq::<ReceivedMessage>::empty(),
    {
        let mut out: Vec<ReceivedMessage> = Vec::new();
        core::mem::swap(&mut out, &mut self.entries);
        out
    }
}

/// The records of `s` that the consumer's display step renders, in order:
/// exactly those not marked `skip_polling`.
pub open spec fn spec_renderable(s: Seq<ReceivedMessage>) -> Seq<ReceivedMessage>
    decreases s.len(),
{
    if s.len() == 0 {
        Seq::<ReceivedMessage>::empty()
    } else if s[0].skip_polling {
        spec_renderable(s.drop_first())
    } else {
        seq![s[0]] + spec_renderable(s.drop_first())
    }
}

/// The consumer's render filter: keeps, in order, exactly the entries of a
/// drained batch that were not already displayed by their own sender.
pub fn renderable(batch: Vec<ReceivedMessage>) -> (out: Vec<ReceivedMessage>)
    ensures
        out@ == spec_renderable(batch@),
{
    let ghost orig: Seq<ReceivedMessage> = batch@;
    let mut batch = batch;
    let mut out: Vec<ReceivedMessage> = Vec::new();
    proof {
        assert(out@ + spec_renderable(batch@) =~= spec_renderable(orig));
    }
    while batch.len() > 0
        invariant
            spec_renderable(orig) == out@ + spec_renderable(batch@),
        decreases batch.len(),
    {
        let ghost before: Seq<ReceivedMessage> = batch@;
        let m = batch.remove(0);
        proof {
            assert(batch@ =~= before.drop_first());
        }
        if !m.skip_polling {
            out.push(m);
            proof {
                assert(out@ + spec_renderable(batch@) =~= spec_renderable(orig));
            }
        }
    }
    proof {
        assert(out@ + spec_renderable(batch@) =~= out@);
    }
    out
}

/// A message enqueued by its own sender (`skip_polling` set) is never among
/// the records the consumer's render step displays.
pub proof fn lemma_self_message_suppressed(s: Seq<ReceivedMessage>, m: ReceivedMessage)
    requires
        m.skip_polling,
    ensures
        !spec_renderable(s).contains(m),
    decreases s.len(),
{
    if s.len() == 0 {
    } else {
        lemma_self_message_suppressed(s.drop_first(), m);
        if !s[0].skip_polling {
            assert forall|i: int|
                0 <= i < spec_renderable(s).len() implies spec_renderable(s)[i] != m by {
                if i > 0 {
                    assert(spec_renderable(s)[i] == spec_renderable(s.drop_first())[i - 1]);
                    assert(spec_renderable(s.drop_first()).contains(spec_renderable(s)[i])
                        == spec_renderable(s.drop_first()).contains(
                        spec_renderable(s.drop_first())[i - 1],
                    ));
                }
            }
            assert(!spec_renderable(s).contains(m));
        }
    }
}

} // verus!
