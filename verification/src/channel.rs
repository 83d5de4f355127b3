use vstd::prelude::*;

verus! {

/// Outcome of one enqueue attempt on the bounded sample channel.
#[derive(Clone, Copy, Debug, PartialEq, Eq, Structural)]
pub enum SendOutcome {
    /// A free slot existed and the sample was appended.
    Sent,
    /// The channel is at capacity: the producer must wait and retry;
    /// nothing was dropped.
    WouldBlock,
    /// No receiver remains reachable; the sample was not enqueued.
    ReceiverGone,
}

/// Outcome of one dequeue attempt on the bounded sample channel.
#[derive(Clone, Copy, Debug, PartialEq, Eq, Structural)]
pub enum RecvOutcome {
    /// The oldest buffered sample, removed from the channel.
    Received(u16),
    /// Nothing is buffered but a sender is still reachable: the consumer
    /// must wait and retry.
    WouldBlock,
    /// Nothing is buffered and no sender remains reachable.
    SenderGone,
}

/// Bounded, ordered hand-off queue of samples between the acquisition worker
/// (the one producer) and the notification pump (the one consumer).
///
/// Two ghost logs record every sample ever enqueued and every sample ever
/// delivered. The well-formedness invariant `sent == received + buffered`
/// is the integrity statement of the channel: every produced sample is
/// either already delivered or still buffered — none lost, none duplicated,
/// none reordered.
pub struct SampleChannel {
    buf: Vec<u16>,
    capacity: usize,
    sender_live: bool,
    receiver_live: bool,
    sent: Ghost<Seq<u16>>,
    received: Ghost<Seq<u16>>,
}

impl SampleChannel {
    /// Samples currently buffered, oldest first.
    pub closed spec fn buffered(self) -> Seq<u16> {
        self.buf@
    }

    /// Every sample the producer ever enqueued, in production order.
    pub closed spec fn sent_log(self) -> Seq<u16> {
        self.sent@
    }

    /// Every sample the consumer ever dequeued, in delivery order.
    pub closed spec fn received_log(self) -> Seq<u16> {
        self.received@
    }

    /// Number of slots fixed at construction.
    pub closed spec fn capacity(self) -> int {
        self.capacity as int
    }

    /// Whether a producer endpoint is still reachable.
    pub closed spec fn sender_live(self) -> bool {
        self.sender_live
    }

    /// Whether a consumer endpoint is still reachable.
    pub closed spec fn receiver_live(self) -> bool {
        self.receiver_live
    }

    /// A send would have to wait: every slot is occupied.
    pub open spec fn is_full(self) -> bool {
        self.buffered().len() >= self.capacity()
    }

    pub open spec fn well_formed(self) -> bool {
        &&& self.capacity() >= 1
        &&& self.buffered().len() <= self.capacity()
        &&& self.sent_log() == self.received_log() + self.buffered()
    }

    /// Everything observable about the two channel values is the same.
    pub open spec fn same_state(self, other: Self) -> bool {
        &&& self.buffered() == other.buffered()
        &&& self.sent_log() == other.sent_log()
        &&& self.received_log() == other.received_log()
        &&& self.capacity() == other.capacity()
        &&& self.sender_live() == other.sender_live()
        &&& self.receiver_live() == other.receiver_live()
    }

    /// Creates an empty channel with the given number of slots; both
    /// endpoints are attached.
    pub fn new(capacity: usize) -> (c: Self)
        requires
            1 <= capacity,
        ensures
            c.well_formed(),
            c.buffered() == Seq::<u16>::empty(),
            c.sent_log() == Seq::<u16>::empty(),
            c.received_log() == Seq::<u16>::empty(),
            c.capacity() == capacity,
            c.sender_live(),
            c.receiver_live(),
    {
        let c = SampleChannel {
            buf: Vec::new(),
            capacity,
            sender_live: true,
            receiver_live: true,
            sent: Ghost(Seq::empty()),
            received: Ghost(Seq::empty()),
        };
        proof {
            assert(c.sent@ =~= c.received@ + c.buf@);
        }
        c
    }

    /// Number of samples currently buffered.
    pub fn buffered_len(&self) -> (n: usize)
        ensures
            n == self.buffered().len(),
    {
        self.buf.len()
    }

    /// One enqueue attempt. The producer treats `WouldBlock` as "sleep and
    /// retry the same sample": a full channel throttles it, it never drops.
    pub fn send(&mut self, v: u16) -> (r: SendOutcome)
        requires
            old(self).well_formed(),
        ensures
            final(self).well_formed(),
            final(self).capacity() == old(self).capacity(),
            final(self).sender_live() == old(self).sender_live(),
            final(self).receiver_live() == old(self).receiver_live(),
            final(self).received_log() == old(self).received_log(),
            (r == SendOutcome::Sent) <==> (old(self).receiver_live() && !old(self).is_full()),
            (r == SendOutcome::ReceiverGone) <==> !old(self).receiver_live(),
            (r == SendOutcome::WouldBlock) <==> (old(self).receiver_live() && old(self).is_full()),
            r == SendOutcome::Sent ==> final(self).buffered() == old(self).buffered().push(v)
                && final(self).sent_log() == old(self).sent_log().push(v),
            r != SendOutcome::Sent ==> final(self).same_state(*old(self)),
    {
        if !self.receiver_live {
            return SendOutcome::ReceiverGone;
        }
        if self.buf.len() >= self.capacity {
            return SendOutcome::WouldBlock;
        }
        self.buf.push(v);
        self.sent = Ghost(self.sent@.push(v));
        proof {
            assert(self.sent@ =~= self.received@ + self.buf@);
        }
        SendOutcome::Sent
    }

    /// One dequeue attempt: delivers the oldest buffered sample. Buffered
    /// samples are still delivered after the producer is gone; only an empty
    /// channel with no sender reports `SenderGone`.
    pub fn receive(&mut self) -> (r: RecvOutcome)
        requires
            old(self).well_formed(),
        ensures
            final(self).well_formed(),
            final(self).capacity() == old(self).capacity(),
            final(self).sender_live() == old(self).sender_live(),
            final(self).receiver_live() == old(self).receiver_live(),
            final(self).sent_log() == old(self).sent_log(),
            old(self).buffered().len() > 0 ==> r == RecvOutcome::Received(old(self).buffered()[0])
                && final(self).buffered() == old(self).buffered().drop_first()
                && final(self).received_log() == old(self).received_log().push(
                old(self).buffered()[0]),
            old(self).buffered().len() == 0 ==> final(self).same_state(*old(self)),
            (old(self).buffered().len() == 0 && old(self).sender_live()) ==> r
                == RecvOutcome::WouldBlock,
            (old(self).buffered().len() == 0 && !old(self).sender_live()) ==> r
                == RecvOutcome::SenderGone,
    {
        if self.buf.len() == 0 {
            if self.sender_live {
                return RecvOutcome::WouldBlock;
            }
            return RecvOutcome::SenderGone;
        }
        let v = self.buf.remove(0);
        self.received = Ghost(self.received@.push(v));
        proof {
            assert(self.buf@ =~= old(self).buf@.drop_first());
            assert(self.sent@ =~= self.received@ + self.buf@);
        }
        RecvOutcome::Received(v)
    }

    /// The producer endpoint goes away (the worker exited); buffered samples
    /// stay deliverable.
    pub fn detach_sender(&mut self)
        requires
            old(self).well_formed(),
        ensures
            final(self).well_formed(),
            !final(self).sender_live(),
            final(self).buffered() == old(self).buffered(),
            final(self).sent_log() == old(self).sent_log(),
            final(self).received_log() == old(self).received_log(),
            final(self).capacity() == old(self).capacity(),
            final(self).receiver_live() == old(self).receiver_live(),
    {
        self.sender_live = false;
    }

    /// The consumer endpoint goes away; further sends report `ReceiverGone`.
    pub fn detach_receiver(&mut self)
        requires
            old(self).well_formed(),
        ensures
            final(self).well_formed(),
            !final(self).receiver_live(),
            final(self).buffered() == old(self).buffered(),
            final(self).sent_log() == old(self).sent_log(),
            final(self).received_log() == old(self).received_log(),
            final(self).capacity() == old(self).capacity(),
            final(self).sender_live() == old(self).sender_live(),
    {
        self.receiver_live = false;
    }

    /// Delivers every currently buffered sample, oldest first: what a resumed
    /// consumer observes after the producer was throttled.
    pub fn drain(&mut self) -> (out: Vec<u16>)
        requires
            old(self).well_formed(),
        ensures
            final(self).well_formed(),
            out@ == old(self).buffered(),
            final(self).buffered().len() == 0,
            final(self).received_log() == old(self).received_log() + old(self).buffered(),
            final(self).sent_log() == old(self).sent_log(),
            final(self).capacity() == old(self).capacity(),
            final(self).sender_live() == old(self).sender_live(),
            final(self).receiver_live() == old(self).receiver_live(),
    {
        let mut out: Vec<u16> = Vec::new();
        while self.buf.len() > 0
            invariant
                self.well_formed(),
                out@ + self.buffered() == old(self).buffered(),
                self.received_log() == old(self).received_log() + out@,
                self.sent_log() == old(self).sent_log(),
                self.capacity() == old(self).capacity(),
                self.sender_live() == old(self).sender_live(),
                self.receiver_live() == old(self).receiver_live(),
            decreases self.buf@.len(),
        {
            let ghost prev_out = out@;
            let ghost prev_buf = self.buffered();
            let r = self.receive();
            match r {
                RecvOutcome::Received(v) => {
                    out.push(v);
                    proof {
                        assert(out@ + self.buffered() =~= prev_out + prev_buf);
                        assert(self.received_log() =~= old(self).received_log() + out@);
                    }
                },
                RecvOutcome::WouldBlock => {
                    proof {
                        assert(false);
                    }
                },
                RecvOutcome::SenderGone => {
                    proof {
                        assert(false);
                    }
                },
            }
        }
        proof {
            assert(out@ =~= old(self).buffered());
            assert(self.received_log() =~= old(self).received_log() + old(self).buffered());
        }
        out
    }
}

/// FIFO integrity law: at every reachable channel state the consumer has
/// received exactly the oldest-sent prefix of the production sequence, in
/// production order; once the buffer is empty it has received every sent
/// sample.
pub proof fn lemma_fifo_integrity(c: SampleChannel)
    requires
        c.well_formed(),
    ensures
        c.received_log() == c.sent_log().take(c.received_log().len() as int),
        c.buffered() == c.sent_log().skip(c.received_log().len() as int),
        c.buffered().len() == 0 ==> c.received_log() == c.sent_log(),
{
    assert(c.received_log() =~= c.sent_log().take(c.received_log().len() as int));
    assert(c.buffered() =~= c.sent_log().skip(c.received_log().len() as int));
    if c.buffered().len() == 0 {
        assert(c.received_log() =~= c.sent_log());
    }
}

/// No-loss law: every sample ever sent is either already delivered or still
/// buffered, and nothing is buffered or delivered that was never sent.
pub proof fn lemma_no_sample_lost(c: SampleChannel)
    requires
        c.well_formed(),
    ensures
        c.sent_log() == c.received_log() + c.buffered(),
        c.sent_log().len() == c.received_log().len() + c.buffered().len(),
{
}

} // verus!
