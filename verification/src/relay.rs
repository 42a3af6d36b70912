//! The bounded relay channel between a real-time capture producer and
//! the asynchronous encoder pump.
//!
//! The producer's `offer` never waits: a full or closed channel drops
//! the buffer and reports so at once.  The consumer drains buffers in
//! order and learns from the outcome whether more may come.  The bound
//! caps memory growth while the encoder stalls.

use vstd::prelude::*;

verus! {

/// What one offer did.
#[derive(Clone, Copy, Debug, PartialEq, Eq, Structural)]
pub enum OfferOutcome {
    /// The buffer was queued.
    Accepted,
    /// The channel was full or closed; the buffer was dropped.
    Dropped,
}

/// What the consumer found.
pub enum RecvOutcome {
    /// The oldest queued buffer.
    Received(Vec<u8>),
    /// Nothing queued yet, but the producer may still offer.
    Empty,
    /// Nothing queued and the producer is gone: the pump terminates.
    Closed,
}

/// What the pump does with a receive outcome.
pub enum PumpAction {
    /// Write this buffer, whole, to the encoder's input pipe.
    WriteToPipe(Vec<u8>),
    /// Await the next buffer.
    WaitForMore,
    /// End of stream: stop pumping.
    Stop,
}

/// A bounded single-producer single-consumer queue of byte buffers.
pub struct RelayChannel {
    queue: Vec<Vec<u8>>,
    capacity: usize,
    closed: bool,
}

/// What one offer does to the queued contents, and whether it accepts.
pub open spec fn spec_offer(
    contents: Seq<Seq<u8>>,
    capacity: nat,
    closed: bool,
    buf: Seq<u8>,
) -> (Seq<Seq<u8>>, bool) {
    if !closed && contents.len() < capacity {
        (contents.push(buf), true)
    } else {
        (contents, false)
    }
}

/// A whole burst of offers, with no consumption in between: the final
/// contents and how many offers were accepted.
pub open spec fn spec_offer_all(
    contents: Seq<Seq<u8>>,
    capacity: nat,
    closed: bool,
    bufs: Seq<Seq<u8>>,
) -> (Seq<Seq<u8>>, nat)
    decreases bufs.len(),
{
    if bufs.len() == 0 {
        (contents, 0)
    } else {
        let first = spec_offer(contents, capacity, closed, bufs[0]);
        let rest = spec_offer_all(first.0, capacity, closed, bufs.skip(1));
        (rest.0, rest.1 + if first.1 {
            1nat
        } else {
            0nat
        })
    }
}

impl RelayChannel {
    /// The queued buffers, oldest first.
    pub closed spec fn contents(self) -> Seq<Seq<u8>> {
        self.queue.deep_view()
    }

    /// The bound the channel was made with.
    pub closed spec fn spec_capacity(self) -> nat {
        self.capacity as nat
    }

    /// Whether the producer half is gone.
    pub closed spec fn is_closed(self) -> bool {
        self.closed
    }

    /// The channel never holds more than its bound.
    pub open spec fn wf(self) -> bool {
        self.contents().len() <= self.spec_capacity() && self.spec_capacity() > 0
    }

    /// An empty open channel with the given bound.
    pub fn new(capacity: usize) -> (r: RelayChannel)
        requires
            capacity > 0,
        ensures
            r.wf(),
            r.contents() =~= Seq::<Seq<u8>>::empty(),
            r.spec_capacity() == capacity,
            !r.is_closed(),
    {
        RelayChannel { queue: Vec::new(), capacity, closed: false }
    }

    /// The producer's non-blocking offer: queue the buffer if there is
    /// room and the channel is open, else drop it and say so.  This
    /// returns in either case; the real-time caller is never stalled.
    pub fn offer(&mut self, buf: Vec<u8>) -> (r: OfferOutcome)
        requires
            old(self).wf(),
        ensures
            final(self).wf(),
            final(self).spec_capacity() == old(self).spec_capacity(),
            final(self).is_closed() == old(self).is_closed(),
            (final(self).contents(), r == OfferOutcome::Accepted) == spec_offer(
                old(self).contents(),
                old(self).spec_capacity(),
                old(self).is_closed(),
                buf@,
            ),
    {
        let ghost before = self.queue.deep_view();
        if !self.closed && self.queue.len() < self.capacity {
            let ghost b = buf@;
            self.queue.push(buf);
            proof {
                assert(self.queue.deep_view() =~~= before.push(b));
            }
            OfferOutcome::Accepted
        } else {
            OfferOutcome::Dropped
        }
    }

    /// The consumer's poll: the oldest buffer if one is queued, else
    /// whether more may come.
    pub fn try_recv(&mut self) -> (r: RecvOutcome)
        requires
            old(self).wf(),
        ensures
            final(self).wf(),
            final(self).spec_capacity() == old(self).spec_capacity(),
            final(self).is_closed() == old(self).is_closed(),
            old(self).contents().len() > 0 ==> (r matches RecvOutcome::Received(b) && b@ == old(
                self,
            ).contents()[0] && final(self).contents() == old(self).contents().skip(1)),
            old(self).contents().len() == 0 ==> final(self).contents() == old(self).contents()
                && (if old(self).is_closed() {
                r is Closed
            } else {
                r is Empty
            }),
    {
        let ghost before = self.queue.deep_view();
        if self.queue.len() > 0 {
            let b = self.queue.remove(0);
            proof {
                assert(self.queue.deep_view() =~~= before.skip(1));
                assert(b.deep_view() == before[0]);
            }
            RecvOutcome::Received(b)
        } else if self.closed {
            RecvOutcome::Closed
        } else {
            RecvOutcome::Empty
        }
    }

    /// Drop the producer half: no further buffer is accepted, and once
    /// the queue drains the consumer sees `Closed`.
    pub fn close(&mut self)
        ensures
            final(self).wf() == old(self).wf(),
            final(self).contents() == old(self).contents(),
            final(self).spec_capacity() == old(self).spec_capacity(),
            final(self).is_closed(),
    {
        self.closed = true;
    }

    /// How many buffers are queued.
    pub fn queued(&self) -> (r: usize)
        ensures
            r == self.contents().len(),
    {
        self.queue.len()
    }
}

/// The pump's decision for one receive outcome: write a received
/// buffer whole to the encoder pipe, wait when the channel is merely
/// empty, stop when it is closed and drained.
pub fn pump_action(outcome: RecvOutcome) -> (r: PumpAction)
    ensures
        outcome matches RecvOutcome::Received(b) ==> (r matches PumpAction::WriteToPipe(w)
            && w@ == b@),
        outcome is Empty ==> r is WaitForMore,
        outcome is Closed ==> r is Stop,
{
    match outcome {
        RecvOutcome::Received(b) => PumpAction::WriteToPipe(b),
        RecvOutcome::Empty => PumpAction::WaitForMore,
        RecvOutcome::Closed => PumpAction::Stop,
    }
}

/// A burst of offers beyond the bound cannot overfill the channel: the
/// queue never exceeds the bound, and from an empty channel at most
/// `capacity` of the offered buffers are accepted for delivery
/// downstream, however many are offered.
pub proof fn lemma_offers_bounded(
    contents: Seq<Seq<u8>>,
    capacity: nat,
    closed: bool,
    bufs: Seq<Seq<u8>>,
)
    requires
        contents.len() <= capacity,
    ensures
        spec_offer_all(contents, capacity, closed, bufs).0.len() <= capacity,
        spec_offer_all(contents, capacity, closed, bufs).1 <= capacity - contents.len(),
        spec_offer_all(contents, capacity, closed, bufs).0.len() == contents.len()
            + spec_offer_all(contents, capacity, closed, bufs).1,
    decreases bufs.len(),
{
    if bufs.len() == 0 {
    } else {
        let first = spec_offer(contents, capacity, closed, bufs[0]);
        lemma_offers_bounded(first.0, capacity, closed, bufs.skip(1));
    }
}

} // verus!
