use std::collections::VecDeque;
use vstd::prelude::*;

verus! {

/// Why a `send` did not enqueue its event. The event is handed back, so a
/// refused send never loses it.
#[derive(Debug, PartialEq, Eq)]
pub enum SendError<T> {
    /// The channel holds as many undrained events as its capacity allows.
    Full(T),
    /// The channel is closed: the consumer is gone, or no producer is
    /// attached any more. No event sent now would ever be read.
    Closed(T),
}

/// Why a `try_receive` returned no event.
#[derive(Debug, Clone, Copy, PartialEq, Eq, Structural)]
pub enum TryReceiveError {
    /// No event is waiting, and a producer may still send one.
    Empty,
    /// No event is waiting and none can arrive: every producer has left, or
    /// the consumer itself was closed.
    Closed,
}

/// The abstract state of a bridge channel.
pub struct ChannelView<T> {
    /// Enqueued and not yet drained events, oldest first.
    pub queue: Seq<T>,
    /// The most events the queue may hold at once.
    pub capacity: nat,
    /// How many producer handles are attached.
    pub senders: nat,
    /// Whether the consumer is still there.
    pub receiver_open: bool,
}

impl<T> ChannelView<T> {
    /// The capacity is at least one, the queue never holds more than it, and
    /// a closed consumer left nothing behind.
    pub open spec fn wf(self) -> bool {
        &&& self.capacity > 0
        &&& self.queue.len() <= self.capacity
        &&& !self.receiver_open ==> self.queue.len() == 0
    }

    /// Whether sends can still be accepted: the consumer is there and a
    /// producer is attached. Once false, it stays false.
    pub open spec fn send_open(self) -> bool {
        self.receiver_open && self.senders > 0
    }

    /// Whether a send made now is accepted.
    pub open spec fn accepts(self) -> bool {
        self.send_open() && self.queue.len() < self.capacity
    }

    /// Whether a receive made now finds the channel closed.
    pub open spec fn receive_closed(self) -> bool {
        !self.receiver_open || (self.queue.len() == 0 && self.senders == 0)
    }

    /// The state after a send of `e`.
    pub open spec fn after_send(self, e: T) -> ChannelView<T> {
        if self.accepts() {
            ChannelView { queue: self.queue.push(e), ..self }
        } else {
            self
        }
    }

    /// The state after a receive.
    pub open spec fn after_receive(self) -> ChannelView<T> {
        if self.receiver_open && self.queue.len() > 0 {
            ChannelView { queue: self.queue.drop_first(), ..self }
        } else {
            self
        }
    }

    /// The state after the consumer is dropped: what was queued goes with it.
    pub open spec fn after_close(self) -> ChannelView<T> {
        ChannelView { queue: Seq::empty(), receiver_open: false, ..self }
    }
}

/// One operation on a bridge channel, by a producer or by the consumer.
pub enum ChannelOp<T> {
    Send(T),
    Receive,
    AttachSender,
    DetachSender,
    CloseReceiver,
}

/// What a run of operations did: the state it left, and the events that the
/// consumer read, that a closing consumer discarded, and that sends accepted,
/// each in the order it happened.
pub struct Trace<T> {
    pub state: ChannelView<T>,
    pub received: Seq<T>,
    pub discarded: Seq<T>,
    pub accepted: Seq<T>,
}

/// The trace of one operation applied to `t`.
pub open spec fn step<T>(t: Trace<T>, op: ChannelOp<T>) -> Trace<T> {
    let s = t.state;
    match op {
        ChannelOp::Send(e) => Trace {
            state: s.after_send(e),
            accepted: if s.accepts() { t.accepted.push(e) } else { t.accepted },
            ..t
        },
        ChannelOp::Receive => Trace {
            state: s.after_receive(),
            received: if s.receiver_open && s.queue.len() > 0 {
                t.received.push(s.queue[0])
            } else {
                t.received
            },
            ..t
        },
        ChannelOp::AttachSender => Trace {
            state: ChannelView { senders: if s.senders > 0 { s.senders + 1 } else { 0 }, ..s },
            ..t
        },
        ChannelOp::DetachSender => Trace {
            state: ChannelView { senders: if s.senders > 0 { (s.senders - 1) as nat } else { 0 }, ..s },
            ..t
        },
        ChannelOp::CloseReceiver => Trace {
            state: s.after_close(),
            discarded: t.discarded + s.queue,
            ..t
        },
    }
}

/// The trace of `ops`, applied in order from state `s`.
pub open spec fn run<T>(s: ChannelView<T>, ops: Seq<ChannelOp<T>>) -> Trace<T>
    decreases ops.len(),
{
    if ops.len() == 0 {
        Trace { state: s, received: Seq::empty(), discarded: Seq::empty(), accepted: Seq::empty() }
    } else {
        step(run(s, ops.drop_last()), ops.last())
    }
}

/// `n` receives in a row.
pub open spec fn receives<T>(n: nat) -> Seq<ChannelOp<T>> {
    Seq::new(n, |_i: int| ChannelOp::Receive)
}

/// Every event that a send accepted is, at any point, exactly once either
/// read by the consumer, discarded with a closing consumer, or still queued,
/// and the consumer reads events in the order they were accepted.
pub proof fn lemma_events_conserved_in_order<T>(s: ChannelView<T>, ops: Seq<ChannelOp<T>>)
    ensures
        ({
            let t = run(s, ops);
            &&& t.received + t.discarded + t.state.queue == s.queue + t.accepted
            &&& t.discarded.len() > 0 ==> !t.state.receiver_open
        }),
    decreases ops.len(),
{
    if ops.len() > 0 {
        let prev = run(s, ops.drop_last());
        lemma_events_conserved_in_order(s, ops.drop_last());
        let q = prev.state.queue;
        match ops.last() {
            ChannelOp::Send(e) => {
                if prev.state.accepts() {
                    assert(prev.received + prev.discarded + q.push(e) =~= (prev.received
                        + prev.discarded + q).push(e));
                    assert(s.queue + prev.accepted.push(e) =~= (s.queue + prev.accepted).push(e));
                }
            },
            ChannelOp::Receive => {
                if prev.state.receiver_open && q.len() > 0 {
                    assert(prev.discarded =~= Seq::<T>::empty());
                    assert(prev.received.push(q[0]) + prev.discarded + q.drop_first()
                        =~= prev.received + prev.discarded + q);
                }
            },
            ChannelOp::CloseReceiver => {
                assert(prev.received + (prev.discarded + q) + Seq::<T>::empty()
                    =~= prev.received + prev.discarded + q);
            },
            _ => {},
        }
    }
}

/// A single producer's events, sent into an empty channel, are read by the
/// consumer in the order in which the sends were accepted.
pub proof fn lemma_single_producer_fifo<T>(s: ChannelView<T>, ops: Seq<ChannelOp<T>>)
    requires
        s.queue.len() == 0,
    ensures
        run(s, ops).received.is_prefix_of(run(s, ops).accepted),
{
    let t = run(s, ops);
    lemma_events_conserved_in_order(s, ops);
    assert(s.queue + t.accepted =~= t.accepted);
    assert(t.received =~= t.accepted.subrange(0, t.received.len() as int));
}

/// `k` receives on an open channel read its `k` oldest events.
proof fn lemma_receives_take_prefix<T>(s: ChannelView<T>, k: nat)
    requires
        s.receiver_open,
        k <= s.queue.len(),
    ensures
        run(s, receives(k)).received =~= s.queue.take(k as int),
        run(s, receives(k)).state == (ChannelView { queue: s.queue.skip(k as int), ..s }),
    decreases k,
{
    if k > 0 {
        let ops = receives::<T>(k);
        assert(ops.drop_last() =~= receives::<T>((k - 1) as nat));
        lemma_receives_take_prefix(s, (k - 1) as nat);
        let prev = run(s, receives::<T>((k - 1) as nat));
        assert(prev.state.queue =~= s.queue.skip(k - 1));
        assert(prev.state.queue.drop_first() =~= s.queue.skip(k as int));
        assert(s.queue.take(k - 1).push(s.queue[k - 1]) =~= s.queue.take(k as int));
    } else {
        assert(s.queue.skip(0) =~= s.queue);
    }
}

/// An accepted send is never lost: a consumer that goes on receiving reads
/// it, after exactly the events that were queued before it.
pub proof fn lemma_accepted_event_is_received<T>(s: ChannelView<T>, e: T)
    requires
        s.wf(),
        s.accepts(),
    ensures
        ({
            let s1 = s.after_send(e);
            let t = run(s1, receives(s1.queue.len()));
            &&& t.received == s.queue.push(e)
            &&& t.state.queue.len() == 0
        }),
{
    let s1 = s.after_send(e);
    lemma_receives_take_prefix(s1, s1.queue.len());
    assert(s1.queue.take(s1.queue.len() as int) =~= s.queue.push(e));
}

/// A receive that reads an event leaves room for one more send, so a
/// producer waiting on a full channel is let in once the consumer drains.
pub proof fn lemma_receive_makes_room<T>(s: ChannelView<T>)
    requires
        s.wf(),
        s.send_open(),
        s.queue.len() > 0,
    ensures
        s.after_receive().accepts(),
{
}

/// `Send` of each of `es`, in order.
pub open spec fn sends<T>(es: Seq<T>) -> Seq<ChannelOp<T>> {
    Seq::new(es.len(), |i: int| ChannelOp::Send(es[i]))
}

/// Sends by one producer into a channel with room for all of them are all
/// accepted, and their events stand at the back of the queue in the order
/// sent.
pub proof fn lemma_sends_append_in_order<T>(s: ChannelView<T>, es: Seq<T>)
    requires
        s.send_open(),
        s.queue.len() + es.len() <= s.capacity,
    ensures
        run(s, sends(es)).accepted == es,
        run(s, sends(es)).state == (ChannelView { queue: s.queue + es, ..s }),
    decreases es.len(),
{
    if es.len() == 0 {
        assert(s.queue + es =~= s.queue);
        assert(Seq::<T>::empty() =~= es);
    } else {
        let init = es.drop_last();
        assert(sends(es).drop_last() =~= sends(init));
        lemma_sends_append_in_order(s, init);
        assert(init.push(es.last()) =~= es);
        assert((s.queue + init).push(es.last()) =~= s.queue + es);
    }
}

/// Once a receive finds the channel closed it stays closed, whatever
/// follows: every later send is refused and nothing more is read.
pub proof fn lemma_closed_refuses_sends<T>(s: ChannelView<T>, ops: Seq<ChannelOp<T>>)
    requires
        s.receive_closed(),
    ensures
        run(s, ops).state.receive_closed(),
        !run(s, ops).state.send_open(),
        run(s, ops).accepted.len() == 0,
        run(s, ops).received.len() == 0,
    decreases ops.len(),
{
    if ops.len() > 0 {
        lemma_closed_refuses_sends(s, ops.drop_last());
    }
}

/// A bounded FIFO hand-off from any number of producers to one consumer.
///
/// It is the state that the producers and the consumer share; whoever holds
/// it across threads guards it with a lock.
pub struct BridgeChannel<T> {
    queue: VecDeque<T>,
    capacity: usize,
    senders: usize,
    receiver_open: bool,
}

impl<T> View for BridgeChannel<T> {
    type V = ChannelView<T>;

    closed spec fn view(&self) -> ChannelView<T> {
        ChannelView {
            queue: self.queue@,
            capacity: self.capacity as nat,
            senders: self.senders as nat,
            receiver_open: self.receiver_open,
        }
    }
}

impl<T> BridgeChannel<T> {
    pub open spec fn wf(&self) -> bool {
        self@.wf()
    }

    /// An open, empty channel of the given capacity with one producer attached.
    pub fn new(capacity: usize) -> (r: BridgeChannel<T>)
        requires
            capacity > 0,
        ensures
            r.wf(),
            r@.queue == Seq::<T>::empty(),
            r@.capacity == capacity,
            r@.senders == 1,
            r@.receiver_open,
    {
        BridgeChannel { queue: VecDeque::new(), capacity, senders: 1, receiver_open: true }
    }

    /// Enqueues `e` if the channel is open and the queue has room; else hands
    /// `e` back with the reason, leaving the channel as it was.
    pub fn send(&mut self, e: T) -> (r: Result<(), SendError<T>>)
        requires
            old(self).wf(),
        ensures
            final(self).wf(),
            final(self)@ == old(self)@.after_send(e),
            old(self)@.accepts() ==> r == Ok::<(), SendError<T>>(()),
            !old(self)@.send_open() ==> r == Err::<(), SendError<T>>(SendError::Closed(e)),
            old(self)@.send_open() && !old(self)@.accepts() ==> r == Err::<(), SendError<T>>(
                SendError::Full(e),
            ),
    {
        if !self.receiver_open || self.senders == 0 {
            Err(SendError::Closed(e))
        } else if self.queue.len() >= self.capacity {
            Err(SendError::Full(e))
        } else {
            self.queue.push_back(e);
            Ok(())
        }
    }

    /// Takes the oldest event without waiting.
    pub fn try_receive(&mut self) -> (r: Result<T, TryReceiveError>)
        requires
            old(self).wf(),
        ensures
            final(self).wf(),
            final(self)@ == old(self)@.after_receive(),
            old(self)@.receiver_open && old(self)@.queue.len() > 0 ==> r == Ok::<T, TryReceiveError>(
                old(self)@.queue[0],
            ),
            old(self)@.receive_closed() ==> r == Err::<T, TryReceiveError>(TryReceiveError::Closed),
            old(self)@.receiver_open && old(self)@.queue.len() == 0 && old(self)@.senders > 0 ==> r
                == Err::<T, TryReceiveError>(TryReceiveError::Empty),
    {
        if !self.receiver_open {
            return Err(TryReceiveError::Closed);
        }
        match self.queue.pop_front() {
            Some(e) => Ok(e),
            None => {
                if self.senders == 0 {
                    Err(TryReceiveError::Closed)
                } else {
                    Err(TryReceiveError::Empty)
                }
            },
        }
    }

    /// Registers one more producer handle, cloned from one still attached:
    /// a channel that no producer holds any more stays closed.
    pub fn attach_sender(&mut self)
        requires
            old(self).wf(),
            old(self)@.senders > 0,
            old(self)@.senders < usize::MAX,
        ensures
            final(self).wf(),
            final(self)@ == (ChannelView { senders: old(self)@.senders + 1, ..old(self)@ }),
    {
        self.senders = self.senders + 1;
    }

    /// Drops one producer handle; once none is left the consumer sees
    /// `Closed` after the last event.
    pub fn detach_sender(&mut self)
        requires
            old(self).wf(),
        ensures
            final(self).wf(),
            final(self)@ == (ChannelView {
                senders: if old(self)@.senders > 0 { (old(self)@.senders - 1) as nat } else { 0 },
                ..old(self)@
            }),
    {
        if self.senders > 0 {
            self.senders = self.senders - 1;
        }
    }

    /// Drops the consumer: the events still queued are discarded and every
    /// later send is refused with `Closed`.
    pub fn close_receiver(&mut self)
        requires
            old(self).wf(),
        ensures
            final(self).wf(),
            final(self)@ == old(self)@.after_close(),
    {
        self.queue.clear();
        self.receiver_open = false;
    }

    /// How many events wait to be drained.
    pub fn len(&self) -> (r: usize)
        ensures
            r == self@.queue.len(),
    {
        self.queue.len()
    }

    pub fn is_empty(&self) -> (r: bool)
        ensures
            r == (self@.queue.len() == 0),
    {
        self.queue.len() == 0
    }

    pub fn capacity(&self) -> (r: usize)
        ensures
            r == self@.capacity,
    {
        self.capacity
    }

    pub fn sender_count(&self) -> (r: usize)
        ensures
            r == self@.senders,
    {
        self.senders
    }

    pub fn is_receiver_open(&self) -> (r: bool)
        ensures
            r == self@.receiver_open,
    {
        self.receiver_open
    }
}

} // verus!
