//! Channels.
//!
//! A channel carries messages from its senders to its receivers, in the order in which they were
//! sent.  It is built on the kernel's queues, which hold addresses.  In an unbounded channel each
//! message gets a new address.  A bounded channel has a fixed set of addresses, its slots: the free
//! ones are in a queue of their own, from which a sender takes one, and into which the receiver
//! puts it back.
//!
//! Handles can be cloned.  When all senders or all receivers are gone, operations on the other end
//! may wait forever.  The last handle of a channel must not be dropped, as the kernel cannot free
//! what it holds.
use crate::raw::{Addr, Call};
use crate::sys::queue::Queue;
use crate::sys::{K_FOREVER, K_NO_WAIT};
use crate::time::Timeout;
use std::collections::BTreeMap;
use vstd::multiset::Multiset;
use vstd::prelude::*;

verus! {

/// A message, with the word that the kernel uses while the message is in a queue.
pub struct Message<T> {
    /// The kernel's word.
    pub private: usize,
    /// What is sent.
    pub data: T,
}

impl<T> Message<T> {
    /// A message of `data`.
    pub open spec fn of(data: T) -> Message<T> {
        Message { private: 0, data }
    }

    /// A message of `data`.
    pub fn new(data: T) -> (r: Message<T>)
        ensures
            r == Message::of(data),
    {
        Message { private: 0, data }
    }
}

/// The message could not be sent.  It comes back.
#[derive(Clone, Copy, PartialEq, Eq)]
pub struct SendError<T>(pub T);

impl<T> SendError<T> {
    /// The error as text, in quotes and without the message.
    pub fn to_debug_string(&self) -> (r: &'static str)
        ensures
            r@ == "\"SendError(..)\""@,
    {
        "\"SendError(..)\""
    }
}

/// No message could be received.
#[derive(Clone, Copy, Debug, PartialEq, Eq, Structural)]
pub struct RecvError;

/// The slots and queues of a bounded channel.
pub struct Bounded {
    /// The addresses of the slots.
    pub slots: Vec<Addr>,
    /// The slots that are free.
    pub free: Queue,
    /// The slots that hold a message that was sent and not received.
    pub chan: Queue,
}

/// The calls that append items to a queue one after the other.
pub open spec fn appends(queue: Addr, items: Seq<Addr>) -> Seq<Call> {
    items.map_values(|data: Addr| Call::QueueAppend { queue, data })
}

impl Bounded {
    /// A bounded channel on slots that are all free, whose free queue is at `free`.
    pub fn new(slots: Vec<Addr>, free: Addr) -> (r: (Bounded, Vec<Call>))
        requires
            slots@.len() > 0,
            free != 0,
        ensures
            r.0.slots@ == slots@,
            r.0.free.0.state == free,
            r.0.chan.0.state == 0,
            r.1@ == seq![Call::QueueInit { queue: free }] + appends(free, slots@),
    {
        let mut queue = Queue::new();
        let mut calls: Vec<Call> = Vec::new();
        let mut i: usize = 0;
        while i < slots.len()
            invariant
                i <= slots@.len(),
                free != 0,
                queue.0.state == if i == 0 {
                    0
                } else {
                    free
                },
                calls@ == if i == 0 {
                    Seq::<Call>::empty()
                } else {
                    seq![Call::QueueInit { queue: free }] + appends(free, slots@.take(i as int))
                },
            decreases slots@.len() - i,
        {
            let ghost before = calls@;
            let mut send = queue.send(free, slots[i]);
            let ghost sent = send@;
            calls.append(&mut send);
            i = i + 1;
            proof {
                assert(slots@.take(i as int) =~= slots@.take(i - 1).push(slots@[i - 1]));
                assert(appends(free, slots@.take(i as int)) =~= appends(
                    free,
                    slots@.take(i - 1),
                ).push(Call::QueueAppend { queue: free, data: slots@[i - 1] }));
                assert(calls@ =~= seq![Call::QueueInit { queue: free }] + appends(
                    free,
                    slots@.take(i as int),
                )) by {
                    if i == 1 {
                        assert(appends(free, slots@.take(0)) =~= Seq::empty());
                    }
                }
            }
        }
        assert(slots@.take(slots@.len() as int) =~= slots@);
        (Bounded { slots, free: queue, chan: Queue::new() }, calls)
    }
}

/// The two sorts of channels.
pub enum Flavor {
    /// Each message gets a new address.
    Unbounded(Queue),
    /// Messages are kept in slots.
    Bounded(Bounded),
}

/// What the handles of a channel share.
pub struct Channel<T> {
    /// The sort of the channel.
    pub flavor: Flavor,
    /// The messages that were sent and not received, by address.
    pub messages: BTreeMap<Addr, Message<T>>,
    /// The number of senders.
    pub senders: usize,
    /// The number of receivers.
    pub receivers: usize,
}

/// Where the queues of a channel are.  An unbounded one has no free queue.
#[derive(Clone, Copy)]
pub struct ChannelAddrs {
    /// The queue of messages.
    pub chan: Addr,
    /// The queue of free slots.
    pub free: Addr,
}

/// The sending side of a channel.
pub struct Sender {}

/// The receiving side of a channel.
pub struct Receiver {}

/// How a send goes on.
pub enum SendStep<T> {
    /// The message is sent with these calls.
    Sent(Vec<Call>),
    /// These calls wait for a free slot; [`Sender::send_timeout_done`] takes the message and the
    /// answer.
    Wait(T, Vec<Call>),
}

impl<T> Channel<T> {
    /// The queue of messages.
    pub open spec fn chan(self) -> Queue {
        match self.flavor {
            Flavor::Unbounded(queue) => queue,
            Flavor::Bounded(bounded) => bounded.chan,
        }
    }

    /// Whether the queues can be used where they are.
    pub open spec fn usable(self, at: ChannelAddrs) -> bool {
        match self.flavor {
            Flavor::Unbounded(queue) => queue.0.usable(at.chan),
            Flavor::Bounded(bounded) => bounded.chan.0.usable(at.chan) && bounded.free.0.usable(
                at.free,
            ),
        }
    }

    /// How many handles the channel has.
    pub open spec fn handles(self) -> nat {
        (self.senders + self.receivers) as nat
    }

    /// Whether only the handle counts of the two differ.
    pub open spec fn same_contents(self, other: Channel<T>) -> bool {
        self.flavor == other.flavor && self.messages == other.messages
    }

    /// Whether this is an unbounded channel.
    pub fn is_unbounded(&self) -> (r: bool)
        ensures
            r <==> self.flavor is Unbounded,
    {
        match &self.flavor {
            Flavor::Unbounded(_) => true,
            Flavor::Bounded(_) => false,
        }
    }
}

/// An unbounded channel on a queue.
pub fn unbounded_from<T>(queue: Queue) -> (r: (Channel<T>, Sender, Receiver))
    ensures
        r.0.flavor == Flavor::Unbounded(queue),
        r.0.messages@ == Map::<Addr, Message<T>>::empty(),
        r.0.senders == 1,
        r.0.receivers == 1,
{
    (
        Channel {
            flavor: Flavor::Unbounded(queue),
            messages: BTreeMap::new(),
            senders: 1,
            receivers: 1,
        },
        Sender {  },
        Receiver {  },
    )
}

/// An unbounded channel on a new queue.
pub fn unbounded<T>() -> (r: (Channel<T>, Sender, Receiver))
    ensures
        r.0.flavor matches Flavor::Unbounded(queue) && queue.0.state == 0,
        r.0.messages@ == Map::<Addr, Message<T>>::empty(),
        r.0.senders == 1,
        r.0.receivers == 1,
{
    unbounded_from(Queue::new())
}

/// A bounded channel on slots, of which there must be at least one; its free queue is at `free`.
pub fn bounded<T>(slots: Vec<Addr>, free: Addr) -> (r: (Channel<T>, Sender, Receiver, Vec<Call>))
    requires
        slots@.len() > 0,
        free != 0,
    ensures
        r.0.flavor matches Flavor::Bounded(b) && b.slots@ == slots@ && b.free.0.state == free
            && b.chan.0.state == 0,
        r.0.messages@ == Map::<Addr, Message<T>>::empty(),
        r.0.senders == 1,
        r.0.receivers == 1,
        r.3@ == seq![Call::QueueInit { queue: free }] + appends(free, slots@),
{
    let (bounded, calls) = Bounded::new(slots, free);
    (
        Channel {
            flavor: Flavor::Bounded(bounded),
            messages: BTreeMap::new(),
            senders: 1,
            receivers: 1,
        },
        Sender {  },
        Receiver {  },
        calls,
    )
}

/// The start of a send, from `before` to `after`.  In an unbounded channel the message is put under
/// the address `node`, which is appended to the queue.  In a bounded one a free slot is asked for,
/// and the message waits for it.
pub open spec fn send_started<T>(
    before: Channel<T>,
    after: Channel<T>,
    msg: T,
    timeout: Timeout,
    node: Addr,
    at: ChannelAddrs,
    step: SendStep<T>,
) -> bool {
    &&& after.senders == before.senders
    &&& after.receivers == before.receivers
    &&& match before.flavor {
        Flavor::Unbounded(queue) => {
            &&& after.flavor matches Flavor::Unbounded(used) && used.0 == queue.0.after_get(at.chan)
            &&& after.messages@ == before.messages@.insert(node, Message::of(msg))
            &&& step matches SendStep::Sent(calls) && calls@ == queue.0.get_calls(at.chan).push(
                Call::QueueAppend { queue: at.chan, data: node },
            )
        },
        Flavor::Bounded(bounded) => {
            &&& after.flavor matches Flavor::Bounded(used) && used.slots == bounded.slots
                && used.chan == bounded.chan && used.free.0 == bounded.free.0.after_get(at.free)
            &&& after.messages == before.messages
            &&& step matches SendStep::Wait(m, calls) && m == msg && calls@
                == bounded.free.0.get_calls(at.free).push(
                Call::QueueGet { queue: at.free, timeout },
            )
        },
    }
}

/// The start of a receive, from `before` to `after`: the queue of messages is asked for its first.
pub open spec fn recv_started<T>(
    before: Channel<T>,
    after: Channel<T>,
    timeout: Timeout,
    at: ChannelAddrs,
    calls: Seq<Call>,
) -> bool {
    &&& after.senders == before.senders
    &&& after.receivers == before.receivers
    &&& after.messages == before.messages
    &&& match before.flavor {
        Flavor::Unbounded(queue) => {
            after.flavor matches Flavor::Unbounded(used) && used.0 == queue.0.after_get(at.chan)
        },
        Flavor::Bounded(bounded) => {
            after.flavor matches Flavor::Bounded(used) && used.slots == bounded.slots && used.free
                == bounded.free && used.chan.0 == bounded.chan.0.after_get(at.chan)
        },
    }
    &&& calls == before.chan().0.get_calls(at.chan).push(Call::QueueGet { queue: at.chan, timeout })
}

/// The end of a send on a bounded channel, from `before` to `after`: the slot at `buf` came, or
/// zero for none in time.  The message is put into the slot and sent, or comes back.
pub open spec fn send_finished<T>(
    before: Channel<T>,
    after: Channel<T>,
    msg: T,
    buf: Addr,
    at: ChannelAddrs,
    r: Result<Vec<Call>, SendError<T>>,
) -> bool {
    &&& after.senders == before.senders
    &&& after.receivers == before.receivers
    &&& after.flavor is Bounded
    &&& after.flavor->Bounded_0.slots == before.flavor->Bounded_0.slots
    &&& after.flavor->Bounded_0.free == before.flavor->Bounded_0.free
    &&& if buf == 0 {
        &&& r == Err::<Vec<Call>, SendError<T>>(SendError(msg))
        &&& after.flavor->Bounded_0.chan == before.flavor->Bounded_0.chan
        &&& after.messages@ == before.messages@
    } else {
        &&& r matches Ok(calls) && calls@ == before.chan().0.get_calls(at.chan).push(
            Call::QueueAppend { queue: at.chan, data: buf },
        )
        &&& after.flavor->Bounded_0.chan.0 == before.flavor->Bounded_0.chan.0.after_get(at.chan)
        &&& after.messages@ == before.messages@.insert(buf, Message::of(msg))
    }
}

/// The end of a receive, from `before` to `after`: the address of a message came, or zero for none
/// in time.  The message leaves the channel, and its slot in a bounded channel is free again.
pub open spec fn recv_finished<T>(
    before: Channel<T>,
    after: Channel<T>,
    buf: Addr,
    at: ChannelAddrs,
    r: Result<(T, Vec<Call>), RecvError>,
) -> bool {
    &&& after.senders == before.senders
    &&& after.receivers == before.receivers
    &&& if buf == 0 {
        &&& r == Err::<(T, Vec<Call>), RecvError>(RecvError)
        &&& after.same_contents(before)
    } else {
        &&& r matches Ok((data, calls))
        &&& data == before.messages@[buf].data
        &&& after.messages@ == before.messages@.remove(buf)
        &&& match before.flavor {
            Flavor::Unbounded(queue) => {
                &&& after.flavor == before.flavor
                &&& calls@ == Seq::<Call>::empty()
            },
            Flavor::Bounded(bounded) => {
                &&& after.flavor matches Flavor::Bounded(used) && used.slots == bounded.slots
                    && used.chan == bounded.chan && used.free.0 == bounded.free.0.after_get(at.free)
                &&& calls@ == bounded.free.0.get_calls(at.free).push(
                    Call::QueueAppend { queue: at.free, data: buf },
                )
            },
        }
    }
}

impl Sender {
    /// Send a message, waiting up to `timeout` for room.
    ///
    /// In an unbounded channel the message is kept at `node`, a new address, and sent at once.  In
    /// a bounded one a free slot is asked for.
    pub fn send_timeout<T>(
        &self,
        chan: &mut Channel<T>,
        msg: T,
        timeout: Timeout,
        node: Addr,
        at: ChannelAddrs,
    ) -> (step: SendStep<T>)
        requires
            old(chan).usable(at),
            old(chan).flavor is Unbounded ==> node != 0 && !old(chan).messages@.contains_key(node),
        ensures
            final(chan).usable(at),
            send_started(*old(chan), *final(chan), msg, timeout, node, at, step),
    {
        match &mut chan.flavor {
            Flavor::Unbounded(queue) => {
                let _ = chan.messages.insert(node, Message::new(msg));
                SendStep::Sent(queue.send(at.chan, node))
            },
            Flavor::Bounded(bounded) => {
                SendStep::Wait(msg, bounded.free.recv(at.free, timeout))
            },
        }
    }

    /// A free slot of a bounded channel came, or zero for none in time: the message is put into the
    /// slot and sent, or comes back.
    pub fn send_timeout_done<T>(
        &self,
        chan: &mut Channel<T>,
        msg: T,
        buf: Addr,
        at: ChannelAddrs,
    ) -> (r: Result<Vec<Call>, SendError<T>>)
        requires
            old(chan).usable(at),
            old(chan).flavor is Bounded,
        ensures
            final(chan).usable(at),
            send_finished(*old(chan), *final(chan), msg, buf, at, r),
    {
        if buf == 0 {
            return Err(SendError(msg));
        }
        let _ = chan.messages.insert(buf, Message::new(msg));
        match &mut chan.flavor {
            Flavor::Unbounded(queue) => Ok(queue.send(at.chan, buf)),
            Flavor::Bounded(bounded) => Ok(bounded.chan.send(at.chan, buf)),
        }
    }

    /// Send a message, waiting for room.  See [`Sender::send_timeout`].
    pub fn send<T>(
        &self,
        chan: &mut Channel<T>,
        msg: T,
        node: Addr,
        at: ChannelAddrs,
    ) -> (step: SendStep<T>)
        requires
            old(chan).usable(at),
            old(chan).flavor is Unbounded ==> node != 0 && !old(chan).messages@.contains_key(node),
        ensures
            final(chan).usable(at),
            send_started(*old(chan), *final(chan), msg, Timeout(K_FOREVER), node, at, step),
    {
        self.send_timeout(chan, msg, Timeout(K_FOREVER), node, at)
    }

    /// Send a message if there is room.  See [`Sender::send_timeout`].
    pub fn try_send<T>(
        &self,
        chan: &mut Channel<T>,
        msg: T,
        node: Addr,
        at: ChannelAddrs,
    ) -> (step: SendStep<T>)
        requires
            old(chan).usable(at),
            old(chan).flavor is Unbounded ==> node != 0 && !old(chan).messages@.contains_key(node),
        ensures
            final(chan).usable(at),
            send_started(*old(chan), *final(chan), msg, Timeout(K_NO_WAIT), node, at, step),
    {
        self.send_timeout(chan, msg, Timeout(K_NO_WAIT), node, at)
    }

    /// Another sender of the channel.
    pub fn clone<T>(&self, chan: &mut Channel<T>) -> (r: Sender)
        requires
            old(chan).senders < usize::MAX,
        ensures
            final(chan).same_contents(*old(chan)),
            final(chan).senders == old(chan).senders + 1,
            final(chan).receivers == old(chan).receivers,
    {
        chan.senders = chan.senders + 1;
        Sender {  }
    }

    /// Drop this sender, which must not be the last handle of the channel.
    pub fn drop<T>(self, chan: &mut Channel<T>)
        requires
            old(chan).senders > 0,
            old(chan).handles() > 1,
        ensures
            final(chan).same_contents(*old(chan)),
            final(chan).senders == old(chan).senders - 1,
            final(chan).receivers == old(chan).receivers,
            final(chan).handles() >= 1,
    {
        chan.senders = chan.senders - 1;
    }

    /// The sender as text.
    pub fn to_debug_string(&self) -> (r: &'static str)
        ensures
            r@ == "Sender"@,
    {
        "Sender"
    }
}

impl Receiver {
    /// Receive a message, waiting up to `timeout` for one.  [`Receiver::recv_timeout_done`] takes
    /// the answer.
    pub fn recv_timeout<T>(
        &self,
        chan: &mut Channel<T>,
        timeout: Timeout,
        at: ChannelAddrs,
    ) -> (calls: Vec<Call>)
        requires
            old(chan).usable(at),
        ensures
            final(chan).usable(at),
            recv_started(*old(chan), *final(chan), timeout, at, calls@),
    {
        match &mut chan.flavor {
            Flavor::Unbounded(queue) => queue.recv(at.chan, timeout),
            Flavor::Bounded(bounded) => bounded.chan.recv(at.chan, timeout),
        }
    }

    /// The address of a message came, or zero for none in time.  The message leaves the channel.
    /// In a bounded channel its slot is free again, which the calls say to the kernel.
    pub fn recv_timeout_done<T>(
        &self,
        chan: &mut Channel<T>,
        buf: Addr,
        at: ChannelAddrs,
    ) -> (r: Result<(T, Vec<Call>), RecvError>)
        requires
            old(chan).usable(at),
            buf != 0 ==> old(chan).messages@.contains_key(buf),
        ensures
            final(chan).usable(at),
            recv_finished(*old(chan), *final(chan), buf, at, r),
    {
        if buf == 0 {
            return Err(RecvError);
        }
        match chan.messages.remove(&buf) {
            Some(msg) => {
                let calls = match &mut chan.flavor {
                    Flavor::Unbounded(_) => Vec::new(),
                    Flavor::Bounded(bounded) => bounded.free.send(at.free, buf),
                };
                Ok((msg.data, calls))
            },
            None => Err(RecvError),
        }
    }

    /// Receive a message, waiting for one.
    pub fn recv<T>(&self, chan: &mut Channel<T>, at: ChannelAddrs) -> (calls: Vec<Call>)
        requires
            old(chan).usable(at),
        ensures
            final(chan).usable(at),
            recv_started(*old(chan), *final(chan), Timeout(K_FOREVER), at, calls@),
    {
        self.recv_timeout(chan, Timeout(K_FOREVER), at)
    }

    /// Receive a message if there is one.
    pub fn try_recv<T>(&self, chan: &mut Channel<T>, at: ChannelAddrs) -> (calls: Vec<Call>)
        requires
            old(chan).usable(at),
        ensures
            final(chan).usable(at),
            recv_started(*old(chan), *final(chan), Timeout(K_NO_WAIT), at, calls@),
    {
        self.recv_timeout(chan, Timeout(K_NO_WAIT), at)
    }

    /// Another receiver of the channel.
    pub fn clone<T>(&self, chan: &mut Channel<T>) -> (r: Receiver)
        requires
            old(chan).receivers < usize::MAX,
        ensures
            final(chan).same_contents(*old(chan)),
            final(chan).senders == old(chan).senders,
            final(chan).receivers == old(chan).receivers + 1,
    {
        chan.receivers = chan.receivers + 1;
        Receiver {  }
    }

    /// Drop this receiver, which must not be the last handle of the channel.
    pub fn drop<T>(self, chan: &mut Channel<T>)
        requires
            old(chan).receivers > 0,
            old(chan).handles() > 1,
        ensures
            final(chan).same_contents(*old(chan)),
            final(chan).senders == old(chan).senders,
            final(chan).receivers == old(chan).receivers - 1,
            final(chan).handles() >= 1,
    {
        chan.receivers = chan.receivers - 1;
    }

    /// The receiver as text.
    pub fn to_debug_string(&self) -> (r: &'static str)
        ensures
            r@ == "Sender"@,
    {
        "Sender"
    }
}

/// A channel and its queues, and what passed through it.
pub struct World<T> {
    /// The addresses in the queue of messages, the oldest first.
    pub chan: Seq<Addr>,
    /// The addresses in the queue of free slots.
    pub free: Seq<Addr>,
    /// The addresses that a sender or receiver is working on.
    pub held: Multiset<Addr>,
    /// The messages that were sent and not received.
    pub messages: Map<Addr, Message<T>>,
    /// All that was sent, the oldest first.
    pub sent: Seq<T>,
    /// All that was received, the oldest first.
    pub received: Seq<T>,
}

/// What can happen to a bounded channel.  The kernel's queues hand out what was put in first.
pub enum ChannelEvent<T> {
    /// A sender takes the first free slot.
    TakeFree,
    /// A sender puts a message into a slot that it took, and sends it.
    Post(Addr, T),
    /// A receiver takes the first message.
    Receive,
    /// A receiver puts a slot back into the free queue.
    GiveBack(Addr),
}

impl<T> World<T> {
    /// A new bounded channel.
    pub open spec fn init(slots: Seq<Addr>) -> World<T> {
        World {
            chan: Seq::empty(),
            free: slots,
            held: Multiset::empty(),
            messages: Map::empty(),
            sent: Seq::empty(),
            received: Seq::empty(),
        }
    }

    /// Whether an event can happen.
    pub open spec fn enabled(self, event: ChannelEvent<T>) -> bool {
        match event {
            ChannelEvent::TakeFree => self.free.len() > 0,
            ChannelEvent::Post(buf, _) => self.held.count(buf) > 0,
            ChannelEvent::Receive => self.chan.len() > 0,
            ChannelEvent::GiveBack(buf) => self.held.count(buf) > 0,
        }
    }

    /// The channel after an event.
    pub open spec fn after(self, event: ChannelEvent<T>) -> World<T> {
        match event {
            ChannelEvent::TakeFree => World {
                free: self.free.drop_first(),
                held: self.held.insert(self.free.first()),
                ..self
            },
            ChannelEvent::Post(buf, msg) => World {
                chan: self.chan.push(buf),
                held: self.held.remove(buf),
                messages: self.messages.insert(buf, Message::of(msg)),
                sent: self.sent.push(msg),
                ..self
            },
            ChannelEvent::Receive => World {
                chan: self.chan.drop_first(),
                held: self.held.insert(self.chan.first()),
                messages: self.messages.remove(self.chan.first()),
                received: self.received.push(self.messages[self.chan.first()].data),
                ..self
            },
            ChannelEvent::GiveBack(buf) => World {
                free: self.free.push(buf),
                held: self.held.remove(buf),
                ..self
            },
        }
    }

    /// Whether events can happen one after the other.
    pub open spec fn all_enabled(self, events: Seq<ChannelEvent<T>>) -> bool
        decreases events.len(),
    {
        events.len() == 0 || self.all_enabled(events.drop_last()) && self.after_all(
            events.drop_last(),
        ).enabled(events.last())
    }

    /// The channel after events that happen one after the other.
    pub open spec fn after_all(self, events: Seq<ChannelEvent<T>>) -> World<T>
        decreases events.len(),
    {
        if events.len() == 0 {
            self
        } else {
            self.after_all(events.drop_last()).after(events.last())
        }
    }

    /// How often an address is in the queues or being worked on.
    pub open spec fn count(self, addr: Addr) -> nat {
        self.chan.to_multiset().count(addr) + self.free.to_multiset().count(addr)
            + self.held.count(addr)
    }

    /// Each slot is in exactly one place, the messages are those whose addresses are queued, and
    /// what was sent is what was received followed by what is queued.
    pub open spec fn consistent(self, slots: Seq<Addr>) -> bool {
        &&& slots.no_duplicates()
        &&& forall|addr: Addr| #[trigger] self.count(addr) == slots.to_multiset().count(addr)
        &&& forall|addr: Addr| #[trigger]
            self.messages.contains_key(addr) <==> self.chan.contains(addr)
        &&& self.sent == self.received + self.chan.map_values(
            |addr: Addr| self.messages[addr].data,
        )
    }
}

/// A [`ChannelEvent::Post`] is what [`Sender::send_timeout_done`] does with a slot that came: the
/// messages are the same, and the last call appends the slot to the queue of messages.
pub proof fn law_post_is_send<T>(
    w: World<T>,
    before: Channel<T>,
    after: Channel<T>,
    msg: T,
    buf: Addr,
    at: ChannelAddrs,
    r: Result<Vec<Call>, SendError<T>>,
)
    requires
        w.messages == before.messages@,
        buf != 0,
        send_finished(before, after, msg, buf, at, r),
    ensures
        w.after(ChannelEvent::Post(buf, msg)).messages == after.messages@,
        w.after(ChannelEvent::Post(buf, msg)).chan == w.chan.push(buf),
        r matches Ok(calls) && calls@.last() == (Call::QueueAppend { queue: at.chan, data: buf }),
{
}

/// A [`ChannelEvent::Receive`], followed by a [`ChannelEvent::GiveBack`] of the slot, is what
/// [`Receiver::recv_timeout_done`] does with the address of the oldest message: the messages are
/// the same, the message that comes out is the one that was received, and the last call appends the
/// slot to the queue of free slots.
pub proof fn law_receive_is_recv<T>(
    w: World<T>,
    before: Channel<T>,
    after: Channel<T>,
    at: ChannelAddrs,
    r: Result<(T, Vec<Call>), RecvError>,
)
    requires
        w.messages == before.messages@,
        w.chan.len() > 0,
        w.chan.first() != 0,
        before.flavor is Bounded,
        recv_finished(before, after, w.chan.first(), at, r),
    ensures
        ({
            let buf = w.chan.first();
            let done = w.after(ChannelEvent::Receive).after(ChannelEvent::GiveBack(buf));
            &&& done.messages == after.messages@
            &&& done.chan == w.chan.drop_first()
            &&& done.free == w.free.push(buf)
            &&& r matches Ok((data, calls)) && data == done.received.last() && calls@.last() == (
            Call::QueueAppend { queue: at.free, data: buf })
        }),
{
}

/// Every event keeps a bounded channel consistent.
pub proof fn law_channel_consistent<T>(w: World<T>, slots: Seq<Addr>, event: ChannelEvent<T>)
    requires
        w.consistent(slots),
        w.enabled(event),
    ensures
        w.after(event).consistent(slots),
{
    broadcast use vstd::seq_lib::group_to_multiset_ensures;

    let after = w.after(event);
    slots.lemma_multiset_has_no_duplicates();
    assert forall|addr: Addr| slots.to_multiset().count(addr) <= 1 by {
        if slots.to_multiset().count(addr) > 0 {
            assert(slots.to_multiset().contains(addr));
        }
    }
    match event {
        ChannelEvent::TakeFree => {
            let head = w.free.first();
            assert(w.free =~= seq![head] + w.free.drop_first());
            lemma_count_first(w.free);
            assert forall|addr: Addr| #[trigger]
                after.count(addr) == slots.to_multiset().count(addr) by {
                assert(w.count(addr) == slots.to_multiset().count(addr));
            }
        },
        ChannelEvent::Post(buf, msg) => {
            assert(w.count(buf) == slots.to_multiset().count(buf));
            assert(w.chan.to_multiset().count(buf) == 0);
            assert(!w.chan.contains(buf));
            assert forall|addr: Addr| #[trigger]
                after.count(addr) == slots.to_multiset().count(addr) by {
                assert(w.count(addr) == slots.to_multiset().count(addr));
            }
            assert forall|addr: Addr| #[trigger]
                after.messages.contains_key(addr) <==> after.chan.contains(addr) by {
                assert(w.messages.contains_key(addr) <==> w.chan.contains(addr));
                if addr == buf {
                    assert(after.chan[w.chan.len() as int] == buf);
                }
                if w.chan.contains(addr) {
                    let i = choose|i: int| 0 <= i < w.chan.len() && w.chan[i] == addr;
                    assert(after.chan[i] == addr);
                }
            }
            assert(after.chan.map_values(|addr: Addr| after.messages[addr].data)
                =~= w.chan.map_values(|addr: Addr| w.messages[addr].data).push(msg)) by {
                assert forall|i: int| 0 <= i < w.chan.len() implies after.messages[w.chan[i]]
                    == w.messages[w.chan[i]] by {
                    assert(w.chan.contains(w.chan[i]));
                }
            }
            assert(after.sent =~= after.received + after.chan.map_values(
                |addr: Addr| after.messages[addr].data,
            ));
        },
        ChannelEvent::Receive => {
            let head = w.chan.first();
            lemma_count_first(w.chan);
            assert(w.count(head) == slots.to_multiset().count(head));
            assert(w.chan.drop_first().to_multiset().count(head) == 0);
            assert(!w.chan.drop_first().contains(head));
            assert forall|addr: Addr| #[trigger]
                after.count(addr) == slots.to_multiset().count(addr) by {
                assert(w.count(addr) == slots.to_multiset().count(addr));
            }
            assert forall|addr: Addr| #[trigger]
                after.messages.contains_key(addr) <==> after.chan.contains(addr) by {
                assert(w.messages.contains_key(addr) <==> w.chan.contains(addr));
                if w.chan.contains(addr) && addr != head {
                    let i = choose|i: int| 0 <= i < w.chan.len() && w.chan[i] == addr;
                    assert(w.chan.drop_first()[i - 1] == addr);
                }
                if w.chan.drop_first().contains(addr) {
                    let i = choose|i: int|
                        0 <= i < w.chan.drop_first().len() && w.chan.drop_first()[i] == addr;
                    assert(w.chan[i + 1] == addr);
                }
            }
            assert(after.chan.map_values(|addr: Addr| after.messages[addr].data)
                =~= w.chan.map_values(|addr: Addr| w.messages[addr].data).drop_first()) by {
                assert forall|i: int| 0 <= i < after.chan.len() implies after.messages[
                after.chan[i]] == w.messages[w.chan[i + 1]] by {
                    assert(after.chan.contains(after.chan[i]));
                }
            }
            assert(after.sent =~= after.received + after.chan.map_values(
                |addr: Addr| after.messages[addr].data,
            ));
        },
        ChannelEvent::GiveBack(buf) => {
            assert forall|addr: Addr| #[trigger]
                after.count(addr) == slots.to_multiset().count(addr) by {
                assert(w.count(addr) == slots.to_multiset().count(addr));
            }
        },
    }
}

proof fn lemma_count_first(s: Seq<Addr>)
    requires
        s.len() > 0,
    ensures
        forall|addr: Addr| #[trigger]
            s.to_multiset().count(addr) == s.drop_first().to_multiset().count(addr) + if addr
                == s.first() {
                1nat
            } else {
                0
            },
{
    broadcast use vstd::seq_lib::group_to_multiset_ensures;

    assert(s.remove(0) =~= s.drop_first());
    assert(s.drop_first().to_multiset() =~= s.to_multiset().remove(s.first()));
    assert(s.contains(s.first()));
}

/// A new bounded channel is consistent.
pub proof fn law_new_channel_consistent<T>(slots: Seq<Addr>)
    requires
        slots.no_duplicates(),
    ensures
        World::<T>::init(slots).consistent(slots),
{
    broadcast use vstd::seq_lib::group_to_multiset_ensures;

    let w = World::<T>::init(slots);
    assert(w.sent =~= w.received + w.chan.map_values(|addr: Addr| w.messages[addr].data));
}

/// A bounded channel stays consistent through any run of events.
pub proof fn law_channel_always_consistent<T>(slots: Seq<Addr>, events: Seq<ChannelEvent<T>>)
    requires
        slots.no_duplicates(),
        World::<T>::init(slots).all_enabled(events),
    ensures
        World::<T>::init(slots).after_all(events).consistent(slots),
    decreases events.len(),
{
    let w = World::<T>::init(slots);
    if events.len() == 0 {
        law_new_channel_consistent::<T>(slots);
    } else {
        law_channel_always_consistent(slots, events.drop_last());
        law_channel_consistent(w.after_all(events.drop_last()), slots, events.last());
    }
}

/// Messages are received in the order in which they were sent, and none is lost or doubled: what
/// was received is the start of what was sent.
pub proof fn law_received_in_order<T>(w: World<T>, slots: Seq<Addr>)
    requires
        w.consistent(slots),
    ensures
        w.received.is_prefix_of(w.sent),
        w.sent.len() == w.received.len() + w.chan.len(),
{
    assert(w.sent.subrange(0, w.received.len() as int) =~= w.received);
}

/// A bounded channel never holds more messages than it has slots.
pub proof fn law_bounded_capacity<T>(w: World<T>, slots: Seq<Addr>)
    requires
        w.consistent(slots),
    ensures
        w.chan.len() <= slots.len(),
        w.chan.len() + w.free.len() <= slots.len(),
{
    broadcast use vstd::seq_lib::group_to_multiset_ensures;

    let both = (w.chan + w.free).to_multiset();
    vstd::seq_lib::lemma_multiset_commutative(w.chan, w.free);
    assert(both =~= w.chan.to_multiset().add(w.free.to_multiset()));
    assert forall|addr: Addr| both.count(addr) <= slots.to_multiset().count(addr) by {
        assert(w.count(addr) == slots.to_multiset().count(addr));
    }
    let rest = slots.to_multiset().sub(both);
    assert(both.add(rest) =~= slots.to_multiset());
    assert(both.add(rest).len() == both.len() + rest.len());
}

/// What an unbounded channel holds, the oldest first: the messages at the addresses in its queue.
pub open spec fn queued<T>(chan: Seq<Addr>, messages: Map<Addr, Message<T>>) -> Seq<T> {
    chan.map_values(|addr: Addr| messages[addr].data)
}

/// Whether the queue of an unbounded channel and its messages belong together: each address is
/// queued once, and has a message.
pub open spec fn unbounded_consistent<T>(
    chan: Seq<Addr>,
    messages: Map<Addr, Message<T>>,
) -> bool {
    &&& chan.no_duplicates()
    &&& forall|addr: Addr| #[trigger] messages.contains_key(addr) <==> chan.contains(addr)
}

/// A send on an unbounded channel puts the message after all that the channel holds, and changes
/// nothing of that.
pub proof fn law_unbounded_send_appends<T>(
    chan: Seq<Addr>,
    messages: Map<Addr, Message<T>>,
    node: Addr,
    msg: T,
)
    requires
        unbounded_consistent(chan, messages),
        !messages.contains_key(node),
    ensures
        unbounded_consistent(chan.push(node), messages.insert(node, Message::of(msg))),
        queued(chan.push(node), messages.insert(node, Message::of(msg))) == queued(
            chan,
            messages,
        ).push(msg),
{
    let after = messages.insert(node, Message::of(msg));
    assert forall|addr: Addr| #[trigger]
        after.contains_key(addr) <==> chan.push(node).contains(addr) by {
        assert(messages.contains_key(addr) <==> chan.contains(addr));
        if addr == node {
            assert(chan.push(node)[chan.len() as int] == node);
        }
        if chan.contains(addr) {
            let i = choose|i: int| 0 <= i < chan.len() && chan[i] == addr;
            assert(chan.push(node)[i] == addr);
        }
    }
    assert forall|i: int| 0 <= i < chan.len() implies after[chan[i]] == messages[chan[i]] && chan[i]
        != node by {
        assert(chan.contains(chan[i]));
        assert(messages.contains_key(chan[i]));
    }
    assert(queued(chan.push(node), after) =~= queued(chan, messages).push(msg));
}

/// A receive on an unbounded channel yields the oldest message that it holds, and leaves the others
/// as they are.
pub proof fn law_unbounded_recv_takes_oldest<T>(chan: Seq<Addr>, messages: Map<Addr, Message<T>>)
    requires
        unbounded_consistent(chan, messages),
        chan.len() > 0,
    ensures
        messages.contains_key(chan.first()),
        messages[chan.first()].data == queued(chan, messages).first(),
        unbounded_consistent(chan.drop_first(), messages.remove(chan.first())),
        queued(chan.drop_first(), messages.remove(chan.first())) == queued(
            chan,
            messages,
        ).drop_first(),
{
    let head = chan.first();
    let rest = chan.drop_first();
    let after = messages.remove(head);
    assert(chan.contains(head));
    assert forall|addr: Addr| #[trigger] after.contains_key(addr) <==> rest.contains(addr) by {
        assert(messages.contains_key(addr) <==> chan.contains(addr));
        if chan.contains(addr) && addr != head {
            let i = choose|i: int| 0 <= i < chan.len() && chan[i] == addr;
            assert(rest[i - 1] == addr);
        }
        if rest.contains(addr) {
            let i = choose|i: int| 0 <= i < rest.len() && rest[i] == addr;
            assert(chan[i + 1] == addr);
        }
    }
    assert forall|i: int| 0 <= i < rest.len() implies after[rest[i]] == messages[chan[i + 1]] by {
        assert(rest.contains(rest[i]));
        assert(after.contains_key(rest[i]));
    }
    assert(queued(rest, after) =~= queued(chan, messages).drop_first());
}

/// A receive asks the queue of messages for its first, and waits for exactly the time that was
/// given; without a limit, or not at all, in the two other forms.  The queue is initialised before,
/// where it was not used yet.  The messages are not touched.
pub proof fn law_receive_waits_as_asked<T>(
    rx: Receiver,
    chan: &mut Channel<T>,
    timeout: Timeout,
    at: ChannelAddrs,
    calls: Vec<Call>,
    blocking: &mut Channel<T>,
    forever: Vec<Call>,
    trying: &mut Channel<T>,
    now: Vec<Call>,
)
    requires
        call_ensures(Receiver::recv_timeout::<T>, (&rx, chan, timeout, at), calls),
        call_ensures(Receiver::recv::<T>, (&rx, blocking, at), forever),
        call_ensures(Receiver::try_recv::<T>, (&rx, trying, at), now),
    ensures
        calls@.last() == (Call::QueueGet { queue: at.chan, timeout }),
        forever@.last() == (Call::QueueGet { queue: at.chan, timeout: Timeout(-1i64) }),
        now@.last() == (Call::QueueGet { queue: at.chan, timeout: Timeout(0) }),
        match old(chan).flavor {
            Flavor::Unbounded(queue) => calls@.len() == if queue.0.state == 0 {
                2nat
            } else {
                1
            },
            Flavor::Bounded(b) => calls@.len() == if b.chan.0.state == 0 {
                2nat
            } else {
                1
            },
        },
        calls@.len() == 2 ==> calls@[0] == (Call::QueueInit { queue: at.chan }),
        final(chan).messages == old(chan).messages,
        final(blocking).messages == old(blocking).messages,
        final(trying).messages == old(trying).messages,
{
}

/// A send on an unbounded channel keeps the message at its new address, and appends that address to
/// the queue of messages; the other messages are not touched.  A send on a bounded one asks the
/// queue of free slots for one, and waits for exactly the time that was given; without a limit, or
/// not at all, in the two other forms.  The message waits, and none is touched.
pub proof fn law_send_starts_as_asked<T>(
    tx: Sender,
    chan: &mut Channel<T>,
    msg: T,
    timeout: Timeout,
    node: Addr,
    at: ChannelAddrs,
    step: SendStep<T>,
    blocking: &mut Channel<T>,
    forever: SendStep<T>,
    trying: &mut Channel<T>,
    now: SendStep<T>,
)
    requires
        call_ensures(Sender::send_timeout::<T>, (&tx, chan, msg, timeout, node, at), step),
        call_ensures(Sender::send::<T>, (&tx, blocking, msg, node, at), forever),
        call_ensures(Sender::try_send::<T>, (&tx, trying, msg, node, at), now),
    ensures
        old(chan).flavor is Unbounded ==> {
            &&& step matches SendStep::Sent(calls)
            &&& calls@.last() == (Call::QueueAppend { queue: at.chan, data: node })
            &&& final(chan).messages@.contains_key(node)
            &&& final(chan).messages@[node].data == msg
            &&& forall|other: Addr|
                other != node ==> {
                    &&& #[trigger] final(chan).messages@.contains_key(other)
                        <==> old(chan).messages@.contains_key(other)
                    &&& final(chan).messages@[other] == old(chan).messages@[other]
                }
        },
        old(chan).flavor is Bounded ==> {
            &&& step matches SendStep::Wait(m, calls)
            &&& m == msg
            &&& calls@.last() == (Call::QueueGet { queue: at.free, timeout })
            &&& final(chan).messages@ == old(chan).messages@
        },
        old(blocking).flavor is Bounded ==> (forever matches SendStep::Wait(m, calls) && m == msg
            && calls@.last() == (Call::QueueGet { queue: at.free, timeout: Timeout(-1i64) })),
        old(trying).flavor is Bounded ==> (now matches SendStep::Wait(m, calls) && m == msg
            && calls@.last() == (Call::QueueGet { queue: at.free, timeout: Timeout(0) })),
        old(blocking).flavor is Unbounded ==> {
            &&& forever matches SendStep::Sent(calls)
            &&& calls@.last() == (Call::QueueAppend { queue: at.chan, data: node })
            &&& final(blocking).messages@[node].data == msg
        },
        old(trying).flavor is Unbounded ==> (now matches SendStep::Sent(calls) && calls@.last() == (
        Call::QueueAppend { queue: at.chan, data: node }) && final(trying).messages@[node].data
            == msg),
{
}

/// A send on a bounded channel ends: where no slot came, the message comes back and no message is
/// touched.  Where one came, the message is in it, it is appended to the queue of messages, and the
/// other messages are not touched.
pub proof fn law_send_ends<T>(
    tx: Sender,
    chan: &mut Channel<T>,
    msg: T,
    buf: Addr,
    at: ChannelAddrs,
    r: Result<Vec<Call>, SendError<T>>,
)
    requires
        call_ensures(Sender::send_timeout_done::<T>, (&tx, chan, msg, buf, at), r),
    ensures
        r is Err <==> buf == 0,
        r matches Err(e) ==> e.0 == msg && final(chan).messages@ == old(chan).messages@,
        r matches Ok(calls) ==> {
            &&& calls@.last() == (Call::QueueAppend { queue: at.chan, data: buf })
            &&& final(chan).messages@.contains_key(buf)
            &&& final(chan).messages@[buf].data == msg
            &&& forall|other: Addr|
                other != buf ==> {
                    &&& #[trigger] final(chan).messages@.contains_key(other)
                        <==> old(chan).messages@.contains_key(other)
                    &&& final(chan).messages@[other] == old(chan).messages@[other]
                }
        },
{
}

/// A receive ends: where no address came, there is an error and no message is touched.  Where one
/// came, the message at that address comes out and is gone, and the others are not touched.  The
/// slot of a bounded channel goes back to the queue of free slots.
pub proof fn law_receive_ends<T>(
    rx: Receiver,
    chan: &mut Channel<T>,
    buf: Addr,
    at: ChannelAddrs,
    r: Result<(T, Vec<Call>), RecvError>,
)
    requires
        call_ensures(Receiver::recv_timeout_done::<T>, (&rx, chan, buf, at), r),
        buf != 0 ==> old(chan).messages@.contains_key(buf),
    ensures
        r is Err <==> buf == 0,
        r is Err ==> final(chan).messages@ == old(chan).messages@,
        r matches Ok((data, calls)) ==> {
            &&& data == old(chan).messages@[buf].data
            &&& !final(chan).messages@.contains_key(buf)
            &&& forall|other: Addr|
                other != buf ==> {
                    &&& #[trigger] final(chan).messages@.contains_key(other)
                        <==> old(chan).messages@.contains_key(other)
                    &&& old(chan).messages@.contains_key(other) ==> final(chan).messages@[other]
                        == old(chan).messages@[other]
                }
            &&& old(chan).flavor is Bounded ==> calls@.last() == (Call::QueueAppend {
                queue: at.free,
                data: buf,
            })
            &&& old(chan).flavor is Unbounded ==> calls@.len() == 0
        },
{
}

/// What is sent is what is received: the message that a send left at an address comes out of the
/// receive that gets that address.
pub proof fn law_sent_is_received<T>(
    tx: Sender,
    sending: &mut Channel<T>,
    msg: T,
    buf: Addr,
    at: ChannelAddrs,
    sent: Result<Vec<Call>, SendError<T>>,
    rx: Receiver,
    receiving: &mut Channel<T>,
    r: Result<(T, Vec<Call>), RecvError>,
)
    requires
        buf != 0,
        call_ensures(Sender::send_timeout_done::<T>, (&tx, sending, msg, buf, at), sent),
        call_ensures(Receiver::recv_timeout_done::<T>, (&rx, receiving, buf, at), r),
        old(receiving).messages@[buf] == final(sending).messages@[buf],
        old(receiving).messages@.contains_key(buf),
    ensures
        sent is Ok,
        r matches Ok((data, _)) && data == msg,
{
}

/// A new bounded channel has no messages, one sender and one receiver, and puts every slot into the
/// queue of free slots, in their order.  A new unbounded one has no messages either.
pub proof fn law_new_channels<T>(
    slots: Vec<Addr>,
    free: Addr,
    b: (Channel<T>, Sender, Receiver, Vec<Call>),
    u: (Channel<T>, Sender, Receiver),
)
    requires
        call_ensures(bounded::<T>, (slots, free), b),
        call_ensures(unbounded::<T>, (), u),
    ensures
        b.0.flavor is Bounded,
        b.0.messages@.len() == 0,
        b.0.senders == 1 && b.0.receivers == 1,
        b.3@.len() == slots@.len() + 1,
        b.3@[0] == (Call::QueueInit { queue: free }),
        forall|i: int|
            0 <= i < slots@.len() ==> #[trigger] b.3@[i + 1] == (Call::QueueAppend {
                queue: free,
                data: slots@[i],
            }),
        u.0.flavor is Unbounded,
        u.0.messages@.len() == 0,
        u.0.senders == 1 && u.0.receivers == 1,
{
}

/// Cloning a handle adds one of its sort, and dropping one takes one away; nothing else changes.
pub proof fn law_handles_are_counted<T>(
    tx: Sender,
    rx: Receiver,
    a: &mut Channel<T>,
    b: &mut Channel<T>,
    c: &mut Channel<T>,
    d: &mut Channel<T>,
    more: Sender,
    others: Receiver,
)
    requires
        call_ensures(Sender::clone::<T>, (&tx, a), more),
        call_ensures(Receiver::clone::<T>, (&rx, b), others),
        call_ensures(Sender::drop::<T>, (tx, c), ()),
        call_ensures(Receiver::drop::<T>, (rx, d), ()),
    ensures
        final(a).senders == old(a).senders + 1 && final(a).receivers == old(a).receivers,
        final(b).receivers == old(b).receivers + 1 && final(b).senders == old(b).senders,
        final(c).senders == old(c).senders - 1 && final(c).receivers == old(c).receivers,
        final(d).receivers == old(d).receivers - 1 && final(d).senders == old(d).senders,
        final(a).messages == old(a).messages && final(b).messages == old(b).messages,
        final(c).messages == old(c).messages && final(d).messages == old(d).messages,
{
}

/// The calls on a queue that end with `call`: where the queue was not used yet, it is initialised
/// before.
pub open spec fn on_queue(queue: Queue, at: Addr, call: Call) -> Seq<Call> {
    if queue.0.state == 0 {
        seq![Call::QueueInit { queue: at }, call]
    } else {
        seq![call]
    }
}

/// A send makes no other call than the one that it needs, on the queue that it needs, which is the
/// only thing of the channel that it uses; the message is kept with the kernel's word at zero.
pub proof fn law_send_makes_one_call<T>(
    tx: Sender,
    chan: &mut Channel<T>,
    msg: T,
    timeout: Timeout,
    node: Addr,
    at: ChannelAddrs,
    step: SendStep<T>,
    ending: &mut Channel<T>,
    buf: Addr,
    r: Result<Vec<Call>, SendError<T>>,
)
    requires
        call_ensures(Sender::send_timeout::<T>, (&tx, chan, msg, timeout, node, at), step),
        old(ending).flavor is Bounded,
        call_ensures(Sender::send_timeout_done::<T>, (&tx, ending, msg, buf, at), r),
    ensures
        final(chan).senders == old(chan).senders && final(chan).receivers == old(chan).receivers,
        match old(chan).flavor {
            Flavor::Unbounded(queue) => {
                &&& step matches SendStep::Sent(calls)
                &&& calls@ == on_queue(
                    queue,
                    at.chan,
                    Call::QueueAppend { queue: at.chan, data: node },
                )
                &&& final(chan).messages@[node].private == 0
                &&& final(chan).flavor matches Flavor::Unbounded(used)
                &&& used.0.state == at.chan
            },
            Flavor::Bounded(b) => {
                &&& step matches SendStep::Wait(_, calls)
                &&& calls@ == on_queue(
                    b.free,
                    at.free,
                    Call::QueueGet { queue: at.free, timeout },
                )
                &&& final(chan).flavor matches Flavor::Bounded(used)
                &&& used.slots == b.slots && used.chan == b.chan && used.free.0.state == at.free
            },
        },
        final(ending).senders == old(ending).senders,
        final(ending).receivers == old(ending).receivers,
        ({
            let b = old(ending).flavor->Bounded_0;
            &&& final(ending).flavor matches Flavor::Bounded(used)
            &&& used.slots == b.slots && used.free == b.free
            &&& r is Err ==> used.chan == b.chan
            &&& r is Ok ==> used.chan.0.state == at.chan
            &&& r matches Ok(calls) ==> calls@ == on_queue(
                b.chan,
                at.chan,
                Call::QueueAppend { queue: at.chan, data: buf },
            ) && final(ending).messages@[buf].private == 0
        }),
{
}

/// A receive makes no other call than the one that it needs, on the queue of messages; and at its
/// end none but the one that gives a slot of a bounded channel back.
pub proof fn law_receive_makes_one_call<T>(
    rx: Receiver,
    chan: &mut Channel<T>,
    timeout: Timeout,
    at: ChannelAddrs,
    calls: Vec<Call>,
    ending: &mut Channel<T>,
    buf: Addr,
    r: Result<(T, Vec<Call>), RecvError>,
)
    requires
        call_ensures(Receiver::recv_timeout::<T>, (&rx, chan, timeout, at), calls),
        call_ensures(Receiver::recv_timeout_done::<T>, (&rx, ending, buf, at), r),
    ensures
        final(chan).senders == old(chan).senders && final(chan).receivers == old(chan).receivers,
        match old(chan).flavor {
            Flavor::Unbounded(queue) => {
                &&& calls@ == on_queue(queue, at.chan, Call::QueueGet { queue: at.chan, timeout })
                &&& final(chan).flavor matches Flavor::Unbounded(used)
                &&& used.0.state == at.chan
            },
            Flavor::Bounded(b) => {
                &&& calls@ == on_queue(b.chan, at.chan, Call::QueueGet { queue: at.chan, timeout })
                &&& final(chan).flavor matches Flavor::Bounded(used)
                &&& used.slots == b.slots && used.free == b.free && used.chan.0.state == at.chan
            },
        },
        final(ending).senders == old(ending).senders,
        final(ending).receivers == old(ending).receivers,
        r is Err ==> final(ending).flavor == old(ending).flavor,
        r matches Ok((_, back)) ==> match old(ending).flavor {
            Flavor::Unbounded(_) => back@.len() == 0 && final(ending).flavor
                == old(ending).flavor,
            Flavor::Bounded(b) => {
                &&& back@ == on_queue(
                    b.free,
                    at.free,
                    Call::QueueAppend { queue: at.free, data: buf },
                )
                &&& final(ending).flavor matches Flavor::Bounded(used)
                &&& used.slots == b.slots && used.chan == b.chan && used.free.0.state == at.free
            },
        },
{
}

/// Handles come and go without touching what the channel holds, and a channel that keeps a handle
/// can lose one.
pub proof fn law_handles_leave_contents<T>(
    tx: Sender,
    rx: Receiver,
    a: &mut Channel<T>,
    b: &mut Channel<T>,
    c: &mut Channel<T>,
    d: &mut Channel<T>,
    more: Sender,
    others: Receiver,
)
    requires
        call_ensures(Sender::clone::<T>, (&tx, a), more),
        call_ensures(Receiver::clone::<T>, (&rx, b), others),
        call_ensures(Sender::drop::<T>, (tx, c), ()),
        call_ensures(Receiver::drop::<T>, (rx, d), ()),
    ensures
        final(a).flavor == old(a).flavor && final(b).flavor == old(b).flavor,
        final(c).flavor == old(c).flavor && final(d).flavor == old(d).flavor,
        old(c).senders > 0 && old(c).senders + old(c).receivers > 1 ==> call_requires(
            Sender::drop::<T>,
            (tx, c),
        ),
        old(d).receivers > 0 && old(d).senders + old(d).receivers > 1 ==> call_requires(
            Receiver::drop::<T>,
            (rx, d),
        ),
{
}

} // verus!
