//! The kernel's queue of message addresses.
use crate::object::{ObjectInit, ZephyrObject};
use crate::raw::{Addr, Call};
use crate::text::{hex, name_and_addr};
use crate::time::Timeout;
use vstd::prelude::*;

verus! {

/// The kernel's `k_queue`, which holds nothing of this library.
pub struct KQueue;

impl ObjectInit for KQueue {
    open spec fn init_calls(&self, addr: Addr) -> Seq<Call> {
        seq![Call::QueueInit { queue: addr }]
    }

    fn init(&self, addr: Addr) -> (calls: Vec<Call>) {
        vec![Call::QueueInit { queue: addr }]
    }
}

/// A queue of message addresses.
///
/// The kernel links the messages through their first word, so a message must stay where it is, and
/// its first word must be left alone, while it is in the queue.
pub struct Queue(pub ZephyrObject<KQueue>);

impl Queue {
    /// A new queue.
    pub fn new() -> (r: Queue)
        ensures
            r.0.state == 0,
    {
        Queue(ZephyrObject::new_raw(KQueue))
    }

    /// Append the message at `data` to the queue, which is at `addr`.
    pub fn send(&mut self, addr: Addr, data: Addr) -> (calls: Vec<Call>)
        requires
            old(self).0.usable(addr),
        ensures
            calls@ == old(self).0.get_calls(addr).push(Call::QueueAppend { queue: addr, data }),
            final(self).0 == old(self).0.after_get(addr),
    {
        let mut calls = self.0.get(addr);
        calls.push(Call::QueueAppend { queue: addr, data });
        calls
    }

    /// Take the first message from the queue, which is at `addr`, waiting for one up to `timeout`.
    /// The answer is the address of the message, or zero.
    pub fn recv(&mut self, addr: Addr, timeout: Timeout) -> (calls: Vec<Call>)
        requires
            old(self).0.usable(addr),
        ensures
            calls@ == old(self).0.get_calls(addr).push(Call::QueueGet { queue: addr, timeout }),
            final(self).0 == old(self).0.after_get(addr),
    {
        let mut calls = self.0.get(addr);
        calls.push(Call::QueueGet { queue: addr, timeout });
        calls
    }

    /// Take the message at `data` out of the queue, which is at `addr`, wherever it stands.  The
    /// answer is whether it was there.
    pub fn remove(&mut self, addr: Addr, data: Addr) -> (calls: Vec<Call>)
        requires
            old(self).0.usable(addr),
        ensures
            calls@ == old(self).0.get_calls(addr).push(Call::QueueRemove { queue: addr, data }),
            final(self).0 == old(self).0.after_get(addr),
    {
        let mut calls = self.0.get(addr);
        calls.push(Call::QueueRemove { queue: addr, data });
        calls
    }

    /// The queue, which is at `addr`, as text.  That uses it, so it is initialised.
    pub fn to_debug_string(&mut self, addr: Addr) -> (r: (Vec<Call>, String))
        requires
            old(self).0.usable(addr),
        ensures
            r.0@ == old(self).0.get_calls(addr),
            r.1@ == "sys::Queue 0x"@ + hex(addr as nat),
            final(self).0 == old(self).0.after_get(addr),
    {
        let calls = self.0.get(addr);
        (calls, name_and_addr("sys::Queue 0x", addr))
    }
}

/// Every operation is one call on the queue, with the message or the timeout that was given.  Where
/// the queue was not used yet, its initialisation comes before that.
pub proof fn law_operations_are_calls(
    queue: &mut Queue,
    addr: Addr,
    data: Addr,
    timeout: Timeout,
    calls: Vec<Call>,
)
    requires
        addr != 0,
        old(queue).0.state == 0 || old(queue).0.state == addr,
    ensures
        ({
            let init = if old(queue).0.state == 0 {
                seq![Call::QueueInit { queue: addr }]
            } else {
                Seq::<Call>::empty()
            };
            &&& call_ensures(Queue::send, (queue, addr, data), calls) ==> calls@ == init.push(
                Call::QueueAppend { queue: addr, data },
            ) && final(queue).0.state == addr
            &&& call_ensures(Queue::recv, (queue, addr, timeout), calls) ==> calls@ == init.push(
                Call::QueueGet { queue: addr, timeout },
            ) && final(queue).0.state == addr
            &&& call_ensures(Queue::remove, (queue, addr, data), calls) ==> calls@ == init.push(
                Call::QueueRemove { queue: addr, data },
            ) && final(queue).0.state == addr
        }),
{
}

} // verus!
