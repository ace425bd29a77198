//! Asynchronous code on work queues.
use crate::raw::{
    Addr, POLL_TYPE_DATA_AVAILABLE, POLL_TYPE_SEM_AVAILABLE, POLL_TYPE_SIGNAL,
};
use crate::sys::K_NO_WAIT;
use crate::time::Timeout;
use crate::work::events::event_list;
use crate::work::futures::{Poll, Started, WakeInfo, WorkBuilder};
use crate::work::WorkQueue;
use vstd::prelude::*;

pub mod sync;

pub use crate::work::futures::sleep;

verus! {

/// Run a future on a work queue.
pub fn spawn<F, T>(
    future: F,
    worker: &WorkQueue,
    name: Addr,
    work: Addr,
    handler: Addr,
) -> (r: Started<F, T>)
    requires
        worker.item.addr() != 0,
    ensures
        r.started_with(future, Some(worker.item.addr()), work, handler),
{
    let mut builder = WorkBuilder::new();
    let _ = builder.set_worker(worker);
    let _ = builder.set_name(name);
    builder.start(future, work, handler)
}

/// Run a future on the work queue that is running, which there must be.
pub fn spawn_local<F, T>(
    future: F,
    name: Addr,
    workq: Option<Addr>,
    work: Addr,
    handler: Addr,
) -> (r: Started<F, T>)
    requires
        workq is Some,
        workq->0 != 0,
    ensures
        r.started_with(future, workq, work, handler),
{
    let mut builder = WorkBuilder::new();
    let _ = builder.set_name(name);
    builder.start_local(future, workq, work, handler)
}

/// Let other work on the queue run.
pub fn yield_now() -> (r: YieldNow)
    ensures
        !r.waited,
{
    YieldNow { waited: false }
}

/// A future that is ready after other work on the queue ran.
#[derive(Clone, Copy, Debug, PartialEq, Eq, Structural)]
pub struct YieldNow {
    /// Whether the work went back to the queue.
    pub waited: bool,
}

impl YieldNow {
    /// Whether a poll is ready.
    pub open spec fn ready(self, info: WakeInfo, queue_empty: bool) -> bool {
        self.waited || (info.queue is Some && queue_empty)
    }

    /// The future after it was polled.
    pub open spec fn after_poll(self, info: WakeInfo, queue_empty: bool) -> YieldNow {
        YieldNow { waited: self.waited || !self.ready(info, queue_empty) }
    }

    /// Ready if the work went back to the queue, or if nothing else is in it.  Whether the queue is
    /// empty is known of a queue that is not the system's.
    pub fn poll(&mut self, info: &mut WakeInfo, queue_empty: bool) -> (r: Poll<()>)
        ensures
            final(info).queue == old(info).queue,
            final(info).events == old(info).events,
            *final(self) == old(self).after_poll(*old(info), queue_empty),
            if old(self).ready(*old(info), queue_empty) {
                &&& r == Poll::Ready(())
                &&& final(info).timeout == old(info).timeout
            } else {
                &&& r == Poll::<()>::Pending
                &&& final(info).timeout == Timeout(K_NO_WAIT)
            },
    {
        if self.waited {
            return Poll::Ready(());
        }
        if info.queue.is_some() && queue_empty {
            return Poll::Ready(());
        }
        info.timeout = Timeout(K_NO_WAIT);
        self.waited = true;
        Poll::Pending
    }
}

/// A task yields at most once: whatever the queue holds, the second poll is ready.
pub proof fn law_yields_at_most_once(
    y: YieldNow,
    info: WakeInfo,
    queue_empty: bool,
    later: WakeInfo,
    later_empty: bool,
)
    requires
        !y.ready(info, queue_empty),
    ensures
        y.after_poll(info, queue_empty).ready(later, later_empty),
{
}

/// What a future that is not ready can wait for.
pub trait ContextExt: Sized {
    /// Whether there is room for another condition.
    spec fn room(&self) -> bool;

    /// Whether this is `before` with a further condition and a time.
    spec fn waits_for(&self, before: Self, kind: u32, object: Addr, timeout: Timeout) -> bool;

    /// Whether this is `before` with another time.
    spec fn waits_until(&self, before: Self, timeout: Timeout) -> bool;

    /// Run when the semaphore at `sem` can be taken, or after `timeout`.
    fn add_semaphore(&mut self, sem: Addr, timeout: Timeout)
        requires
            old(self).room(),
        ensures
            final(self).waits_for(*old(self), POLL_TYPE_SEM_AVAILABLE, sem, timeout),
    ;

    /// Run when the signal at `signal` is raised, or after `timeout`.
    fn add_signal(&mut self, signal: Addr, timeout: Timeout)
        requires
            old(self).room(),
        ensures
            final(self).waits_for(*old(self), POLL_TYPE_SIGNAL, signal, timeout),
    ;

    /// Run when the queue at `queue` holds a message, or after `timeout`.
    fn add_queue(&mut self, queue: Addr, timeout: Timeout)
        requires
            old(self).room(),
        ensures
            final(self).waits_for(*old(self), POLL_TYPE_DATA_AVAILABLE, queue, timeout),
    ;

    /// Run after `timeout`.
    fn add_timeout(&mut self, timeout: Timeout)
        ensures
            final(self).waits_until(*old(self), timeout),
    ;
}

impl ContextExt for WakeInfo {
    open spec fn room(&self) -> bool {
        self.has_room()
    }

    open spec fn waits_for(&self, before: Self, kind: u32, object: Addr, timeout: Timeout) -> bool {
        &&& self.queue == before.queue
        &&& self.timeout == timeout
        &&& event_list(self.events) == event_list(before.events).push((kind, object))
    }

    open spec fn waits_until(&self, before: Self, timeout: Timeout) -> bool {
        &&& self.queue == before.queue
        &&& self.timeout == timeout
        &&& event_list(self.events) == event_list(before.events)
    }

    fn add_semaphore(&mut self, sem: Addr, timeout: Timeout) {
        self.add_semaphore(sem);
        self.timeout = timeout;
    }

    fn add_signal(&mut self, signal: Addr, timeout: Timeout) {
        self.add_signal(signal);
        self.timeout = timeout;
    }

    fn add_queue(&mut self, queue: Addr, timeout: Timeout) {
        self.add_queue(queue);
        self.timeout = timeout;
    }

    fn add_timeout(&mut self, timeout: Timeout) {
        self.timeout = timeout;
    }
}

/// A task that yields goes back to the queue at once, and is ready when it is polled again.  It
/// does not go back where nothing else is in its queue, which is known of a queue that is not the
/// system's.
pub proof fn law_yield_goes_round(
    new: YieldNow,
    first: &mut YieldNow,
    info: &mut WakeInfo,
    queue_empty: bool,
    a: Poll<()>,
    second: &mut YieldNow,
    later: &mut WakeInfo,
    later_empty: bool,
    b: Poll<()>,
)
    requires
        call_ensures(yield_now, (), new),
        *old(first) == new,
        call_ensures(YieldNow::poll, (first, info, queue_empty), a),
        *old(second) == *final(first),
        call_ensures(YieldNow::poll, (second, later, later_empty), b),
    ensures
        a == Poll::Ready(()) <==> old(info).queue is Some && queue_empty,
        a == Poll::Ready(()) ==> final(info).timeout == old(info).timeout && *final(first)
            == *old(first),
        a != Poll::Ready(()) ==> final(info).timeout.0 == 0 && b == Poll::Ready(()),
        b == Poll::Ready(()) ==> final(later).timeout == old(later).timeout,
        final(info).queue == old(info).queue,
        final(info).events == old(info).events,
        final(later).queue == old(later).queue,
        final(later).events == old(later).events,
{
}

/// Work that waits for a semaphore, a signal or a queue has that as its only new condition, with
/// the kernel's number for it, and the time that was given; what waits for a time alone has no
/// further condition.
pub proof fn law_context_waits(
    sem: &mut WakeInfo,
    signal: &mut WakeInfo,
    queue: &mut WakeInfo,
    time: &mut WakeInfo,
    object: Addr,
    timeout: Timeout,
)
    requires
        event_list(old(sem).events).len() == 0,
        event_list(old(signal).events).len() == 0,
        event_list(old(queue).events).len() == 0,
        call_ensures(<WakeInfo as ContextExt>::add_semaphore, (sem, object, timeout), ()),
        call_ensures(<WakeInfo as ContextExt>::add_signal, (signal, object, timeout), ()),
        call_ensures(<WakeInfo as ContextExt>::add_queue, (queue, object, timeout), ()),
        call_ensures(<WakeInfo as ContextExt>::add_timeout, (time, timeout), ()),
    ensures
        event_list(final(sem).events) == seq![(2u32, object)],
        event_list(final(signal).events) == seq![(1u32, object)],
        event_list(final(queue).events) == seq![(4u32, object)],
        event_list(final(time).events) == event_list(old(time).events),
        final(sem).timeout == timeout && final(signal).timeout == timeout,
        final(queue).timeout == timeout && final(time).timeout == timeout,
        final(sem).queue == old(sem).queue && final(signal).queue == old(signal).queue,
        final(queue).queue == old(queue).queue && final(time).queue == old(time).queue,
{
}

} // verus!
