//! Work queues.
//!
//! A work queue is a thread that runs work items one after the other.
use crate::error::{result_of, to_result, to_result_void, void_result_of, Error};
use crate::object::Fixed;
use crate::raw::{Addr, Call, WorkQueueConfig};
use crate::simpletls::SimpleTls;
use crate::sys::thread::ThreadStack;
use vstd::prelude::*;

pub mod events;
pub mod futures;

verus! {

/// The kernel's `k_work_q`, which holds nothing of this library.
pub struct KWorkQueue;

/// The kernel's `k_poll_signal`, which holds nothing of this library.
pub struct KPollSignal;

/// What a work queue is started with.
pub struct WorkQueueBuilder {
    /// The configuration of its thread.
    pub config: WorkQueueConfig,
    /// The priority of its thread.
    pub priority: i32,
}

/// A work queue that runs.  It must not be dropped, as there is no way to stop its thread.
pub struct WorkQueue {
    /// The kernel's work queue.
    pub item: Fixed<KWorkQueue>,
}

/// A work queue by its address, for the map from threads to work queues.
#[derive(Clone, Copy, Debug, PartialEq, Eq, Structural)]
pub struct WorkQueueRef(pub Addr);

impl WorkQueueBuilder {
    /// The defaults: no name, neither flag, priority zero.
    pub fn new() -> (r: WorkQueueBuilder)
        ensures
            r.config == (WorkQueueConfig { name: 0, no_yield: false, essential: false }),
            r.priority == 0,
    {
        WorkQueueBuilder {
            config: WorkQueueConfig { name: 0, no_yield: false, essential: false },
            priority: 0,
        }
    }

    /// Set the name of the thread.
    pub fn set_name(&mut self, name: Addr) -> (r: &mut Self)
        ensures
            r.config == (WorkQueueConfig { name, ..old(self).config }),
            r.priority == old(self).priority,
            *final(self) == *final(r),
    {
        self.config.name = name;
        self
    }

    /// Set whether not to yield between two work items.
    pub fn set_no_yield(&mut self, value: bool) -> (r: &mut Self)
        ensures
            r.config == (WorkQueueConfig { no_yield: value, ..old(self).config }),
            r.priority == old(self).priority,
            *final(self) == *final(r),
    {
        self.config.no_yield = value;
        self
    }

    /// Set whether the thread is essential.
    pub fn set_essential(&mut self, value: bool) -> (r: &mut Self)
        ensures
            r.config == (WorkQueueConfig { essential: value, ..old(self).config }),
            r.priority == old(self).priority,
            *final(self) == *final(r),
    {
        self.config.essential = value;
        self
    }

    /// Set the priority of the thread.
    pub fn set_priority(&mut self, value: i32) -> (r: &mut Self)
        ensures
            r.config == old(self).config,
            r.priority == value,
            *final(self) == *final(r),
    {
        self.priority = value;
        self
    }

    /// Start a work queue, which is on the heap at `addr` with its thread object at `thread`.  The
    /// thread is entered into `queues` before it starts.
    pub fn start(
        &self,
        stack: ThreadStack,
        addr: Addr,
        item: Box<KWorkQueue>,
        thread: Addr,
        queues: &mut SimpleTls<WorkQueueRef>,
    ) -> (r: (WorkQueue, Vec<Call>))
        requires
            old(queues).wf(),
        ensures
            final(queues).wf(),
            final(queues)@ == old(queues)@.insert(thread, WorkQueueRef(addr)),
            r.0.item.addr() == addr,
            r.1@ == seq![
                Call::WorkQueueInit { queue: addr },
                Call::WorkQueueStart {
                    queue: addr,
                    stack: stack.base,
                    stack_size: stack.size,
                    priority: self.priority,
                    config: self.config,
                },
            ],
    {
        queues.insert(thread, WorkQueueRef(addr));
        (
            WorkQueue { item: Fixed::new(addr, item) },
            vec![
                Call::WorkQueueInit { queue: addr },
                Call::WorkQueueStart {
                    queue: addr,
                    stack: stack.base,
                    stack_size: stack.size,
                    priority: self.priority,
                    config: self.config,
                },
            ],
        )
    }
}

/// The work queue that runs on a thread, if one does.
pub fn get_current_workq(queues: &SimpleTls<WorkQueueRef>, thread: Addr) -> (r: Option<Addr>)
    requires
        queues.wf(),
    ensures
        r == (if queues@.dom().contains(thread) {
            Some(queues@[thread].0)
        } else {
            None
        }),
{
    match queues.get_done(thread) {
        Some(queue) => Some(queue.0),
        None => None,
    }
}

/// A signal, which work can wait for.
pub struct Signal {
    /// The kernel's signal.
    pub item: Fixed<KPollSignal>,
}

impl Signal {
    /// A signal on the heap at `addr`, which is not raised.
    pub fn new(addr: Addr, item: Box<KPollSignal>) -> (r: (Signal, Call))
        ensures
            r.0.item.addr() == addr,
            r.1 == (Call::PollSignalInit { signal: addr }),
    {
        (Signal { item: Fixed::new(addr, item) }, Call::PollSignalInit { signal: addr })
    }

    /// Make the signal not raised.
    pub fn reset(&self) -> (call: Call)
        ensures
            call == (Call::PollSignalReset { signal: self.item.addr() }),
    {
        Call::PollSignalReset { signal: self.item.get() }
    }

    /// Ask whether the signal is raised.
    pub fn check(&self) -> (call: Call)
        ensures
            call == (Call::PollSignalCheck { signal: self.item.addr() }),
    {
        Call::PollSignalCheck { signal: self.item.get() }
    }

    /// The value that the signal was raised with, if it is raised.
    pub fn check_done(signaled: u32, result: i32) -> (r: Option<i32>)
        ensures
            r == (if signaled != 0 {
                Some(result)
            } else {
                None
            }),
    {
        if signaled != 0 {
            Some(result)
        } else {
            None
        }
    }

    /// Raise the signal with a value.
    pub fn raise(&self, result: i32) -> (call: Call)
        ensures
            call == (Call::PollSignalRaise { signal: self.item.addr(), result }),
    {
        Call::PollSignalRaise { signal: self.item.get(), result }
    }

    /// Whether the signal was raised.
    pub fn raise_done(code: i32) -> (r: Result<(), Error>)
        ensures
            r == void_result_of(code),
    {
        to_result_void(code)
    }
}

/// What became of work that was submitted.
#[derive(Clone, Copy, Debug, PartialEq, Eq, Structural)]
pub enum SubmitResult {
    /// The work was in a queue before.
    AlreadySubmitted,
    /// The work was added to the queue.
    Enqueued,
    /// The work is running, and was added to the queue that runs it.
    WasRunning,
}

/// What the return code of a submission stands for.
pub open spec fn submit_result_of(code: i32) -> Result<SubmitResult, Error> {
    match result_of(code) {
        Ok(code) => Ok(
            if code == 0 {
                SubmitResult::AlreadySubmitted
            } else if code == 1 {
                SubmitResult::Enqueued
            } else {
                SubmitResult::WasRunning
            },
        ),
        Err(e) => Err(e),
    }
}

impl SubmitResult {
    /// Whether the work was added to a queue.
    pub fn enqueued(self) -> (r: bool)
        ensures
            r <==> self == SubmitResult::Enqueued || self == SubmitResult::WasRunning,
    {
        match self {
            SubmitResult::Enqueued => true,
            SubmitResult::WasRunning => true,
            SubmitResult::AlreadySubmitted => false,
        }
    }

    /// What the return code of a submission stands for.
    pub fn to_result(code: i32) -> (r: Result<SubmitResult, Error>)
        requires
            code <= 2,
        ensures
            r == submit_result_of(code),
    {
        match to_result(code) {
            Ok(code) => Ok(
                if code == 0 {
                    SubmitResult::AlreadySubmitted
                } else if code == 1 {
                    SubmitResult::Enqueued
                } else {
                    SubmitResult::WasRunning
                },
            ),
            Err(e) => Err(e),
        }
    }
}

/// Something to be done by a work queue.
pub trait SimpleAction {
    /// Do it.
    fn act(&self);
}

/// A work item: an action, and the kernel's work for it.
pub struct Work<T> {
    /// The address of the kernel's `k_work`.
    pub work: Addr,
    /// The action.
    pub action: T,
}

impl<T: SimpleAction> Work<T> {
    /// A work item whose `k_work` is at `work`.  `handler` is the C function that runs
    /// [`Work::handler`].
    pub fn new(action: T, work: Addr, handler: Addr) -> (r: (Work<T>, Call))
        ensures
            r.0.work == work,
            r.0.action == action,
            r.1 == (Call::WorkInit { work, handler }),
    {
        (Work { work, action }, Call::WorkInit { work, handler })
    }

    /// Submit this work to the system's work queue.
    pub fn submit(&self) -> (call: Call)
        ensures
            call == (Call::WorkSubmit { work: self.work }),
    {
        Call::WorkSubmit { work: self.work }
    }

    /// Submit this work to a work queue.
    pub fn submit_to_queue(&self, queue: &WorkQueue) -> (call: Call)
        ensures
            call == (Call::WorkSubmitToQueue { queue: queue.item.addr(), work: self.work }),
    {
        Call::WorkSubmitToQueue { queue: queue.item.get(), work: self.work }
    }

    /// What became of the work.
    pub fn submit_done(code: i32) -> (r: Result<SubmitResult, Error>)
        requires
            code <= 2,
        ensures
            r == submit_result_of(code),
    {
        SubmitResult::to_result(code)
    }

    /// The work is run: the action is done.
    pub fn handler(&self)
        ensures
            call_ensures(T::act, (&self.action,), ()),
    {
        self.action.act();
    }

    /// The action.
    pub fn action(&self) -> (action: &T)
        ensures
            *action == self.action,
    {
        &self.action
    }
}

/// What became of a submission is told by the kernel's number: 0 where the work was in a queue
/// before, 1 where it was added, 2 where it was running.  A negative number, made positive, is the
/// error.
pub proof fn law_submission_codes<T: SimpleAction>(
    code: i32,
    r: Result<SubmitResult, Error>,
    done: Result<SubmitResult, Error>,
)
    requires
        code <= 2,
        call_ensures(SubmitResult::to_result, (code,), r),
        call_ensures(Work::<T>::submit_done, (code,), done),
    ensures
        done == r,
        code < 0 ==> (r matches Err(e) && e.0 == -code),
        code == 0 ==> r == Ok::<SubmitResult, Error>(SubmitResult::AlreadySubmitted),
        code == 1 ==> r == Ok::<SubmitResult, Error>(SubmitResult::Enqueued),
        code == 2 ==> r == Ok::<SubmitResult, Error>(SubmitResult::WasRunning),
{
}

/// Work that was in a queue before was not added; other work was.
pub proof fn law_added_or_not(result: SubmitResult, enqueued: bool)
    requires
        call_ensures(SubmitResult::enqueued, (result,), enqueued),
    ensures
        enqueued == !(result is AlreadySubmitted),
{
}

/// A work item is submitted as the kernel's work that it was made with, to the queue that is given.
pub proof fn law_work_is_submitted<T: SimpleAction>(
    action: T,
    work: Addr,
    handler: Addr,
    made: (Work<T>, Call),
    queue: WorkQueue,
    at: Addr,
    submitted: Call,
    sent: Call,
)
    requires
        call_ensures(Work::<T>::new, (action, work, handler), made),
        call_ensures(Work::<T>::submit, (&made.0,), submitted),
        call_ensures(Work::<T>::submit_to_queue, (&made.0, &queue), sent),
        call_ensures(Fixed::<KWorkQueue>::get, (&queue.item,), at),
    ensures
        made.1 == (Call::WorkInit { work, handler }),
        made.0.action == action,
        submitted == (Call::WorkSubmit { work }),
        sent == (Call::WorkSubmitToQueue { queue: at, work }),
{
}

/// A work queue that was started is the one of its thread, for all others nothing changes, and it
/// is started with what its builder was told.
pub proof fn law_started_queue_is_found(
    builder: WorkQueueBuilder,
    stack: ThreadStack,
    addr: Addr,
    item: Box<KWorkQueue>,
    thread: Addr,
    queues: &mut SimpleTls<WorkQueueRef>,
    r: (WorkQueue, Vec<Call>),
    before: SimpleTls<WorkQueueRef>,
    after: SimpleTls<WorkQueueRef>,
    other: Addr,
    was: Option<Addr>,
    current: Option<Addr>,
    told: Addr,
)
    requires
        old(queues).wf(),
        before == *old(queues),
        call_ensures(WorkQueueBuilder::start, (&builder, stack, addr, item, thread, queues), r),
        after == *final(queues),
        call_ensures(get_current_workq, (&before, other), was),
        call_ensures(get_current_workq, (&after, other), current),
        call_ensures(Fixed::<KWorkQueue>::get, (&r.0.item,), told),
    ensures
        after.wf(),
        other == thread ==> current == Some(addr),
        other != thread ==> current == was,
        told == addr,
        r.1@ == seq![
            Call::WorkQueueInit { queue: addr },
            Call::WorkQueueStart {
                queue: addr,
                stack: stack.base,
                stack_size: stack.size,
                priority: builder.priority,
                config: builder.config,
            },
        ],
{
}

/// A signal is the one that it was made at, in every operation; and the value that it was raised
/// with is told only where it is raised.
pub proof fn law_signal_is_used(
    addr: Addr,
    item: Box<KPollSignal>,
    made: (Signal, Call),
    reset: Call,
    check: Call,
    result: i32,
    raise: Call,
    signaled: u32,
    told: Option<i32>,
    code: i32,
    raised: Result<(), Error>,
)
    requires
        call_ensures(Signal::new, (addr, item), made),
        call_ensures(Signal::reset, (&made.0,), reset),
        call_ensures(Signal::check, (&made.0,), check),
        call_ensures(Signal::raise, (&made.0, result), raise),
        call_ensures(Signal::check_done, (signaled, result), told),
        call_ensures(Signal::raise_done, (code,), raised),
    ensures
        made.1 == (Call::PollSignalInit { signal: addr }),
        reset == (Call::PollSignalReset { signal: addr }),
        check == (Call::PollSignalCheck { signal: addr }),
        raise == (Call::PollSignalRaise { signal: addr, result }),
        signaled == 0 ==> told is None,
        signaled != 0 ==> told == Some(result),
        code >= 0 ==> raised is Ok,
        code < 0 ==> (raised matches Err(e) && e.0 == -code),
{
}

} // verus!
