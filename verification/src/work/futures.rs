//! Futures that run on a work queue.
//!
//! A future runs as triggered work of the kernel.  Each time the work runs, the future is polled.
//! Before it says that it is not ready, it leaves in its [`WakeInfo`] what should make it run
//! again.
use crate::raw::{
    Addr, Call, PollEvent, POLL_TYPE_DATA_AVAILABLE, POLL_TYPE_SEM_AVAILABLE, POLL_TYPE_SIGNAL,
};
use crate::error::{void_result_of, Error};
use crate::sys::sync::semaphore::{KSem, Semaphore};
use crate::sys::{K_FOREVER, K_NO_WAIT};
use crate::object::ZephyrObject;
use crate::time::{signed_ticks, Duration, Tick, Timeout, Wait};
use crate::work::events::{
    event_list, events_clear, events_first, events_len, events_new, events_push, EventArray,
    MAX_EVENTS,
};
use crate::work::{SubmitResult, WorkQueue};
use vstd::prelude::*;

verus! {

/// The outcome of polling a future.
pub enum Poll<T> {
    /// The future is at its end, with this result.
    Ready(T),
    /// The future has to be polled again.
    Pending,
}

/// The result of a future, for the thread that started it.  It is placed once and taken once.
pub struct Answer<T> {
    /// The result, while it is there.
    pub item: Option<T>,
    /// Given when the result is there.
    pub wake: Semaphore,
}

impl<T> Answer<T> {
    /// The answer after a result was placed.
    pub open spec fn placed(self, item: T, wake: Addr) -> Answer<T> {
        Answer { item: Some(item), wake: Semaphore(self.wake.0.after_get(wake)) }
    }

    /// The answer after the result was taken.
    pub open spec fn taken(self) -> Answer<T> {
        Answer { item: None, wake: self.wake }
    }

    /// A result that is not there yet.
    pub fn new() -> (r: Answer<T>)
        ensures
            r.item is None,
            r.wake.wf(),
            r.wake.0 == (ZephyrObject { state: 0, object: KSem { count: 0, limit: 1 } }),
    {
        Answer { item: None, wake: Semaphore::new(0, 1) }
    }

    /// Place the result.  The semaphore is at `wake`.
    pub fn place(&mut self, item: T, wake: Addr) -> (calls: Vec<Call>)
        requires
            old(self).item is None,
            old(self).wake.wf(),
            old(self).wake.0.usable(wake),
        ensures
            *final(self) == old(self).placed(item, wake),
            final(self).wake.wf(),
            calls@ == old(self).wake.0.get_calls(wake).push(Call::SemGive { sem: wake }),
    {
        self.item = Some(item);
        self.wake.give(wake)
    }

    /// Wait for the result.
    pub fn take(&mut self, wake: Addr) -> (calls: Vec<Call>)
        requires
            old(self).wake.wf(),
            old(self).wake.0.usable(wake),
        ensures
            final(self).item == old(self).item,
            final(self).wake.wf(),
            final(self).wake.0 == old(self).wake.0.after_get(wake),
            calls@ == old(self).wake.0.get_calls(wake).push(
                Call::SemTake { sem: wake, timeout: Timeout(K_FOREVER) },
            ),
    {
        self.wake.take(wake, Timeout(K_FOREVER))
    }

    /// The result.
    pub fn take_done(&mut self, code: i32) -> (item: T)
        requires
            void_result_of(code) is Ok,
            old(self).item is Some,
        ensures
            old(self).item == Some(item),
            *final(self) == old(self).taken(),
    {
        self.item.take().unwrap()
    }
}

/// The result that is placed is the result that is taken, after which there is none, so that it is
/// taken once.
pub proof fn law_answer_taken_once<T>(answer: Answer<T>, item: T, wake: Addr)
    requires
        answer.item is None,
    ensures
        answer.placed(item, wake).item == Some(item),
        answer.placed(item, wake).taken().item is None,
{
}

/// How a future is started.
pub struct WorkBuilder {
    /// The work queue, or `None` for the system's.
    pub queue: Option<Addr>,
    /// The name of the task, for debugging.
    pub name: Option<Addr>,
}

impl WorkBuilder {
    /// The system's work queue, and no name.
    pub fn new() -> (r: WorkBuilder)
        ensures
            r.queue is None,
            r.name is None,
    {
        WorkBuilder { queue: None, name: None }
    }

    /// Set the work queue.
    pub fn set_worker(&mut self, worker: &WorkQueue) -> (r: &mut Self)
        requires
            worker.item.addr() != 0,
        ensures
            *r == (WorkBuilder { queue: Some(worker.item.addr()), name: old(self).name }),
            *final(self) == *final(r),
    {
        self.queue = Some(worker.item.get());
        self
    }

    /// Set the name of the task.
    pub fn set_name(&mut self, name: Addr) -> (r: &mut Self)
        ensures
            *r == (WorkBuilder { queue: old(self).queue, name: Some(name) }),
            *final(self) == *final(r),
    {
        self.name = Some(name);
        self
    }

    /// Start a future whose work is at `work`.  `handler` is the C function that runs the work.
    pub fn start<F, T>(&self, future: F, work: Addr, handler: Addr) -> (r: Started<F, T>)
        ensures
            r.started_with(future, self.queue, work, handler),
    {
        JoinHandle::new(self, future, work, handler)
    }

    /// Start a future on the work queue that is running, which there must be.
    pub fn start_local<F, T>(
        &self,
        future: F,
        workq: Option<Addr>,
        work: Addr,
        handler: Addr,
    ) -> (r: Started<F, T>)
        requires
            workq is Some,
            workq->0 != 0,
        ensures
            r.started_with(future, workq, work, handler),
    {
        JoinHandle::new_local(self, future, workq, work, handler)
    }
}

/// The means to wait for the result of a future.
pub struct JoinHandle<T> {
    /// The result.
    pub answer: Answer<T>,
}

/// A future that is started: its work, the means to wait for it, and the calls that start it.  The
/// answer of the last call goes to [`WorkData::submit_done`].
pub struct Started<F, T> {
    /// The work.
    pub data: WorkData<F>,
    /// The means to wait for the result.
    pub handle: JoinHandle<T>,
    /// The calls that start the work.
    pub calls: Vec<Call>,
}

impl<F, T> Started<F, T> {
    /// Whether this starts `future` at once on `queue`.
    pub open spec fn started_with(
        self,
        future: F,
        queue: Option<Addr>,
        work: Addr,
        handler: Addr,
    ) -> bool {
        &&& self.data.future == future
        &&& self.data.work == work
        &&& self.data.info.queue == queue
        &&& event_list(self.data.info.events) == Seq::<PollEvent>::empty()
        &&& self.data.info.timeout == Timeout(K_NO_WAIT)
        &&& self.handle.answer.item is None
        &&& self.handle.answer.wake.wf()
        &&& self.handle.answer.wake.0 == (ZephyrObject {
            state: 0,
            object: KSem { count: 0, limit: 1 },
        })
        &&& self.calls@ == seq![
            Call::WorkPollInit { work, handler },
            self.data.submit_call(),
        ]
    }
}

impl<T> JoinHandle<T> {
    fn new<F>(builder: &WorkBuilder, future: F, work: Addr, handler: Addr) -> (r: Started<F, T>)
        ensures
            r.started_with(future, builder.queue, work, handler),
    {
        let (data, init) = WorkData::new(future, builder.queue, work, handler);
        let submit = data.submit();
        Started { data, handle: JoinHandle { answer: Answer::new() }, calls: vec![init, submit] }
    }

    fn new_local<F>(
        builder: &WorkBuilder,
        future: F,
        workq: Option<Addr>,
        work: Addr,
        handler: Addr,
    ) -> (r: Started<F, T>)
        requires
            workq is Some,
            workq->0 != 0,
        ensures
            r.started_with(future, workq, work, handler),
    {
        let (data, init) = WorkData::new(future, workq, work, handler);
        let submit = data.submit();
        Started { data, handle: JoinHandle { answer: Answer::new() }, calls: vec![init, submit] }
    }

    /// Wait for the result.  The semaphore of the answer is at `wake`.
    pub fn join(&mut self, wake: Addr) -> (calls: Vec<Call>)
        requires
            old(self).answer.wake.wf(),
            old(self).answer.wake.0.usable(wake),
        ensures
            final(self).answer.item == old(self).answer.item,
            final(self).answer.wake.wf(),
            final(self).answer.wake.0 == old(self).answer.wake.0.after_get(wake),
            calls@ == old(self).answer.wake.0.get_calls(wake).push(
                Call::SemTake { sem: wake, timeout: Timeout(K_FOREVER) },
            ),
    {
        self.answer.take(wake)
    }

    /// The result.
    pub fn join_done(&mut self, code: i32) -> (item: T)
        requires
            void_result_of(code) is Ok,
            old(self).answer.item is Some,
        ensures
            old(self).answer.item == Some(item),
            final(self).answer.item is None,
            final(self).answer.wake == old(self).answer.wake,
    {
        self.answer.take_done(code)
    }
}

/// What makes a future run again.
pub struct WakeInfo {
    /// The work queue that it runs on, or `None` for the system's.
    pub queue: Option<Addr>,
    /// The conditions of which any makes it run.
    pub events: EventArray,
    /// The time after which it runs in any case.
    pub timeout: Timeout,
}

impl WakeInfo {
    /// The condition, if there is one.
    pub open spec fn event(self) -> Option<PollEvent> {
        if event_list(self.events).len() == 0 {
            None
        } else {
            Some(event_list(self.events)[0])
        }
    }

    /// Whether there is room for another condition.
    pub open spec fn has_room(self) -> bool {
        event_list(self.events).len() < MAX_EVENTS
    }

    /// Whether this is `before` with another condition.
    pub open spec fn added(self, before: WakeInfo, event: PollEvent) -> bool {
        &&& self.queue == before.queue
        &&& self.timeout == before.timeout
        &&& event_list(self.events) == event_list(before.events).push(event)
    }

    /// Run when the semaphore at `sem` can be taken.
    pub fn add_semaphore(&mut self, sem: Addr)
        requires
            old(self).has_room(),
        ensures
            final(self).added(*old(self), (POLL_TYPE_SEM_AVAILABLE, sem)),
    {
        events_push(&mut self.events, (POLL_TYPE_SEM_AVAILABLE, sem));
    }

    /// Run when the signal at `signal` is raised.
    pub fn add_signal(&mut self, signal: Addr)
        requires
            old(self).has_room(),
        ensures
            final(self).added(*old(self), (POLL_TYPE_SIGNAL, signal)),
    {
        events_push(&mut self.events, (POLL_TYPE_SIGNAL, signal));
    }

    /// Run when the queue at `queue` holds a message.
    pub fn add_queue(&mut self, queue: Addr)
        requires
            old(self).has_room(),
        ensures
            final(self).added(*old(self), (POLL_TYPE_DATA_AVAILABLE, queue)),
    {
        events_push(&mut self.events, (POLL_TYPE_DATA_AVAILABLE, queue));
    }
}

/// A future, and the triggered work that runs it.
pub struct WorkData<F> {
    /// What makes it run again.
    pub info: WakeInfo,
    /// The address of the kernel's `k_work_poll`.
    pub work: Addr,
    /// The future.
    pub future: F,
}

/// What comes after a future was polled.
pub enum HandlerNext<T> {
    /// Submit the work again.  `never_wakes` says that nothing will make it run, which deserves a
    /// warning.
    Resubmit { never_wakes: bool, call: Call },
    /// The future is at its end: place its result with [`Answer::place`].  The work is freed.
    Place(T),
    /// The future is at its end, and nobody wants its result, which is dropped.  The work is freed.
    Discard(T),
}

impl<F> WorkData<F> {
    /// The call that submits the work: to its queue, with what makes it run.
    pub open spec fn submit_call(self) -> Call {
        match self.info.queue {
            Some(queue) => Call::WorkPollSubmitToQueue {
                queue,
                work: self.work,
                event: self.info.event(),
                timeout: self.info.timeout,
            },
            None => Call::WorkPollSubmit {
                work: self.work,
                event: self.info.event(),
                timeout: self.info.timeout,
            },
        }
    }

    /// The work of a future, which runs as soon as it is submitted.
    pub fn new(future: F, queue: Option<Addr>, work: Addr, handler: Addr) -> (r: (
        WorkData<F>,
        Call,
    ))
        ensures
            r.0.future == future,
            r.0.work == work,
            r.0.info.queue == queue,
            event_list(r.0.info.events) == Seq::<PollEvent>::empty(),
            r.0.info.timeout == Timeout(K_NO_WAIT),
            r.1 == (Call::WorkPollInit { work, handler }),
    {
        let info = WakeInfo { queue, events: events_new(), timeout: Timeout(K_NO_WAIT) };
        (WorkData { info, work, future }, Call::WorkPollInit { work, handler })
    }

    /// Submit the work.
    pub fn submit(&self) -> (call: Call)
        ensures
            call == self.submit_call(),
    {
        let event = if events_len(&self.info.events) == 0 {
            None
        } else {
            Some(events_first(&self.info.events))
        };
        match self.info.queue {
            Some(queue) => Call::WorkPollSubmitToQueue {
                queue,
                work: self.work,
                event,
                timeout: self.info.timeout,
            },
            None => Call::WorkPollSubmit { work: self.work, event, timeout: self.info.timeout },
        }
    }

    /// What became of the submission, whose return code must be zero.
    pub fn submit_done(code: i32) -> (r: Result<SubmitResult, Error>)
        requires
            code == 0,
        ensures
            r == Ok::<SubmitResult, Error>(SubmitResult::Enqueued),
    {
        Ok(SubmitResult::Enqueued)
    }

    /// The work runs: nothing makes it run again, until the future says so.  Then the future is
    /// polled.
    pub fn handler(&mut self)
        ensures
            final(self).work == old(self).work,
            final(self).future == old(self).future,
            final(self).info.queue == old(self).info.queue,
            event_list(final(self).info.events) == Seq::<PollEvent>::empty(),
            final(self).info.timeout == Timeout(K_FOREVER),
    {
        events_clear(&mut self.info.events);
        self.info.timeout = Timeout(K_FOREVER);
    }

    /// What comes after the future was polled; `joinable` says whether its [`JoinHandle`] lives.
    pub open spec fn handled<T>(self, poll: Poll<T>, joinable: bool) -> HandlerNext<T> {
        match poll {
            Poll::Pending => HandlerNext::Resubmit {
                never_wakes: self.info.event() is None && self.info.timeout == Timeout(K_FOREVER),
                call: self.submit_call(),
            },
            Poll::Ready(answer) => if joinable {
                HandlerNext::Place(answer)
            } else {
                HandlerNext::Discard(answer)
            },
        }
    }

    /// The future was polled; `joinable` says whether its [`JoinHandle`] lives.
    pub fn handler_done<T>(&self, poll: Poll<T>, joinable: bool) -> (next: HandlerNext<T>)
        ensures
            next == self.handled(poll, joinable),
    {
        match poll {
            Poll::Pending => {
                let never_wakes = events_len(&self.info.events) == 0 && self.info.timeout.0
                    == K_FOREVER;
                HandlerNext::Resubmit { never_wakes, call: self.submit() }
            },
            Poll::Ready(answer) => if joinable {
                HandlerNext::Place(answer)
            } else {
                HandlerNext::Discard(answer)
            },
        }
    }
}

/// Each time the work runs, the future is polled once, and exactly one thing comes of it.  While
/// the future is pending, its work is submitted once more, with what the poll left.  Once it is
/// ready, its work is not submitted again; the result is placed where its [`JoinHandle`] lives,
/// from where it is taken, and dropped otherwise.
pub proof fn law_task_ends_once<F, T>(
    task: WorkData<F>,
    poll: Poll<T>,
    joinable: bool,
    answer: Answer<T>,
    wake: Addr,
)
    requires
        answer.item is None,
    ensures
        task.handled(poll, joinable) is Resubmit <==> poll is Pending,
        task.handled(poll, joinable) is Place <==> poll is Ready && joinable,
        task.handled(poll, joinable) is Discard <==> poll is Ready && !joinable,
        task.handled(poll, joinable) matches HandlerNext::Resubmit { call, .. } ==> call
            == task.submit_call(),
        task.handled(poll, joinable) matches HandlerNext::Place(item) ==> poll == Poll::Ready(item)
            && answer.placed(item, wake).item == Some(item),
        task.handled(poll, joinable) matches HandlerNext::Discard(item) ==> poll == Poll::Ready(
            item,
        ),
{
}

/// Sleep without blocking.
pub fn sleep(duration: Duration) -> (r: Sleep)
    ensures
        r.ticks_left == duration.0,
{
    Sleep { ticks_left: duration.ticks() }
}

/// A future that is ready after a time.
#[derive(Clone, Copy, Debug, PartialEq, Eq, Structural)]
pub struct Sleep {
    /// How much of the time is left.
    pub ticks_left: Tick,
}

impl Sleep {
    /// How long a poll asks to wait, or `None` where the sleep is at its end.
    pub open spec fn next_wait(self) -> Option<Timeout> {
        if self.ticks_left == 0 {
            None
        } else {
            Some(Timeout(signed_ticks(self.ticks_left)))
        }
    }

    /// The sleep after it was polled.
    pub open spec fn after_poll(self) -> Sleep {
        Sleep { ticks_left: 0 }
    }

    /// Ready when no time is left.  Otherwise wait for all of it.
    pub fn poll(&mut self, info: &mut WakeInfo) -> (r: Poll<()>)
        ensures
            *final(self) == old(self).after_poll(),
            final(info).queue == old(info).queue,
            final(info).events == old(info).events,
            match old(self).next_wait() {
                None => {
                    &&& r == Poll::Ready(())
                    &&& final(info).timeout == old(info).timeout
                },
                Some(timeout) => {
                    &&& r == Poll::<()>::Pending
                    &&& final(info).timeout == timeout
                },
            },
    {
        if self.ticks_left == 0 {
            return Poll::Ready(());
        }
        info.timeout = Timeout::from(Duration::from_ticks(self.ticks_left));
        self.ticks_left = 0;
        Poll::Pending
    }
}

/// A sleep waits once, for exactly its duration, and then ends.
pub proof fn law_sleep_waits_once(s: Sleep)
    requires
        0 < s.ticks_left <= i64::MAX,
    ensures
        s.next_wait() == Some(Timeout(s.ticks_left as i64)),
        s.next_wait()->0.meaning() == Wait::For(s.ticks_left as int),
        s.after_poll().next_wait() is None,
{
}

/// Work is submitted to the queue of its future, or to the system's where it has none, with exactly
/// the time that the future left, and the first condition that it left, if any.
pub proof fn law_submission_carries_wake<F>(task: WorkData<F>, call: Call)
    requires
        call_ensures(WorkData::<F>::submit, (&task,), call),
    ensures
        ({
            let conditions = event_list(task.info.events);
            let condition = if conditions.len() == 0 {
                None
            } else {
                Some(conditions[0])
            };
            match task.info.queue {
                Some(queue) => call == (Call::WorkPollSubmitToQueue {
                    queue,
                    work: task.work,
                    event: condition,
                    timeout: task.info.timeout,
                }),
                None => call == (Call::WorkPollSubmit {
                    work: task.work,
                    event: condition,
                    timeout: task.info.timeout,
                }),
            }
        }),
{
}

/// A future that sleeps for `n` ticks is run again after `n` ticks, on its queue, and by nothing
/// else: from the poll of the sleep to the submission.
pub proof fn law_sleep_ends_after_its_time<F, T>(
    sleep: &mut Sleep,
    info: &mut WakeInfo,
    polled: Poll<()>,
    task: WorkData<F>,
    joinable: bool,
    next: HandlerNext<T>,
)
    requires
        0 < old(sleep).ticks_left <= i64::MAX,
        event_list(old(info).events).len() == 0,
        call_ensures(Sleep::poll, (sleep, info), polled),
        task.info == *final(info),
        call_ensures(
            WorkData::<F>::handler_done::<T>,
            (&task, Poll::<T>::Pending, joinable),
            next,
        ),
    ensures
        polled == Poll::<()>::Pending,
        final(sleep).ticks_left == 0,
        next matches HandlerNext::Resubmit { never_wakes, call } && !never_wakes && match call {
            Call::WorkPollSubmit { work, event, timeout } => {
                &&& task.info.queue is None
                &&& work == task.work
                &&& event is None
                &&& timeout.0 == old(sleep).ticks_left
            },
            Call::WorkPollSubmitToQueue { queue, work, event, timeout } => {
                &&& task.info.queue == Some(queue)
                &&& work == task.work
                &&& event is None
                &&& timeout.0 == old(sleep).ticks_left
            },
            _ => false,
        },
{
}

/// A sleep without time left is ready, and asks for no time.
pub proof fn law_sleep_without_time_is_ready(
    sleep: &mut Sleep,
    info: &mut WakeInfo,
    polled: Poll<()>,
)
    requires
        old(sleep).ticks_left == 0,
        call_ensures(Sleep::poll, (sleep, info), polled),
    ensures
        polled == Poll::Ready(()),
        final(info).timeout == old(info).timeout,
        final(sleep).ticks_left == 0,
{
}

/// A sleep of a duration has that duration left.
pub proof fn law_sleep_has_its_duration(duration: Duration, r: Sleep)
    requires
        call_ensures(sleep, (duration,), r),
    ensures
        r.ticks_left == duration.0,
{
}

/// When work runs, its future finds no condition and no time of the last run.
pub proof fn law_run_starts_afresh<F>(task: &mut WorkData<F>)
    requires
        call_ensures(WorkData::<F>::handler, (task,), ()),
    ensures
        event_list(final(task).info.events).len() == 0,
        final(task).info.timeout.0 == -1,
        final(task).info.queue == old(task).info.queue,
        final(task).work == old(task).work,
        final(task).future == old(task).future,
{
}

/// What comes of a poll: a future that is pending has its work submitted again, as
/// [`WorkData::submit`] does it; the result of one that is ready is placed where it can be joined,
/// and dropped otherwise.  A warning is due exactly where a pending future left neither a condition
/// nor a time.
pub proof fn law_poll_decides<F, T>(
    task: WorkData<F>,
    poll: Poll<T>,
    joinable: bool,
    next: HandlerNext<T>,
    submitted: Call,
)
    requires
        call_ensures(WorkData::<F>::handler_done::<T>, (&task, poll, joinable), next),
        call_ensures(WorkData::<F>::submit, (&task,), submitted),
    ensures
        match poll {
            Poll::Pending => next matches HandlerNext::Resubmit { never_wakes, call } && call
                == submitted && (never_wakes <==> event_list(task.info.events).len() == 0
                && task.info.timeout.0 == -1),
            Poll::Ready(v) => if joinable {
                next matches HandlerNext::Place(w) && w == v
            } else {
                next matches HandlerNext::Discard(w) && w == v
            },
        },
{
}

/// A future that was started runs at once: its work is initialised, and submitted without a
/// condition and without waiting, to the queue that was set, or to the system's.  Its answer is not
/// there yet.
pub proof fn law_start_runs_at_once<F, T>(
    builder: WorkBuilder,
    future: F,
    work: Addr,
    handler: Addr,
    r: Started<F, T>,
    local: Started<F, T>,
    workq: Addr,
)
    requires
        call_ensures(WorkBuilder::start::<F, T>, (&builder, future, work, handler), r),
        call_ensures(
            WorkBuilder::start_local::<F, T>,
            (&builder, future, Some(workq), work, handler),
            local,
        ),
    ensures
        r.data.future == future,
        r.data.work == work,
        r.data.info.queue == builder.queue,
        r.handle.answer.item is None,
        r.calls@.len() == 2,
        r.calls@[0] == (Call::WorkPollInit { work, handler }),
        r.calls@[1] == match builder.queue {
            Some(queue) => Call::WorkPollSubmitToQueue {
                queue,
                work,
                event: None,
                timeout: Timeout(0),
            },
            None => Call::WorkPollSubmit { work, event: None, timeout: Timeout(0) },
        },
        local.data.future == future,
        local.calls@.len() == 2,
        local.calls@[1] == (Call::WorkPollSubmitToQueue {
            queue: workq,
            work,
            event: None,
            timeout: Timeout(0),
        }),
{
}

/// A condition that a future waits for is added behind the others, with its kind and its object;
/// nothing else changes.
pub proof fn law_conditions_are_added(
    sem: &mut WakeInfo,
    signal: &mut WakeInfo,
    queue: &mut WakeInfo,
    object: Addr,
)
    requires
        call_ensures(WakeInfo::add_semaphore, (sem, object), ()),
        call_ensures(WakeInfo::add_signal, (signal, object), ()),
        call_ensures(WakeInfo::add_queue, (queue, object), ()),
    ensures
        event_list(final(sem).events) == event_list(old(sem).events).push((2u32, object)),
        final(sem).timeout == old(sem).timeout && final(sem).queue == old(sem).queue,
        event_list(final(signal).events) == event_list(old(signal).events).push((1u32, object)),
        final(signal).timeout == old(signal).timeout && final(signal).queue == old(signal).queue,
        event_list(final(queue).events) == event_list(old(queue).events).push((4u32, object)),
        final(queue).timeout == old(queue).timeout && final(queue).queue == old(queue).queue,
{
}

/// What is placed in an answer is what is taken from it: placing gives the semaphore, and joining
/// takes it without a limit of time, then hands out the same value, once.
pub proof fn law_answer_carries_result<T>(
    placed: &mut Answer<T>,
    item: T,
    wake: Addr,
    calls: Vec<Call>,
    taken: &mut Answer<T>,
    wait: Vec<Call>,
    last: &mut Answer<T>,
    code: i32,
    got: T,
)
    requires
        call_ensures(Answer::<T>::place, (placed, item, wake), calls),
        call_ensures(Answer::<T>::take, (taken, wake), wait),
        call_ensures(Answer::<T>::take_done, (last, code), got),
        old(taken).item == final(placed).item,
        old(last).item == final(taken).item,
    ensures
        calls@.last() == (Call::SemGive { sem: wake }),
        wait@.last() == (Call::SemTake { sem: wake, timeout: Timeout(-1i64) }),
        got == item,
        final(last).item is None,
{
}

/// A poll of a sleep that has time left asks for all of it, at once and once: in ticks, or no wait
/// at all where a signed tick count cannot hold it.  Nothing else that wakes the future changes.
pub proof fn law_sleep_asks_for_its_time(sleep: &mut Sleep, info: &mut WakeInfo, polled: Poll<()>)
    requires
        old(sleep).ticks_left > 0,
        call_ensures(Sleep::poll, (sleep, info), polled),
    ensures
        polled == Poll::<()>::Pending,
        final(sleep).ticks_left == 0,
        final(info).queue == old(info).queue,
        final(info).events == old(info).events,
        old(sleep).ticks_left <= 0x7fff_ffff_ffff_ffff ==> final(info).timeout.0
            == old(sleep).ticks_left,
        old(sleep).ticks_left > 0x7fff_ffff_ffff_ffff ==> final(info).timeout.0 == 0,
{
}

/// A future that was started waits for nothing, and its answer has a semaphore of its own, which
/// was not used, starts at zero and counts to one.  Started on the queue that runs, it differs from
/// that in its queue alone.
pub proof fn law_started_future_waits_for_nothing<F, T>(
    builder: WorkBuilder,
    future: F,
    work: Addr,
    handler: Addr,
    r: Started<F, T>,
    local: Started<F, T>,
    workq: Addr,
)
    requires
        call_ensures(WorkBuilder::start::<F, T>, (&builder, future, work, handler), r),
        call_ensures(
            WorkBuilder::start_local::<F, T>,
            (&builder, future, Some(workq), work, handler),
            local,
        ),
    ensures
        event_list(r.data.info.events).len() == 0,
        r.data.info.timeout.0 == 0,
        r.handle.answer.wake.0.state == 0,
        r.handle.answer.wake.0.object.count == 0,
        r.handle.answer.wake.0.object.limit == 1,
        event_list(local.data.info.events).len() == 0,
        local.data.info.timeout.0 == 0,
        local.data.info.queue == Some(workq),
        local.data.work == work,
        local.calls@[0] == (Call::WorkPollInit { work, handler }),
        local.handle.answer.item is None,
        local.handle.answer.wake == r.handle.answer.wake,
{
}

/// The semaphore of an answer is initialised where it was not used, once, whichever of placing and
/// joining comes first, and is used where it is after that.
pub proof fn law_answer_uses_one_semaphore<T>(
    new: Answer<T>,
    placed: &mut Answer<T>,
    item: T,
    wake: Addr,
    calls: Vec<Call>,
    taken: &mut Answer<T>,
    wait: Vec<Call>,
)
    requires
        wake != 0,
        call_ensures(Answer::<T>::new, (), new),
        call_ensures(Answer::<T>::place, (placed, item, wake), calls),
        call_ensures(Answer::<T>::take, (taken, wake), wait),
        (*old(placed) == new && *old(taken) == *final(placed)) || (*old(taken) == new && *old(
            placed,
        ) == *final(taken)),
    ensures
        new.item is None,
        final(placed).item == Some(item),
        final(taken).item == old(taken).item,
        ({
            let init = seq![Call::SemInit { sem: wake, initial_count: 0, limit: 1 }];
            let give = seq![Call::SemGive { sem: wake }];
            let take = seq![Call::SemTake { sem: wake, timeout: Timeout(-1i64) }];
            ||| calls@ == init + give && wait@ == take
            ||| calls@ == give && wait@ == init + take
        }),
{
    let init = seq![Call::SemInit { sem: wake, initial_count: 0, limit: 1 }];
    let give = seq![Call::SemGive { sem: wake }];
    let take = seq![Call::SemTake { sem: wake, timeout: Timeout(-1i64) }];
    if *old(placed) == new {
        assert(calls@ =~= init + give);
        assert(wait@ =~= take);
    } else {
        assert(calls@ =~= give);
        assert(wait@ =~= init + take);
    }
}

} // verus!
