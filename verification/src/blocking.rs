//! A pool of worker threads for blocking operations.
//!
//! An asynchronous task must not block.  It hands a blocking operation to [`run`] and polls the
//! [`BlockingFuture`] that it gets.  The future claims a slot of the pool, puts the operation into
//! it and appends the slot to a queue.  A worker thread takes the slot from the queue, runs the
//! operation and leaves the result in the slot, where the future finds it.
//!
//! A future that is dropped early removes its slot from the queue, and the operation never runs.
//! Where a worker was faster the operation runs to its end, and the result is discarded.
//!
//! A [`Slot`] passes through the hands of the future, the queue and a worker.  [`Job`] says who
//! has it, [`Event`] what can happen to it, and the laws at the end of this module say what holds
//! through all of that.
use crate::raw::{Addr, Call};
use crate::sys::queue::Queue;
use crate::sys::K_FOREVER;
use crate::time::Timeout;
use vstd::prelude::*;

verus! {

/// The state of a slot.
#[derive(Clone, Copy, Debug, PartialEq, Eq, Structural)]
pub enum SlotState {
    /// The slot is not in use.
    Free,
    /// A future took the slot and is filling it.
    Claimed,
    /// The slot is in the queue, or with a worker.
    Queued,
    /// The operation ended, and the slot holds its result.
    Done,
    /// The future is gone, and the worker is to discard the result.
    Orphaned,
}

/// What a future and a worker share.
pub struct Shared<F, R> {
    /// The operation, until the worker takes it.
    pub op: Option<F>,
    /// The result, once there is one.
    pub result: Option<R>,
}

/// A place for one operation that is on its way.
pub struct Slot<F, R> {
    /// The state of the slot.
    pub state: SlotState,
    /// What the future and the worker share, while the future lives.
    pub shared: Option<Shared<F, R>>,
}

impl<F, R> Slot<F, R> {
    /// A slot that is not in use.
    pub open spec fn free() -> Slot<F, R> {
        Slot { state: SlotState::Free, shared: None }
    }

    /// The slot after it was claimed.
    pub open spec fn after_claim(self) -> Slot<F, R> {
        Slot { state: SlotState::Claimed, ..self }
    }

    /// The slot after an operation was put into it.
    pub open spec fn after_submit(self, op: F) -> Slot<F, R> {
        Slot { state: SlotState::Queued, shared: Some(Shared { op: Some(op), result: None }) }
    }

    /// The operation that a worker gets from the slot.
    pub open spec fn begin_op(self) -> Option<F> {
        if self.state == SlotState::Orphaned || self.shared is None {
            None
        } else {
            self.shared->0.op
        }
    }

    /// The slot after a worker looked for the operation.
    pub open spec fn after_begin(self) -> Slot<F, R> {
        if self.begin_op() is None {
            Slot::free()
        } else {
            Slot {
                state: self.state,
                shared: Some(Shared { op: None, result: self.shared->0.result }),
            }
        }
    }

    /// The slot after a worker ran the operation to `result`.
    pub open spec fn after_finish(self, result: R) -> Slot<F, R> {
        if self.state == SlotState::Orphaned || self.shared is None {
            Slot::free()
        } else {
            Slot {
                state: SlotState::Done,
                shared: Some(Shared { op: self.shared->0.op, result: Some(result) }),
            }
        }
    }

    /// Whether the slot holds a result for its future.
    pub open spec fn has_result(self) -> bool {
        self.state == SlotState::Done && self.shared is Some && self.shared->0.result is Some
    }

    /// The slot after its future looked for the result.
    pub open spec fn after_poll(self) -> Slot<F, R> {
        if self.has_result() {
            Slot::free()
        } else {
            self
        }
    }

    /// The slot after its future was dropped; `removed` says whether it was still in the queue.
    pub open spec fn after_drop(self, removed: bool) -> Slot<F, R> {
        if removed || self.state == SlotState::Done {
            Slot::free()
        } else {
            Slot { state: SlotState::Orphaned, shared: None }
        }
    }

    /// A slot that is not in use.
    pub fn new() -> (r: Slot<F, R>)
        ensures
            r == Slot::<F, R>::free(),
    {
        Slot { state: SlotState::Free, shared: None }
    }
}

/// The fixed set of slots.
pub struct SlotPool<F, R> {
    /// The slots, known by their index.
    pub slots: Vec<Slot<F, R>>,
}

/// What a worker has to do with the slot that it took from the queue.
pub enum Work<F> {
    /// Run the operation, then call `SlotPool::run_op_done` with its result.
    Run(F),
    /// Nothing: the slot went back to the pool.  Wake every task that waits for a slot.
    Released,
}

/// Whom to wake after an operation ended.
#[derive(Clone, Copy, Debug, PartialEq, Eq, Structural)]
pub enum Wake {
    /// The slot went back to the pool: every task that waits for a slot.
    Waiters,
    /// The result is there: the task that waits for it.
    Owner,
}

impl<F, R> SlotPool<F, R> {
    /// Whether no slot before `i` is free.
    pub open spec fn busy_before(self, i: int) -> bool {
        forall|j: int| 0 <= j < i ==> (#[trigger] self.slots@[j]).state != SlotState::Free
    }

    /// A pool of `slots` slots, none of them in use.
    pub fn new(slots: usize) -> (pool: SlotPool<F, R>)
        ensures
            pool.slots@ == Seq::new(slots as nat, |i: int| Slot::<F, R>::free()),
    {
        let mut v: Vec<Slot<F, R>> = Vec::new();
        while v.len() < slots
            invariant
                v@.len() <= slots,
                forall|i: int| 0 <= i < v@.len() ==> v@[i] == Slot::<F, R>::free(),
            decreases slots - v@.len(),
        {
            v.push(Slot::new());
        }
        assert(v@ =~= Seq::new(slots as nat, |i: int| Slot::<F, R>::free()));
        SlotPool { slots: v }
    }

    /// Claim the first slot that is free.  Where there is none, the task has to wait until one is
    /// released.
    pub fn claim(&mut self) -> (r: Option<usize>)
        ensures
            match r {
                Some(i) => {
                    &&& i < old(self).slots@.len()
                    &&& old(self).slots@[i as int].state == SlotState::Free
                    &&& old(self).busy_before(i as int)
                    &&& final(self).slots@ == old(self).slots@.update(
                        i as int,
                        old(self).slots@[i as int].after_claim(),
                    )
                },
                None => {
                    &&& old(self).busy_before(old(self).slots@.len() as int)
                    &&& final(self).slots@ == old(self).slots@
                },
            },
    {
        let mut i: usize = 0;
        while i < self.slots.len()
            invariant
                i <= self.slots@.len(),
                *self == *old(self),
                self.busy_before(i as int),
            decreases self.slots@.len() - i,
        {
            if self.slots[i].state == SlotState::Free {
                let shared = self.slots[i].shared.take();
                self.slots[i] = Slot { state: SlotState::Claimed, shared };
                return Some(i);
            }
            i = i + 1;
        }
        None
    }

    /// Put a slot back into the pool.  Every task that waits for a slot has to be woken.
    pub fn release(&mut self, slot: usize)
        requires
            slot < old(self).slots@.len(),
        ensures
            final(self).slots@ == old(self).slots@.update(slot as int, Slot::free()),
    {
        self.slots[slot] = Slot::new();
    }

    /// A worker took `slot` from the queue: what it has to do.
    pub fn run_op(&mut self, slot: usize) -> (work: Work<F>)
        requires
            slot < old(self).slots@.len(),
        ensures
            final(self).slots@ == old(self).slots@.update(
                slot as int,
                old(self).slots@[slot as int].after_begin(),
            ),
            match old(self).slots@[slot as int].begin_op() {
                Some(op) => work == Work::Run(op),
                None => work == Work::<F>::Released,
            },
    {
        let state: SlotState = self.slots[slot].state;
        let shared = self.slots[slot].shared.take();
        if state == SlotState::Orphaned {
            self.release(slot);
            return Work::Released;
        }
        if let Some(shared) = shared {
            if let Some(op) = shared.op {
                self.slots[slot] = Slot {
                    state,
                    shared: Some(Shared { op: None, result: shared.result }),
                };
                return Work::Run(op);
            }
        }
        self.release(slot);
        Work::Released
    }

    /// A worker ran the operation of `slot` to `result`: whom to wake.
    pub fn run_op_done(&mut self, slot: usize, result: R) -> (wake: Wake)
        requires
            slot < old(self).slots@.len(),
        ensures
            final(self).slots@ == old(self).slots@.update(
                slot as int,
                old(self).slots@[slot as int].after_finish(result),
            ),
            wake == (if old(self).slots@[slot as int].after_finish(result).state
                == SlotState::Done {
                Wake::Owner
            } else {
                Wake::Waiters
            }),
    {
        let state: SlotState = self.slots[slot].state;
        let shared = self.slots[slot].shared.take();
        if state == SlotState::Orphaned {
            self.release(slot);
            return Wake::Waiters;
        }
        match shared {
            Some(shared) => {
                self.slots[slot] = Slot {
                    state: SlotState::Done,
                    shared: Some(Shared { op: shared.op, result: Some(result) }),
                };
                Wake::Owner
            },
            None => {
                self.release(slot);
                Wake::Waiters
            },
        }
    }

    /// The future of `slot` was dropped; `removed` says whether the slot was still in the queue.
    /// Where the slot went back to the pool, every task that waits for a slot has to be woken.
    pub fn cancel(&mut self, slot: usize, removed: bool) -> (released: bool)
        requires
            slot < old(self).slots@.len(),
        ensures
            final(self).slots@ == old(self).slots@.update(
                slot as int,
                old(self).slots@[slot as int].after_drop(removed),
            ),
            released <==> removed || old(self).slots@[slot as int].state == SlotState::Done,
    {
        if removed || self.slots[slot].state == SlotState::Done {
            self.release(slot);
            return true;
        }
        self.slots[slot] = Slot { state: SlotState::Orphaned, shared: None };
        false
    }
}

/// The future of an operation.
pub struct BlockingFuture<F> {
    /// The operation, until it is put into a slot.
    pub op: Option<F>,
    /// The slot that the operation is in.
    pub slot: Option<usize>,
}

/// What comes after a future was polled.
pub enum Progress<R> {
    /// No slot was free.  Register the waker of the task for the next slot that is released.
    WaitForSlot,
    /// The operation is in the slot.  Register the waker of the task with it, start the workers if
    /// they do not run yet, and append the slot to the queue.
    Submit(usize),
    /// The slot holds no result yet.
    WaitForResult(usize),
    /// The result.  The slot went back to the pool: wake every task that waits for a slot.
    Ready(R),
}

/// Run a blocking operation on the pool.
pub fn run<F>(op: F) -> (future: BlockingFuture<F>)
    ensures
        future.wf(),
        future.op == Some(op),
        future.slot is None,
{
    BlockingFuture { op: Some(op), slot: None }
}

impl<F> BlockingFuture<F> {
    /// The operation is with the future before it is submitted, and only then.
    pub open spec fn wf(self) -> bool {
        self.slot is Some ==> self.op is None
    }

    /// Whether the future is at its end: it gave its result away.
    pub open spec fn ended(self) -> bool {
        self.slot is None && self.op is None
    }

    /// Move the operation on.  A future that has a slot registers the waker of its task with that
    /// slot before this step, so that no wake is missed.
    pub fn poll<R>(&mut self, pool: &mut SlotPool<F, R>) -> (progress: Progress<R>)
        requires
            old(self).wf(),
            !old(self).ended(),
            old(self).slot matches Some(slot) ==> {
                &&& slot < old(pool).slots@.len()
                &&& old(pool).slots@[slot as int].state == SlotState::Done ==> old(
                    pool,
                ).slots@[slot as int].has_result()
            },
        ensures
            final(self).wf(),
            match old(self).slot {
                None => if old(pool).busy_before(old(pool).slots@.len() as int) {
                    &&& progress == Progress::<R>::WaitForSlot
                    &&& *final(self) == *old(self)
                    &&& final(pool).slots@ == old(pool).slots@
                } else {
                    &&& progress matches Progress::Submit(i)
                    &&& i < old(pool).slots@.len()
                    &&& old(pool).slots@[i as int].state == SlotState::Free
                    &&& old(pool).busy_before(i as int)
                    &&& final(self).slot == Some(i)
                    &&& final(pool).slots@ == old(pool).slots@.update(
                        i as int,
                        old(pool).slots@[i as int].after_submit(old(self).op->0),
                    )
                },
                Some(i) => {
                    &&& final(pool).slots@ == old(pool).slots@.update(
                        i as int,
                        old(pool).slots@[i as int].after_poll(),
                    )
                    &&& if old(pool).slots@[i as int].has_result() {
                        &&& progress == Progress::Ready(
                            old(pool).slots@[i as int].shared->0.result->0,
                        )
                        &&& final(self).ended()
                    } else {
                        &&& progress == Progress::<R>::WaitForResult(i)
                        &&& *final(self) == *old(self)
                    }
                },
            },
    {
        match self.slot {
            None => match pool.claim() {
                None => Progress::WaitForSlot,
                Some(slot) => {
                    assert(!old(pool).busy_before(old(pool).slots@.len() as int)) by {
                        assert(old(pool).slots@[slot as int].state == SlotState::Free);
                    }
                    self.slot = Some(slot);
                    let op = self.op.take();
                    pool.slots[slot] = Slot {
                        state: SlotState::Queued,
                        shared: Some(Shared { op, result: None }),
                    };
                    assert(pool.slots@ =~= old(pool).slots@.update(
                        slot as int,
                        old(pool).slots@[slot as int].after_submit(old(self).op->0),
                    ));
                    Progress::Submit(slot)
                },
            },
            Some(slot) => {
                if pool.slots[slot].state == SlotState::Done {
                    if let Some(mut shared) = pool.slots[slot].shared.take() {
                        if let Some(result) = shared.result.take() {
                            self.slot = None;
                            pool.release(slot);
                            return Progress::Ready(result);
                        }
                    }
                }
                assert(pool.slots@ =~= old(pool).slots@.update(
                    slot as int,
                    old(pool).slots@[slot as int].after_poll(),
                ));
                Progress::WaitForResult(slot)
            },
        }
    }

    /// The future is dropped: the slot that has to be removed from the queue, after which comes
    /// `SlotPool::cancel`.
    pub fn drop(&self) -> (slot: Option<usize>)
        ensures
            slot == self.slot,
    {
        self.slot
    }
}

/// The queue that the workers drain, whose messages are slots.
pub struct WorkerPool {
    /// The kernel's queue.
    pub queue: Queue,
    /// Whether the workers were started.
    pub started: bool,
    /// How many workers there are.
    pub threads: usize,
}

impl WorkerPool {
    /// A pool of `threads` workers, none of which was started.
    pub fn new(threads: usize) -> (r: WorkerPool)
        ensures
            r.queue.0.state == 0,
            !r.started,
            r.threads == threads,
    {
        WorkerPool { queue: Queue::new(), started: false, threads }
    }

    /// How many workers to start now: all of them the first time, then none.
    pub fn start_workers_once(&mut self) -> (count: usize)
        ensures
            count == (if old(self).started {
                0
            } else {
                old(self).threads
            }),
            final(self).started,
            final(self).threads == old(self).threads,
            final(self).queue == old(self).queue,
    {
        if self.started {
            0
        } else {
            self.started = true;
            self.threads
        }
    }

    /// A worker waits for the next slot from the queue, which is at `addr`.
    pub fn worker(&mut self, addr: Addr) -> (calls: Vec<Call>)
        requires
            old(self).queue.0.usable(addr),
        ensures
            calls@ == old(self).queue.0.get_calls(addr).push(
                Call::QueueGet { queue: addr, timeout: Timeout(K_FOREVER) },
            ),
            final(self).queue.0 == old(self).queue.0.after_get(addr),
            final(self).started == old(self).started,
            final(self).threads == old(self).threads,
    {
        self.queue.recv(addr, Timeout(K_FOREVER))
    }

    /// A future that is dropped takes the slot at `slot` out of the queue, which is at `addr`.  The
    /// answer is whether the slot was in it.
    pub fn remove(&mut self, addr: Addr, slot: Addr) -> (calls: Vec<Call>)
        requires
            old(self).queue.0.usable(addr),
        ensures
            calls@ == old(self).queue.0.get_calls(addr).push(
                Call::QueueRemove { queue: addr, data: slot },
            ),
            final(self).queue.0 == old(self).queue.0.after_get(addr),
            final(self).started == old(self).started,
            final(self).threads == old(self).threads,
    {
        self.queue.remove(addr, slot)
    }

    /// Append the slot at `slot` to the queue, which is at `addr`.
    pub fn send(&mut self, addr: Addr, slot: Addr) -> (calls: Vec<Call>)
        requires
            old(self).queue.0.usable(addr),
        ensures
            calls@ == old(self).queue.0.get_calls(addr).push(
                Call::QueueAppend { queue: addr, data: slot },
            ),
            final(self).queue.0 == old(self).queue.0.after_get(addr),
            final(self).started == old(self).started,
            final(self).threads == old(self).threads,
    {
        self.queue.send(addr, slot)
    }
}

/// Where a slot is.
pub enum Place {
    /// Neither in the queue nor with a worker.
    Idle,
    /// In the queue.
    Queue,
    /// With a worker that did not look for the operation yet.
    Picked,
    /// With a worker that runs the operation.
    Running,
}

/// Who has a slot.
pub struct Job {
    /// Whether a future that was not dropped has it.
    pub owner: bool,
    /// Where the slot is.
    pub place: Place,
}

/// What can happen to a slot.
pub enum Event<F, R> {
    /// A future claims it for an operation and appends it to the queue.
    Submit(F),
    /// A worker takes it from the queue.
    Pick,
    /// That worker looks for the operation.
    Begin,
    /// That worker ran the operation.
    Finish(R),
    /// The future looks for the result.
    Poll,
    /// The future is dropped.
    Drop,
}

/// Who has a slot that no future ever claimed.
pub open spec fn unheld() -> Job {
    Job { owner: false, place: Place::Idle }
}

/// Whether an event can happen: a future submits only to a slot that is free, the queue gives each
/// slot to one worker, and only the future that has a slot polls or drops it.
pub open spec fn enabled<F, R>(slot: Slot<F, R>, job: Job, event: Event<F, R>) -> bool {
    match event {
        Event::Submit(_) => slot.state == SlotState::Free,
        Event::Pick => job.place is Queue,
        Event::Begin => job.place is Picked,
        Event::Finish(_) => job.place is Running,
        Event::Poll => job.owner,
        Event::Drop => job.owner,
    }
}

/// The slot after an event.
pub open spec fn slot_after<F, R>(slot: Slot<F, R>, job: Job, event: Event<F, R>) -> Slot<F, R> {
    match event {
        Event::Submit(op) => slot.after_submit(op),
        Event::Pick => slot,
        Event::Begin => slot.after_begin(),
        Event::Finish(result) => slot.after_finish(result),
        Event::Poll => slot.after_poll(),
        Event::Drop => slot.after_drop(job.place is Queue),
    }
}

/// Who has the slot after an event.
pub open spec fn job_after<F, R>(slot: Slot<F, R>, job: Job, event: Event<F, R>) -> Job {
    match event {
        Event::Submit(_) => Job { owner: true, place: Place::Queue },
        Event::Pick => Job { owner: job.owner, place: Place::Picked },
        Event::Begin => Job {
            owner: job.owner,
            place: if slot.begin_op() is Some {
                Place::Running
            } else {
                Place::Idle
            },
        },
        Event::Finish(_) => Job { owner: job.owner, place: Place::Idle },
        Event::Poll => Job { owner: !slot.has_result(), place: job.place },
        Event::Drop => Job {
            owner: false,
            place: if job.place is Queue {
                Place::Idle
            } else {
                job.place
            },
        },
    }
}

/// What holds between any two events.
pub open spec fn consistent<F, R>(slot: Slot<F, R>, job: Job) -> bool {
    match slot.state {
        SlotState::Free => slot.shared is None && !job.owner && job.place is Idle,
        SlotState::Claimed => false,
        SlotState::Queued => {
            &&& job.owner
            &&& !(job.place is Idle)
            &&& slot.shared is Some
            &&& slot.shared->0.op is None <==> job.place is Running
            &&& slot.shared->0.result is None
        },
        SlotState::Done => {
            &&& job.owner
            &&& job.place is Idle
            &&& slot.shared is Some
            &&& slot.shared->0.op is None
            &&& slot.shared->0.result is Some
        },
        SlotState::Orphaned => {
            &&& !job.owner
            &&& job.place is Picked || job.place is Running
            &&& slot.shared is None
        },
    }
}

/// Whether a run of events can happen to a slot.
pub open spec fn run_enabled<F, R>(slot: Slot<F, R>, job: Job, events: Seq<Event<F, R>>) -> bool
    decreases events.len(),
{
    events.len() == 0 || {
        &&& run_enabled(slot, job, events.drop_last())
        &&& ({
            let (s, j) = run_after(slot, job, events.drop_last());
            enabled(s, j, events.last())
        })
    }
}

/// The slot, and who has it, after a run of events.
pub open spec fn run_after<F, R>(slot: Slot<F, R>, job: Job, events: Seq<Event<F, R>>) -> (
    Slot<F, R>,
    Job,
)
    decreases events.len(),
{
    if events.len() == 0 {
        (slot, job)
    } else {
        let (s, j) = run_after(slot, job, events.drop_last());
        (slot_after(s, j, events.last()), job_after(s, j, events.last()))
    }
}

/// The operations that workers were given to run in a run of events.
pub open spec fn ops_run<F, R>(slot: Slot<F, R>, job: Job, events: Seq<Event<F, R>>) -> Seq<F>
    decreases events.len(),
{
    if events.len() == 0 {
        Seq::empty()
    } else {
        let (s, j) = run_after(slot, job, events.drop_last());
        let before = ops_run(slot, job, events.drop_last());
        if events.last() is Begin && s.begin_op() is Some {
            before.push(s.begin_op()->0)
        } else {
            before
        }
    }
}

/// The operations that were submitted in a run of events.
pub open spec fn ops_submitted<F, R>(events: Seq<Event<F, R>>) -> Seq<F>
    decreases events.len(),
{
    if events.len() == 0 {
        Seq::empty()
    } else {
        let before = ops_submitted(events.drop_last());
        match events.last() {
            Event::Submit(op) => before.push(op),
            _ => before,
        }
    }
}

/// Every event keeps a slot consistent with who has it.
pub proof fn law_slot_consistent<F, R>(slot: Slot<F, R>, job: Job, event: Event<F, R>)
    requires
        consistent(slot, job),
        enabled(slot, job, event),
    ensures
        consistent(slot_after(slot, job, event), job_after(slot, job, event)),
{
}

/// A slot stays consistent with who has it through any run of events.
pub proof fn law_slot_always_consistent<F, R>(events: Seq<Event<F, R>>)
    requires
        run_enabled(Slot::<F, R>::free(), unheld(), events),
    ensures
        ({
            let (s, j) = run_after(Slot::<F, R>::free(), unheld(), events);
            consistent(s, j)
        }),
    decreases events.len(),
{
    if events.len() > 0 {
        law_slot_always_consistent(events.drop_last());
        let (s, j) = run_after(Slot::<F, R>::free(), unheld(), events.drop_last());
        law_slot_consistent(s, j, events.last());
    }
}

/// A slot is free exactly when no future has it and it is neither in the queue nor with a worker.
/// So none is lost, and none is handed out while it is in use.
pub proof fn law_free_iff_unheld<F, R>(slot: Slot<F, R>, job: Job)
    requires
        consistent(slot, job),
    ensures
        slot.state == SlotState::Free <==> !job.owner && job.place is Idle,
{
}

/// In any run of events the workers run a subsequence of the operations that were submitted, at
/// most one run for each: the last submitted operation is still to be run, or every run was of a
/// different earlier submission.
pub proof fn law_runs_at_most_once<F, R>(events: Seq<Event<F, R>>)
    requires
        run_enabled(Slot::<F, R>::free(), unheld(), events),
    ensures
        ({
            let ran = ops_run(Slot::<F, R>::free(), unheld(), events);
            let submitted = ops_submitted(events);
            let (s, j) = run_after(Slot::<F, R>::free(), unheld(), events);
            &&& is_subsequence(ran, submitted)
            &&& (j.place is Queue || j.place is Picked) && s.state == SlotState::Queued
                ==> submitted.len() > 0 && s.begin_op() == Some(submitted.last())
                && is_subsequence(ran, submitted.drop_last())
        }),
    decreases events.len(),
{
    if events.len() > 0 {
        let init = events.drop_last();
        law_runs_at_most_once(init);
        law_slot_always_consistent(init);
        law_slot_always_consistent(events);
        let ran = ops_run(Slot::<F, R>::free(), unheld(), init);
        let submitted = ops_submitted(init);
        match events.last() {
            Event::Submit(op) => {
                lemma_subsequence_push_right(ran, submitted, op);
                assert(submitted.push(op).drop_last() =~= submitted);
            },
            Event::Begin => {
                let (s, j) = run_after(Slot::<F, R>::free(), unheld(), init);
                if s.begin_op() is Some {
                    let op = submitted.last();
                    lemma_subsequence_push_both(ran, submitted.drop_last(), op);
                    assert(submitted.drop_last().push(op) =~= submitted);
                }
            },
            _ => {},
        }
    } else {
        lemma_empty_subsequence(
            ops_run(Slot::<F, R>::free(), unheld(), events),
            ops_submitted(events),
        );
    }
}

/// Whether `a` comes from `b` by leaving items out.
pub open spec fn is_subsequence<T>(a: Seq<T>, b: Seq<T>) -> bool
    decreases b.len(),
{
    if a.len() == 0 {
        true
    } else if b.len() == 0 {
        false
    } else {
        ||| is_subsequence(a, b.drop_last())
        ||| a.last() == b.last() && is_subsequence(a.drop_last(), b.drop_last())
    }
}

proof fn lemma_empty_subsequence<T>(a: Seq<T>, b: Seq<T>)
    requires
        a.len() == 0,
    ensures
        is_subsequence(a, b),
{
}

proof fn lemma_subsequence_push_right<T>(a: Seq<T>, b: Seq<T>, x: T)
    requires
        is_subsequence(a, b),
    ensures
        is_subsequence(a, b.push(x)),
{
    assert(b.push(x).drop_last() =~= b);
}

proof fn lemma_subsequence_push_both<T>(a: Seq<T>, b: Seq<T>, x: T)
    requires
        is_subsequence(a, b),
    ensures
        is_subsequence(a.push(x), b.push(x)),
{
    assert(b.push(x).drop_last() =~= b);
    assert(a.push(x).drop_last() =~= a);
}

/// A future that is dropped while its slot is in the queue takes the operation with it: the slot
/// is free at once, and no worker gets the operation.
pub proof fn law_cancelled_in_queue_never_runs<F, R>(slot: Slot<F, R>, job: Job)
    requires
        consistent(slot, job),
        job.owner,
        job.place is Queue,
    ensures
        slot_after(slot, job, Event::<F, R>::Drop) == Slot::<F, R>::free(),
        job_after(slot, job, Event::<F, R>::Drop) == unheld(),
{
}

/// A future that is dropped while a worker runs its operation does not stop it: the operation ends,
/// its result is discarded, and the slot is free then.
pub proof fn law_cancelled_while_running_discards<F, R>(slot: Slot<F, R>, job: Job, result: R)
    requires
        consistent(slot, job),
        job.owner,
        job.place is Running,
    ensures
        ({
            let s = slot_after(slot, job, Event::<F, R>::Drop);
            let j = job_after(slot, job, Event::<F, R>::Drop);
            &&& enabled(s, j, Event::<F, R>::Finish(result))
            &&& slot_after(s, j, Event::<F, R>::Finish(result)) == Slot::<F, R>::free()
            &&& job_after(s, j, Event::<F, R>::Finish(result)) == unheld()
        }),
{
}

/// An operation that is submitted is what the worker gets, and the result that the worker reports
/// is what the next poll of the future yields, after which the slot is free.
pub proof fn law_result_reaches_future<F, R>(slot: Slot<F, R>, op: F, result: R)
    requires
        slot.state == SlotState::Free,
    ensures
        slot.after_submit(op).begin_op() == Some(op),
        !slot.after_submit(op).has_result(),
        ({
            let done = slot.after_submit(op).after_begin().after_finish(result);
            &&& done.has_result()
            &&& done.shared->0.result == Some(result)
            &&& done.after_poll() == Slot::<F, R>::free()
        }),
{
}

/// What became of the operation that was submitted last to a slot.
pub struct Life<F, R> {
    /// The operation, if any was submitted.
    pub op: Option<F>,
    /// What workers were given to run since.
    pub runs: Seq<F>,
    /// What the runs came to.
    pub results: Seq<R>,
    /// Whether the future was dropped before a worker looked for the operation.
    pub cancelled: bool,
}

/// What became, in a run of events, of the operation that was submitted last.
pub open spec fn life<F, R>(events: Seq<Event<F, R>>) -> Life<F, R>
    decreases events.len(),
{
    if events.len() == 0 {
        Life { op: None, runs: Seq::empty(), results: Seq::empty(), cancelled: false }
    } else {
        let before = life(events.drop_last());
        let (s, j) = run_after(Slot::<F, R>::free(), unheld(), events.drop_last());
        match events.last() {
            Event::Submit(op) => Life {
                op: Some(op),
                runs: Seq::empty(),
                results: Seq::empty(),
                cancelled: false,
            },
            Event::Begin => if s.begin_op() is Some {
                Life { runs: before.runs.push(s.begin_op()->0), ..before }
            } else {
                before
            },
            Event::Finish(result) => Life { results: before.results.push(result), ..before },
            Event::Drop => Life {
                cancelled: before.cancelled || j.place is Queue || j.place is Picked,
                ..before
            },
            _ => before,
        }
    }
}

/// What the state of a slot says of the operation that was submitted last.
pub open spec fn life_matches<F, R>(life: Life<F, R>, slot: Slot<F, R>, job: Job) -> bool {
    let ran = life.op is Some && life.runs == seq![life.op->0];
    &&& life.runs.len() == 0 || ran
    &&& life.results.len() <= life.runs.len()
    &&& life.cancelled ==> life.runs.len() == 0 && (slot.state == SlotState::Free || slot.state
        == SlotState::Orphaned && job.place is Picked)
    &&& job.place is Running ==> ran && life.results.len() == 0
    &&& job.place is Queue || job.place is Picked ==> life.runs.len() == 0
    &&& slot.state == SlotState::Queued && !(job.place is Running) ==> life.op is Some
        && slot.shared->0.op == life.op
    &&& slot.state == SlotState::Done ==> ran && life.results == seq![
        slot.shared->0.result->0,
    ]
}

proof fn lemma_life<F, R>(events: Seq<Event<F, R>>)
    requires
        run_enabled(Slot::<F, R>::free(), unheld(), events),
    ensures
        ({
            let (s, j) = run_after(Slot::<F, R>::free(), unheld(), events);
            life_matches(life(events), s, j)
        }),
    decreases events.len(),
{
    law_slot_always_consistent(events);
    if events.len() > 0 {
        let init = events.drop_last();
        lemma_life(init);
        law_slot_always_consistent(init);
        let (s, j) = run_after(Slot::<F, R>::free(), unheld(), init);
        let before = life(init);
        match events.last() {
            Event::Begin => {
                if s.begin_op() is Some {
                    assert(before.runs.push(s.begin_op()->0) =~= seq![s.begin_op()->0]);
                }
            },
            Event::Finish(result) => {
                assert(before.results.push(result) =~= seq![result]);
            },
            _ => {},
        }
    }
}

/// Whatever futures and workers do to a slot, and in whatever order: where a poll of the future
/// yields `v`, its operation was run exactly once, and that run came to `v`.
pub proof fn law_ready_after_one_run<F, R>(events: Seq<Event<F, R>>, v: R)
    requires
        run_enabled(Slot::<F, R>::free(), unheld(), events),
        ({
            let (s, j) = run_after(Slot::<F, R>::free(), unheld(), events);
            s.has_result() && s.shared->0.result->0 == v
        }),
    ensures
        life(events).op is Some,
        life(events).runs == seq![life(events).op->0],
        life(events).results == seq![v],
{
    lemma_life(events);
}

/// Whatever futures and workers do to a slot, and in whatever order: an operation is run at most
/// once, and not at all where its future was dropped before a worker looked for it.
pub proof fn law_dropped_before_begin_never_runs<F, R>(events: Seq<Event<F, R>>)
    requires
        run_enabled(Slot::<F, R>::free(), unheld(), events),
    ensures
        life(events).runs.len() <= 1,
        life(events).cancelled ==> life(events).runs.len() == 0 && life(events).results.len() == 0,
{
    lemma_life(events);
}

/// The whole way of an operation: the poll that submits it puts it into a slot; the worker that
/// takes that slot is given exactly this operation; the result that the worker reports is exactly
/// what the next poll of the future yields; then the slot is free, and the future is at its end.
pub proof fn law_operation_goes_round<F, R>(
    future: &mut BlockingFuture<F>,
    submitting: &mut SlotPool<F, R>,
    i: usize,
    running: &mut SlotPool<F, R>,
    work: Work<F>,
    ending: &mut SlotPool<F, R>,
    v: R,
    wake: Wake,
    again: &mut BlockingFuture<F>,
    polling: &mut SlotPool<F, R>,
    progress: Progress<R>,
)
    requires
        old(future).slot is None,
        old(future).op is Some,
        call_ensures(
            BlockingFuture::<F>::poll::<R>,
            (future, submitting),
            Progress::<R>::Submit(i),
        ),
        call_ensures(SlotPool::<F, R>::run_op, (running, i), work),
        call_ensures(SlotPool::<F, R>::run_op_done, (ending, i, v), wake),
        call_ensures(BlockingFuture::<F>::poll::<R>, (again, polling), progress),
        i < old(running).slots@.len(),
        i < old(ending).slots@.len(),
        i < old(polling).slots@.len(),
        old(running).slots@[i as int] == final(submitting).slots@[i as int],
        old(ending).slots@[i as int] == final(running).slots@[i as int],
        old(polling).slots@[i as int] == final(ending).slots@[i as int],
        old(again).slot == final(future).slot,
    ensures
        old(submitting).slots@[i as int].state == SlotState::Free,
        final(future).slot == Some(i),
        final(future).op is None,
        work matches Work::Run(op) && op == old(future).op->0,
        wake == Wake::Owner,
        progress matches Progress::Ready(got) && got == v,
        final(again).slot is None,
        final(polling).slots@[i as int].state == SlotState::Free,
        final(polling).slots@[i as int].shared is None,
{
}

/// An operation whose future is dropped before a worker ran it is never given to a worker: neither
/// where the slot was still in the queue, nor where a worker had taken the slot.
pub proof fn law_dropped_operation_is_not_run<F, R>(
    future: &mut BlockingFuture<F>,
    submitting: &mut SlotPool<F, R>,
    i: usize,
    dropping: &mut SlotPool<F, R>,
    removed: bool,
    released: bool,
    running: &mut SlotPool<F, R>,
    work: Work<F>,
)
    requires
        old(future).slot is None,
        old(future).op is Some,
        call_ensures(
            BlockingFuture::<F>::poll::<R>,
            (future, submitting),
            Progress::<R>::Submit(i),
        ),
        call_ensures(SlotPool::<F, R>::cancel, (dropping, i, removed), released),
        call_ensures(SlotPool::<F, R>::run_op, (running, i), work),
        i < old(dropping).slots@.len(),
        i < old(running).slots@.len(),
        old(dropping).slots@[i as int] == final(submitting).slots@[i as int],
        old(running).slots@[i as int] == final(dropping).slots@[i as int],
    ensures
        released <==> removed,
        removed ==> final(dropping).slots@[i as int].state == SlotState::Free,
        work == Work::<F>::Released,
        final(running).slots@[i as int].state == SlotState::Free,
        final(running).slots@[i as int].shared is None,
{
}

/// The result of an operation whose future is dropped while it runs goes nowhere: the slot is free
/// when the operation ends, and it is the tasks that wait for a slot that are woken.
pub proof fn law_dropped_result_is_discarded<F, R>(
    dropping: &mut SlotPool<F, R>,
    i: usize,
    released: bool,
    ending: &mut SlotPool<F, R>,
    v: R,
    wake: Wake,
)
    requires
        call_ensures(SlotPool::<F, R>::cancel, (dropping, i, false), released),
        call_ensures(SlotPool::<F, R>::run_op_done, (ending, i, v), wake),
        i < old(dropping).slots@.len(),
        i < old(ending).slots@.len(),
        old(dropping).slots@[i as int].state == SlotState::Queued,
        old(ending).slots@[i as int] == final(dropping).slots@[i as int],
    ensures
        !released,
        wake == Wake::Waiters,
        final(ending).slots@[i as int].state == SlotState::Free,
        final(ending).slots@[i as int].shared is None,
{
}

/// A poll that does not end waits: for a slot where none is free, for the result where the slot
/// does not hold it.  Then nothing changes.
pub proof fn law_poll_waits<F, R>(
    future: &mut BlockingFuture<F>,
    pool: &mut SlotPool<F, R>,
    progress: Progress<R>,
)
    requires
        call_ensures(BlockingFuture::<F>::poll::<R>, (future, pool), progress),
        old(future).slot matches Some(i) ==> i < old(pool).slots@.len(),
    ensures
        progress is WaitForSlot || progress is WaitForResult ==> final(pool).slots@
            == old(pool).slots@ && *final(future) == *old(future),
        progress is WaitForSlot <==> old(future).slot is None && forall|j: int|
            0 <= j < old(pool).slots@.len() ==> (#[trigger] old(pool).slots@[j]).state
                != SlotState::Free,
        progress is WaitForSlot || progress is Submit <==> old(future).slot is None,
        progress matches Progress::WaitForResult(i) ==> old(future).slot == Some(i),
        old(future).slot matches Some(i) && old(pool).slots@[i as int].state != SlotState::Done
            ==> progress is WaitForResult,
{
    if let Some(i) = old(future).slot {
        if !old(pool).slots@[i as int].has_result() {
            assert(old(pool).slots@.update(i as int, old(pool).slots@[i as int])
                =~= old(pool).slots@);
        }
    }
}

/// What is done to one slot leaves all others as they are.
pub proof fn law_slots_do_not_interfere<F, R>(
    a: &mut SlotPool<F, R>,
    b: &mut SlotPool<F, R>,
    c: &mut SlotPool<F, R>,
    d: &mut SlotPool<F, R>,
    i: usize,
    j: int,
    work: Work<F>,
    v: R,
    wake: Wake,
    removed: bool,
    released: bool,
)
    requires
        j != i,
        call_ensures(SlotPool::<F, R>::run_op, (a, i), work),
        call_ensures(SlotPool::<F, R>::run_op_done, (b, i, v), wake),
        call_ensures(SlotPool::<F, R>::cancel, (c, i, removed), released),
        call_ensures(SlotPool::<F, R>::release, (d, i), ()),
        i < old(a).slots@.len() && i < old(b).slots@.len(),
        i < old(c).slots@.len() && i < old(d).slots@.len(),
    ensures
        0 <= j < old(a).slots@.len() ==> final(a).slots@[j] == old(a).slots@[j],
        0 <= j < old(b).slots@.len() ==> final(b).slots@[j] == old(b).slots@[j],
        0 <= j < old(c).slots@.len() ==> final(c).slots@[j] == old(c).slots@[j],
        0 <= j < old(d).slots@.len() ==> final(d).slots@[j] == old(d).slots@[j],
        final(a).slots@.len() == old(a).slots@.len() && final(b).slots@.len()
            == old(b).slots@.len(),
        final(c).slots@.len() == old(c).slots@.len() && final(d).slots@.len()
            == old(d).slots@.len(),
        final(d).slots@[i as int].state == SlotState::Free,
{
}

/// The slot that is claimed is the first free one; it is not free then, and the others are as they
/// were.  There is none exactly where none is free.
pub proof fn law_first_free_slot_is_claimed<F, R>(
    pool: &mut SlotPool<F, R>,
    r: Option<usize>,
)
    requires
        call_ensures(SlotPool::<F, R>::claim, (pool,), r),
    ensures
        final(pool).slots@.len() == old(pool).slots@.len(),
        match r {
            Some(i) => {
                &&& i < old(pool).slots@.len()
                &&& old(pool).slots@[i as int].state == SlotState::Free
                &&& final(pool).slots@[i as int].state == SlotState::Claimed
                &&& forall|j: int|
                    0 <= j < i ==> (#[trigger] old(pool).slots@[j]).state != SlotState::Free
                &&& forall|j: int|
                    0 <= j < old(pool).slots@.len() && j != i ==> #[trigger] final(pool).slots@[j]
                        == old(pool).slots@[j]
            },
            None => {
                &&& forall|j: int|
                    0 <= j < old(pool).slots@.len() ==> (#[trigger] old(pool).slots@[j]).state
                        != SlotState::Free
                &&& final(pool).slots@ == old(pool).slots@
            },
        },
{
}

/// A future of an operation has it, and no slot; a new pool has as many free slots as asked for.
pub proof fn law_new_future_and_pool<F, R>(
    op: F,
    future: BlockingFuture<F>,
    n: usize,
    pool: SlotPool<F, R>,
)
    requires
        call_ensures(run::<F>, (op,), future),
        call_ensures(SlotPool::<F, R>::new, (n,), pool),
    ensures
        future.op == Some(op),
        future.slot is None,
        pool.slots@.len() == n,
        forall|i: int|
            0 <= i < n ==> (#[trigger] pool.slots@[i]).state == SlotState::Free
                && pool.slots@[i].shared is None,
{
}

/// The workers are started once, as many as there are; each waits without a limit for the next slot
/// from the queue, to which a submitted slot is appended, and from which a dropped one is removed.
pub proof fn law_workers_drain_queue(
    pool: &mut WorkerPool,
    count: usize,
    getting: &mut WorkerPool,
    sending: &mut WorkerPool,
    removing: &mut WorkerPool,
    addr: Addr,
    slot: Addr,
    got: Vec<Call>,
    sent: Vec<Call>,
    removed: Vec<Call>,
)
    requires
        call_ensures(WorkerPool::start_workers_once, (pool,), count),
        call_ensures(WorkerPool::worker, (getting, addr), got),
        call_ensures(WorkerPool::send, (sending, addr, slot), sent),
        call_ensures(WorkerPool::remove, (removing, addr, slot), removed),
    ensures
        final(pool).started,
        old(pool).started ==> count == 0,
        !old(pool).started ==> count == old(pool).threads,
        got@.last() == (Call::QueueGet { queue: addr, timeout: Timeout(-1i64) }),
        sent@.last() == (Call::QueueAppend { queue: addr, data: slot }),
        removed@.last() == (Call::QueueRemove { queue: addr, data: slot }),
{
}

/// What a worker finds in a slot: the operation, which it then has alone, so that a second look
/// finds none; or nothing, and the slot is free.  There is nothing where the future is gone.
pub proof fn law_worker_takes_operation<F, R>(
    pool: &mut SlotPool<F, R>,
    i: usize,
    work: Work<F>,
)
    requires
        i < old(pool).slots@.len(),
        call_ensures(SlotPool::<F, R>::run_op, (pool, i), work),
    ensures
        ({
            let before = old(pool).slots@[i as int];
            let after = final(pool).slots@[i as int];
            match before.shared {
                Some(Shared { op: Some(op), result }) if before.state != SlotState::Orphaned => {
                    &&& work matches Work::Run(got) && got == op
                    &&& after.state == before.state
                    &&& after.shared matches Some(left) && left.op is None && left.result == result
                },
                _ => {
                    &&& work is Released
                    &&& after.state == SlotState::Free
                    &&& after.shared is None
                },
            }
        }),
{
}

/// The end of an operation: the result is in the slot, and its future is woken, unless the future
/// is gone; then the slot is free, and it is the tasks that wait for a slot that are woken.
pub proof fn law_result_is_kept_for_future<F, R>(
    pool: &mut SlotPool<F, R>,
    i: usize,
    v: R,
    wake: Wake,
)
    requires
        i < old(pool).slots@.len(),
        call_ensures(SlotPool::<F, R>::run_op_done, (pool, i, v), wake),
    ensures
        ({
            let before = old(pool).slots@[i as int];
            let after = final(pool).slots@[i as int];
            if before.state == SlotState::Orphaned || before.shared is None {
                &&& wake == Wake::Waiters
                &&& after.state == SlotState::Free
                &&& after.shared is None
            } else {
                &&& wake == Wake::Owner
                &&& after.state == SlotState::Done
                &&& after.shared matches Some(held) && held.result == Some(v) && held.op
                    == before.shared->0.op
            }
        }),
{
}

/// A future that is dropped leaves its slot free where the slot was in the queue or holds the
/// result, and else to the worker, with nothing in it.
pub proof fn law_dropped_future_leaves_slot<F, R>(
    pool: &mut SlotPool<F, R>,
    i: usize,
    removed: bool,
    released: bool,
)
    requires
        i < old(pool).slots@.len(),
        call_ensures(SlotPool::<F, R>::cancel, (pool, i, removed), released),
    ensures
        released <==> removed || old(pool).slots@[i as int].state == SlotState::Done,
        final(pool).slots@[i as int].shared is None,
        final(pool).slots@[i as int].state == if released {
            SlotState::Free
        } else {
            SlotState::Orphaned
        },
{
}

/// A future without a slot puts its operation into the first free one, and changes no other; one
/// with a slot yields the result that is in it, once, and frees that slot only.
pub proof fn law_poll_moves_operation<F, R>(
    future: &mut BlockingFuture<F>,
    pool: &mut SlotPool<F, R>,
    progress: Progress<R>,
    j: int,
)
    requires
        old(future).slot matches Some(i) ==> i < old(pool).slots@.len(),
        old(future).slot is None ==> old(future).op is Some,
        0 <= j < old(pool).slots@.len(),
        call_ensures(BlockingFuture::<F>::poll::<R>, (future, pool), progress),
    ensures
        final(pool).slots@.len() == old(pool).slots@.len(),
        progress matches Progress::Submit(i) ==> {
            &&& old(future).slot is None && final(future).slot == Some(i)
            &&& final(future).op is None
            &&& j < i ==> old(pool).slots@[j].state != SlotState::Free
            &&& j == i ==> old(pool).slots@[j].state == SlotState::Free
            &&& j == i ==> final(pool).slots@[j].state == SlotState::Queued
            &&& j == i ==> (final(pool).slots@[j].shared matches Some(held) && held.op
                == old(future).op && held.result is None)
            &&& j != i ==> final(pool).slots@[j] == old(pool).slots@[j]
        },
        progress matches Progress::Ready(v) ==> {
            &&& old(future).slot matches Some(i)
            &&& old(pool).slots@[i as int].state == SlotState::Done
            &&& old(pool).slots@[i as int].shared matches Some(held) && held.result == Some(v)
            &&& final(future).slot is None && final(future).op is None
            &&& j == i ==> final(pool).slots@[j].state == SlotState::Free
            &&& j == i ==> final(pool).slots@[j].shared is None
            &&& j != i ==> final(pool).slots@[j] == old(pool).slots@[j]
        },
{
}

/// A slot that is claimed keeps what is in it.
pub proof fn law_claim_keeps_contents<F, R>(pool: &mut SlotPool<F, R>, i: usize)
    requires
        call_ensures(SlotPool::<F, R>::claim, (pool,), Some(i)),
    ensures
        final(pool).slots@[i as int].shared == old(pool).slots@[i as int].shared,
{
}

} // verus!
