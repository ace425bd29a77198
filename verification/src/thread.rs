//! Pools of threads.
//!
//! A pool is a fixed set of threads with their stacks.  A thread is taken from the pool, given its
//! arguments, and started.  It can be joined, and it can be taken again after it exited.
use crate::raw::{Addr, Call, ThreadArgs};
use crate::sys::thread::next_multiple;
use crate::sys::{K_FOREVER, K_NO_WAIT};
use crate::time::Timeout;
use vstd::prelude::*;

verus! {

/// The size of a stack, rounded up to the alignment of stacks.
pub fn stack_len(size: usize, align: usize) -> (r: usize)
    requires
        align > 0,
        next_multiple(size as int, align as int) <= usize::MAX,
    ensures
        r == next_multiple(size as int, align as int),
{
    crate::sys::thread::stack_len(size, align)
}

/// The state of a thread of a pool.
#[derive(Clone, Copy, Debug, PartialEq, Eq, Structural)]
pub enum ThreadState {
    /// The thread was never taken.
    Init,
    /// The thread was taken, and not started.
    Allocated,
    /// The thread was started.  It may have exited since.
    Running,
}

/// The arguments of a thread, from when it is taken until it reads them.
pub struct InitData<T>(pub Option<T>);

impl<T> InitData<T> {
    /// No arguments.
    pub fn new() -> (r: InitData<T>)
        ensures
            r.0 is None,
    {
        InitData(None)
    }
}

/// A thread object of the kernel.
#[derive(Clone, Copy, Debug, PartialEq, Eq, Structural)]
pub struct Thread(pub Addr);

impl Thread {
    /// The thread object at `addr`.
    pub fn new(addr: Addr) -> (r: Thread)
        ensures
            r.0 == addr,
    {
        Thread(addr)
    }
}

/// The stack of a thread, of `SIZE` bytes.
#[derive(Clone, Copy)]
pub struct ThreadStack<const SIZE: usize> {
    /// The lowest address.
    pub data: Addr,
}

impl<const SIZE: usize> ThreadStack<SIZE> {
    /// The stack at `data`.
    pub fn new(data: Addr) -> (r: ThreadStack<SIZE>)
        ensures
            r.data == data,
    {
        ThreadStack { data }
    }

    /// The size of the stack.
    pub fn size(&self) -> (r: usize)
        ensures
            r == SIZE,
    {
        SIZE
    }
}

/// A thread of a pool.
pub struct ThreadData<T> {
    /// Its arguments.
    pub init: InitData<T>,
    /// Where its arguments are kept.
    pub init_addr: Addr,
    /// Its state.
    pub state: ThreadState,
    /// The kernel's thread.
    pub thread: Thread,
}

/// How the search for a thread goes on.
pub enum Find {
    /// The thread with this index was taken.
    Found(usize),
    /// The thread with this index may have exited.  Make the call;
    /// [`ThreadData::find_thread_joined`] takes the answer.
    Join(usize, Call),
    /// No thread can be taken.
    Exhausted,
}

/// The states of the threads of a pool.
pub open spec fn states<T>(pool: Seq<ThreadData<T>>) -> Seq<ThreadState> {
    pool.map_values(|t: ThreadData<T>| t.state)
}

/// The first thread from `from` on that was not taken without being started, or the number of
/// threads.
pub open spec fn candidate(states: Seq<ThreadState>, from: int) -> int
    decreases states.len() - from,
{
    if from >= states.len() || states[from] != ThreadState::Allocated {
        from
    } else {
        candidate(states, from + 1)
    }
}

/// The pool after the thread at `id` was taken.
pub open spec fn taken<T>(pool: Seq<ThreadData<T>>, id: int) -> Seq<ThreadData<T>> {
    pool.update(id, ThreadData { state: ThreadState::Allocated, ..pool[id] })
}

/// A step of the search, from the thread at `from` on.
pub open spec fn find_step<T>(
    before: Seq<ThreadData<T>>,
    after: Seq<ThreadData<T>>,
    from: int,
    step: Find,
) -> bool {
    let id = candidate(states(before), from);
    if id >= before.len() {
        step == Find::Exhausted && after == before
    } else if before[id].state == ThreadState::Init {
        step == Find::Found(id as usize) && after == taken(before, id)
    } else {
        step == Find::Join(
            id as usize,
            Call::ThreadJoin { thread: before[id].thread.0, timeout: Timeout(K_NO_WAIT) },
        ) && after == before
    }
}

/// The call that creates a thread of a pool.
pub open spec fn create<T>(
    thread: ThreadData<T>,
    stack: Addr,
    size: usize,
    entry: Addr,
    priority: i32,
    delay: Timeout,
) -> Call {
    Call::ThreadCreate(
        ThreadArgs {
            thread: thread.thread.0,
            stack,
            stack_size: size,
            entry,
            args: (thread.init_addr, 0, 0),
            priority,
            options: 0,
            delay,
        },
    )
}

impl<T> ThreadData<T> {
    /// A thread that was never taken, with its object at `thread` and its arguments at `init_addr`.
    pub fn new(thread: Addr, init_addr: Addr) -> (r: ThreadData<T>)
        ensures
            r.init.0 is None,
            r.init_addr == init_addr,
            r.state == ThreadState::Init,
            r.thread.0 == thread,
    {
        ThreadData {
            init: InitData::new(),
            init_addr,
            state: ThreadState::Init,
            thread: Thread::new(thread),
        }
    }

    /// Take a thread that was never taken, and start it at once.
    pub fn acquire_old<const SIZE: usize>(
        &mut self,
        args: T,
        stack: &ThreadStack<SIZE>,
        entry: Addr,
    ) -> (call: Call)
        requires
            old(self).state == ThreadState::Init,
        ensures
            *final(self) == (ThreadData {
                init: InitData(Some(args)),
                state: ThreadState::Allocated,
                ..*old(self)
            }),
            call == create(*old(self), stack.data, SIZE, entry, 0, Timeout(K_NO_WAIT)),
    {
        self.state = ThreadState::Allocated;
        self.init = InitData(Some(args));
        Call::ThreadCreate(
            ThreadArgs {
                thread: self.thread.0,
                stack: stack.data,
                stack_size: stack.size(),
                entry,
                args: (self.init_addr, 0, 0),
                priority: 0,
                options: 0,
                delay: Timeout(K_NO_WAIT),
            },
        )
    }

    /// Take a thread from a pool: the search for one.
    pub fn acquire(pool: &mut Vec<ThreadData<T>>) -> (step: Find)
        ensures
            find_step(old(pool)@, final(pool)@, 0, step),
    {
        Self::find_thread(pool, 0)
    }

    /// Search a pool from the thread at `from` on.
    pub fn find_thread(pool: &mut Vec<ThreadData<T>>, from: usize) -> (step: Find)
        requires
            from <= old(pool)@.len(),
        ensures
            find_step(old(pool)@, final(pool)@, from as int, step),
    {
        let mut id: usize = from;
        while id < pool.len()
            invariant
                pool@ == old(pool)@,
                from <= id <= pool@.len(),
                candidate(states(pool@), from as int) == candidate(states(pool@), id as int),
            decreases pool@.len() - id,
        {
            assert(states(pool@)[id as int] == pool@[id as int].state);
            match pool[id].state {
                ThreadState::Init => {
                    pool[id].state = ThreadState::Allocated;
                    assert(pool@ =~= taken(old(pool)@, id as int));
                    return Find::Found(id);
                },
                ThreadState::Allocated => {},
                ThreadState::Running => {
                    return Find::Join(
                        id,
                        Call::ThreadJoin {
                            thread: pool[id].thread.0,
                            timeout: Timeout(K_NO_WAIT),
                        },
                    );
                },
            }
            id = id + 1;
        }
        Find::Exhausted
    }

    /// The thread at `id` was joined if `code` is zero: it exited, and is taken.  Otherwise the
    /// search goes on behind it.
    pub fn find_thread_joined(pool: &mut Vec<ThreadData<T>>, id: usize, code: i32) -> (step: Find)
        requires
            id < old(pool)@.len(),
        ensures
            if code == 0 {
                step == Find::Found(id) && final(pool)@ == taken(old(pool)@, id as int)
            } else {
                find_step(old(pool)@, final(pool)@, id + 1, step)
            },
    {
        if code == 0 {
            pool[id].state = ThreadState::Allocated;
            assert(pool@ =~= taken(old(pool)@, id as int));
            return Find::Found(id);
        }
        let count: usize = pool.len();
        assert(id < count);
        Self::find_thread(pool, id + 1)
    }

    /// The thread at `id` was taken: give it its arguments, and create it without starting it.
    pub fn acquire_found<const SIZE: usize>(
        pool: &mut Vec<ThreadData<T>>,
        stacks: &Vec<ThreadStack<SIZE>>,
        id: usize,
        args: T,
        entry: Addr,
        priority: i32,
    ) -> (call: Call)
        requires
            id < old(pool)@.len(),
            id < stacks@.len(),
        ensures
            final(pool)@ == old(pool)@.update(
                id as int,
                ThreadData { init: InitData(Some(args)), ..old(pool)@[id as int] },
            ),
            call == create(
                old(pool)@[id as int],
                stacks@[id as int].data,
                SIZE,
                entry,
                priority,
                Timeout(K_FOREVER),
            ),
    {
        pool[id].init = InitData(Some(args));
        assert(pool@ =~= old(pool)@.update(
            id as int,
            ThreadData { init: InitData(Some(args)), ..old(pool)@[id as int] },
        ));
        Call::ThreadCreate(
            ThreadArgs {
                thread: pool[id].thread.0,
                stack: stacks[id].data,
                stack_size: SIZE,
                entry,
                args: (pool[id].init_addr, 0, 0),
                priority,
                options: 0,
                delay: Timeout(K_FOREVER),
            },
        )
    }

    /// The thread at `id` was created as `tid`: give it its name.
    pub fn acquire_created(id: usize, tid: Addr, name: Addr) -> (r: (ReadyThread, Call))
        ensures
            r.0 == (ReadyThread { id: tid, index: id }),
            r.1 == (Call::ThreadNameSet { thread: tid, name }),
    {
        (ReadyThread { id: tid, index: id }, Call::ThreadNameSet { thread: tid, name })
    }
}

/// A thread that was created, and not started.
#[derive(Clone, Copy, Debug, PartialEq, Eq, Structural)]
pub struct ReadyThread {
    /// The kernel's thread.
    pub id: Addr,
    /// Its index in the pool.
    pub index: usize,
}

impl ReadyThread {
    /// Change the priority of the thread.
    pub fn set_priority(&self, priority: i32) -> (call: Call)
        ensures
            call == (Call::ThreadPrioritySet { thread: self.id, priority }),
    {
        Call::ThreadPrioritySet { thread: self.id, priority }
    }

    /// Start the thread.
    pub fn start<T>(self, pool: &mut Vec<ThreadData<T>>) -> (r: (RunningThread, Call))
        requires
            self.index < old(pool)@.len(),
        ensures
            final(pool)@ == started(old(pool)@, self.index as int),
            r.0.id == self.id,
            r.1 == (Call::Wakeup { thread: self.id }),
    {
        let index: usize = self.index;
        pool[index].state = ThreadState::Running;
        assert(pool@ =~= started(old(pool)@, index as int));
        (RunningThread { id: self.id }, Call::Wakeup { thread: self.id })
    }
}

/// The pool after the thread at `id` was started.
pub open spec fn started<T>(pool: Seq<ThreadData<T>>, id: int) -> Seq<ThreadData<T>> {
    pool.update(id, ThreadData { state: ThreadState::Running, ..pool[id] })
}

/// A thread that was started.
#[derive(Clone, Copy, Debug, PartialEq, Eq, Structural)]
pub struct RunningThread {
    /// The kernel's thread.
    pub id: Addr,
}

impl RunningThread {
    /// Wait for the thread to exit.
    pub fn join(&self) -> (call: Call)
        ensures
            call == (Call::ThreadJoin { thread: self.id, timeout: Timeout(K_FOREVER) }),
    {
        Call::ThreadJoin { thread: self.id, timeout: Timeout(K_FOREVER) }
    }
}

/// Whether a thread can be taken; `exited` says whether it exited.
pub open spec fn available(state: ThreadState, exited: bool) -> bool {
    match state {
        ThreadState::Init => true,
        ThreadState::Allocated => false,
        ThreadState::Running => exited,
    }
}

/// The thread that a search from `from` on takes, or the number of threads.  It goes from candidate
/// to candidate; `exited` says of each thread whether it exited.
pub open spec fn search(states: Seq<ThreadState>, exited: Seq<bool>, from: int) -> int
    decreases states.len() - from, 1int,
{
    let id = candidate(states, from);
    if id >= states.len() || id < from {
        states.len() as int
    } else if states[id] == ThreadState::Init || exited[id] {
        id
    } else {
        search(states, exited, id + 1)
    }
}

proof fn lemma_candidate(states: Seq<ThreadState>, from: int)
    requires
        0 <= from <= states.len(),
    ensures
        from <= candidate(states, from) <= states.len(),
        forall|i: int|
            from <= i < candidate(states, from) ==> #[trigger] states[i] == ThreadState::Allocated,
        candidate(states, from) < states.len() ==> states[candidate(states, from)]
            != ThreadState::Allocated,
    decreases states.len() - from,
{
    if from < states.len() && states[from] == ThreadState::Allocated {
        lemma_candidate(states, from + 1);
    }
}

/// A search takes the first thread that can be taken, and fails only where there is none.
pub proof fn law_search_takes_first_available(
    states: Seq<ThreadState>,
    exited: Seq<bool>,
    from: int,
)
    requires
        0 <= from <= states.len(),
        exited.len() == states.len(),
    ensures
        from <= search(states, exited, from) <= states.len(),
        forall|i: int|
            from <= i < search(states, exited, from) ==> !available(
                #[trigger] states[i],
                exited[i],
            ),
        search(states, exited, from) < states.len() ==> available(
            states[search(states, exited, from)],
            exited[search(states, exited, from)],
        ),
    decreases states.len() - from,
{
    lemma_candidate(states, from);
    let id = candidate(states, from);
    if id < states.len() && !(states[id] == ThreadState::Init || exited[id]) {
        law_search_takes_first_available(states, exited, id + 1);
    }
}

/// A step of the search goes where [`search`] goes; `exited` says of each thread whether it exited.
/// Where the step found a thread, that is the one.  Where it asks whether a thread exited, that is
/// the one if so, and otherwise the one that the search behind it takes.  Where it found none,
/// there is none.
pub proof fn law_find_step_is_search<T>(
    before: Seq<ThreadData<T>>,
    after: Seq<ThreadData<T>>,
    exited: Seq<bool>,
    from: int,
    step: Find,
)
    requires
        before.len() <= usize::MAX,
        0 <= from <= before.len(),
        exited.len() == before.len(),
        find_step(before, after, from, step),
    ensures
        ({
            let found = search(states(before), exited, from);
            match step {
                Find::Found(id) => {
                    &&& found == id
                    &&& id < before.len()
                    &&& after == taken(before, id as int)
                },
                Find::Join(id, _) => {
                    &&& from <= id < before.len()
                    &&& found == if exited[id as int] {
                        id as int
                    } else {
                        search(states(before), exited, id + 1)
                    }
                    &&& after == before
                },
                Find::Exhausted => found == before.len() && after == before,
            }
        }),
{
    lemma_candidate(states(before), from);
}

/// A thread that was taken is not taken again before it was started, and then only after it exited.
pub proof fn law_thread_reused_after_exit<T>(pool: Seq<ThreadData<T>>, id: int, exited: bool)
    requires
        0 <= id < pool.len(),
    ensures
        !available(taken(pool, id)[id].state, exited),
        available(started(taken(pool, id), id)[id].state, exited) <==> exited,
{
}

/// What a step of the search does, thread by thread.  A thread that was found was never taken
/// before, and is taken now.  A thread that is asked after is one that runs; whether it exited is
/// asked without waiting, and nothing changes.  All threads that were passed over are taken and not
/// started.
pub proof fn law_search_step<T>(
    pool: &mut Vec<ThreadData<T>>,
    from: usize,
    step: Find,
)
    requires
        from <= old(pool)@.len() <= usize::MAX,
        call_ensures(ThreadData::<T>::find_thread, (pool, from), step),
    ensures
        final(pool)@.len() == old(pool)@.len(),
        match step {
            Find::Found(id) => {
                &&& from <= id < old(pool)@.len()
                &&& old(pool)@[id as int].state == ThreadState::Init
                &&& final(pool)@[id as int].state == ThreadState::Allocated
                &&& final(pool)@[id as int].thread == old(pool)@[id as int].thread
                &&& final(pool)@[id as int].init == old(pool)@[id as int].init
                &&& forall|j: int|
                    from <= j < id ==> (#[trigger] old(pool)@[j]).state == ThreadState::Allocated
                &&& forall|j: int|
                    0 <= j < old(pool)@.len() && j != id ==> #[trigger] final(pool)@[j]
                        == old(pool)@[j]
            },
            Find::Join(id, call) => {
                &&& from <= id < old(pool)@.len()
                &&& old(pool)@[id as int].state == ThreadState::Running
                &&& call == (Call::ThreadJoin {
                    thread: old(pool)@[id as int].thread.0,
                    timeout: Timeout(0),
                })
                &&& forall|j: int|
                    from <= j < id ==> (#[trigger] old(pool)@[j]).state == ThreadState::Allocated
                &&& final(pool)@ == old(pool)@
            },
            Find::Exhausted => {
                &&& forall|j: int|
                    from <= j < old(pool)@.len() ==> (#[trigger] old(pool)@[j]).state
                        == ThreadState::Allocated
                &&& final(pool)@ == old(pool)@
            },
        },
{
    let before = old(pool)@;
    lemma_candidate(states(before), from as int);
    assert forall|j: int| 0 <= j < before.len() implies (#[trigger] before[j]).state == states(
        before,
    )[j] by {}
}

/// A thread that exited is taken; one that did not is passed over, and the search goes on behind it
/// as if it started there.  A search for a thread starts at the first.
pub proof fn law_search_goes_on<T>(
    pool: &mut Vec<ThreadData<T>>,
    id: usize,
    code: i32,
    step: Find,
    whole: &mut Vec<ThreadData<T>>,
    first: Find,
)
    requires
        id < old(pool)@.len(),
        old(pool)@.len() <= usize::MAX,
        call_ensures(ThreadData::<T>::find_thread_joined, (pool, id, code), step),
        call_ensures(ThreadData::<T>::acquire, (whole,), first),
    ensures
        code == 0 ==> {
            &&& step matches Find::Found(got) && got == id
            &&& final(pool)@[id as int].state == ThreadState::Allocated
            &&& forall|j: int|
                0 <= j < old(pool)@.len() && j != id ==> #[trigger] final(pool)@[j]
                    == old(pool)@[j]
        },
        code != 0 ==> match step {
            Find::Found(got) => {
                &&& id < got < old(pool)@.len()
                &&& old(pool)@[got as int].state == ThreadState::Init
                &&& final(pool)@[got as int].state == ThreadState::Allocated
                &&& final(pool)@[id as int] == old(pool)@[id as int]
            },
            Find::Join(got, call) => {
                &&& id < got < old(pool)@.len()
                &&& old(pool)@[got as int].state == ThreadState::Running
                &&& call == (Call::ThreadJoin {
                    thread: old(pool)@[got as int].thread.0,
                    timeout: Timeout(0),
                })
                &&& final(pool)@ == old(pool)@
            },
            Find::Exhausted => {
                &&& forall|j: int|
                    id < j < old(pool)@.len() ==> (#[trigger] old(pool)@[j]).state
                        == ThreadState::Allocated
                &&& final(pool)@ == old(pool)@
            },
        },
        old(whole)@.len() <= usize::MAX ==> match first {
            Find::Found(got) => got < old(whole)@.len() && old(whole)@[got as int].state
                == ThreadState::Init && forall|j: int|
                0 <= j < got ==> (#[trigger] old(whole)@[j]).state == ThreadState::Allocated,
            Find::Join(got, _) => got < old(whole)@.len() && old(whole)@[got as int].state
                == ThreadState::Running && forall|j: int|
                0 <= j < got ==> (#[trigger] old(whole)@[j]).state == ThreadState::Allocated,
            Find::Exhausted => forall|j: int|
                0 <= j < old(whole)@.len() ==> (#[trigger] old(whole)@[j]).state
                    == ThreadState::Allocated,
        },
{
    let before = old(pool)@;
    lemma_candidate(states(before), id + 1);
    assert forall|j: int| 0 <= j < before.len() implies (#[trigger] before[j]).state == states(
        before,
    )[j] by {}
    let all = old(whole)@;
    lemma_candidate(states(all), 0);
    assert forall|j: int| 0 <= j < all.len() implies (#[trigger] all[j]).state == states(
        all,
    )[j] by {}
}

/// A thread is created on its own object, on the stack that goes with it, to run its entry on its
/// arguments: at once and with priority zero in the older form, and otherwise with the priority
/// that was given, not before it is started.  Starting it wakes it.
pub proof fn law_thread_is_created<T, const SIZE: usize>(
    old_form: &mut ThreadData<T>,
    args: T,
    stack: ThreadStack<SIZE>,
    entry: Addr,
    at_once: Call,
    pool: &mut Vec<ThreadData<T>>,
    stacks: Vec<ThreadStack<SIZE>>,
    id: usize,
    priority: i32,
    later: Call,
    ready: ReadyThread,
    starting: &mut Vec<ThreadData<T>>,
    running: (RunningThread, Call),
)
    requires
        call_ensures(
            ThreadData::<T>::acquire_old::<SIZE>,
            (old_form, args, &stack, entry),
            at_once,
        ),
        call_ensures(
            ThreadData::<T>::acquire_found::<SIZE>,
            (pool, &stacks, id, args, entry, priority),
            later,
        ),
        call_ensures(ReadyThread::start::<T>, (ready, starting), running),
        id < old(pool)@.len(),
        id < stacks@.len(),
        ready.index < old(starting)@.len(),
    ensures
        at_once == Call::ThreadCreate(
            ThreadArgs {
                thread: old(old_form).thread.0,
                stack: stack.data,
                stack_size: SIZE,
                entry,
                args: (old(old_form).init_addr, 0, 0),
                priority: 0,
                options: 0,
                delay: Timeout(0),
            },
        ),
        final(old_form).init.0 == Some(args),
        final(old_form).state == ThreadState::Allocated,
        later == Call::ThreadCreate(
            ThreadArgs {
                thread: old(pool)@[id as int].thread.0,
                stack: stacks@[id as int].data,
                stack_size: SIZE,
                entry,
                args: (old(pool)@[id as int].init_addr, 0, 0),
                priority,
                options: 0,
                delay: Timeout(-1i64),
            },
        ),
        final(pool)@[id as int].init.0 == Some(args),
        final(starting)@[ready.index as int].state == ThreadState::Running,
        running.0.id == ready.id,
        running.1 == (Call::Wakeup { thread: ready.id }),
{
}

/// Taking a thread changes nothing but its state, and so does starting it; no other thread of the
/// pool changes.
pub proof fn law_only_state_changes<T>(
    finding: &mut Vec<ThreadData<T>>,
    from: usize,
    found: usize,
    joining: &mut Vec<ThreadData<T>>,
    id: usize,
    joined: Find,
    ready: ReadyThread,
    starting: &mut Vec<ThreadData<T>>,
    running: (RunningThread, Call),
    j: int,
)
    requires
        from <= old(finding)@.len() <= usize::MAX,
        call_ensures(ThreadData::<T>::find_thread, (finding, from), Find::Found(found)),
        id < old(joining)@.len(),
        call_ensures(ThreadData::<T>::find_thread_joined, (joining, id, 0i32), joined),
        ready.index < old(starting)@.len(),
        call_ensures(ReadyThread::start::<T>, (ready, starting), running),
    ensures
        final(finding)@.len() == old(finding)@.len(),
        0 <= j < old(finding)@.len() ==> {
            let before = old(finding)@[j];
            let after = final(finding)@[j];
            &&& after.init == before.init && after.init_addr == before.init_addr
            &&& after.thread == before.thread
            &&& after.state == if j == found {
                ThreadState::Allocated
            } else {
                before.state
            }
        },
        final(joining)@.len() == old(joining)@.len(),
        0 <= j < old(joining)@.len() ==> {
            let before = old(joining)@[j];
            let after = final(joining)@[j];
            &&& after.init == before.init && after.init_addr == before.init_addr
            &&& after.thread == before.thread
            &&& after.state == if j == id {
                ThreadState::Allocated
            } else {
                before.state
            }
        },
        final(starting)@.len() == old(starting)@.len(),
        0 <= j < old(starting)@.len() ==> {
            let before = old(starting)@[j];
            let after = final(starting)@[j];
            &&& after.init == before.init && after.init_addr == before.init_addr
            &&& after.thread == before.thread
            &&& after.state == if j == ready.index {
                ThreadState::Running
            } else {
                before.state
            }
        },
{
    lemma_candidate(states(old(finding)@), from as int);
}

} // verus!
