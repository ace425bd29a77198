//! An embassy executor that sleeps on a semaphore.
use crate::object::ZephyrObject;
use crate::raw::{Addr, Call};
use crate::sys::sync::semaphore::{KSem, Semaphore};
use crate::sys::K_FOREVER;
use crate::time::Timeout;
use vstd::prelude::*;

verus! {

/// The sleep of an executor.  Between two polls it waits for the semaphore, which is given whenever
/// a task is to be polled.
pub struct Executor {
    /// Given when there is something to poll.
    pub poll_needed: Semaphore,
}

impl Executor {
    /// An executor with nothing to poll.
    pub fn new() -> (r: Executor)
        ensures
            r.poll_needed.wf(),
            r.poll_needed.0 == (ZephyrObject { state: 0, object: KSem { count: 0, limit: 1 } }),
    {
        Executor { poll_needed: Semaphore::new(0, 1) }
    }

    /// Wait until there is something to poll.  The answer is ignored.
    pub fn run(&mut self, addr: Addr) -> (calls: Vec<Call>)
        requires
            old(self).poll_needed.wf(),
            old(self).poll_needed.0.usable(addr),
        ensures
            final(self).poll_needed.wf(),
            final(self).poll_needed.0 == old(self).poll_needed.0.after_get(addr),
            calls@ == old(self).poll_needed.0.get_calls(addr).push(
                Call::SemTake { sem: addr, timeout: Timeout(K_FOREVER) },
            ),
    {
        self.poll_needed.take(addr, Timeout(K_FOREVER))
    }

    /// A task is to be polled.
    pub fn pender(&mut self, addr: Addr) -> (calls: Vec<Call>)
        requires
            old(self).poll_needed.wf(),
            old(self).poll_needed.0.usable(addr),
        ensures
            final(self).poll_needed.wf(),
            final(self).poll_needed.0 == old(self).poll_needed.0.after_get(addr),
            calls@ == old(self).poll_needed.0.get_calls(addr).push(Call::SemGive { sem: addr }),
    {
        self.poll_needed.give(addr)
    }
}

/// An executor waits without a limit on the semaphore that waking a task gives, and that semaphore
/// counts up to one: however often tasks are woken before, the executor goes on once.
pub proof fn law_executor_sleeps_on_semaphore(
    new: Executor,
    running: &mut Executor,
    woken: &mut Executor,
    addr: Addr,
    waits: Vec<Call>,
    wakes: Vec<Call>,
)
    requires
        addr != 0,
        call_ensures(Executor::new, (), new),
        *old(running) == new,
        call_ensures(Executor::run, (running, addr), waits),
        *old(woken) == *final(running),
        call_ensures(Executor::pender, (woken, addr), wakes),
    ensures
        waits@ == seq![
            Call::SemInit { sem: addr, initial_count: 0, limit: 1 },
            Call::SemTake { sem: addr, timeout: Timeout(-1i64) },
        ],
        wakes@ == seq![Call::SemGive { sem: addr }],
{
}

} // verus!
