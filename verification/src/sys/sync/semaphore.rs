//! Counting semaphores.
use crate::error::{to_result_void, void_result_of, Error};
use crate::object::{ObjectInit, ZephyrObject};
use crate::raw::{Addr, Call};
use crate::time::Timeout;
use vstd::prelude::*;

verus! {

/// What the kernel's `k_sem` is initialised with.
pub struct KSem {
    /// The count that the semaphore starts with.
    pub count: u32,
    /// The largest count that the semaphore can have.
    pub limit: u32,
}

impl ObjectInit for KSem {
    open spec fn init_calls(&self, addr: Addr) -> Seq<Call> {
        seq![Call::SemInit { sem: addr, initial_count: self.count, limit: self.limit }]
    }

    fn init(&self, addr: Addr) -> (calls: Vec<Call>) {
        vec![Call::SemInit { sem: addr, initial_count: self.count, limit: self.limit }]
    }
}

/// A counting semaphore.
pub struct Semaphore(pub ZephyrObject<KSem>);

impl Semaphore {
    /// Whether the kernel accepts the values that the semaphore is initialised with.
    pub open spec fn wf(self) -> bool {
        valid_semaphore(self.0.object.count, self.0.object.limit)
    }

    /// A semaphore with a count of `initial_count`, which never grows above `limit`.
    pub fn new(initial_count: u32, limit: u32) -> (r: Semaphore)
        requires
            valid_semaphore(initial_count, limit),
        ensures
            r.wf(),
            r.0.state == 0,
            r.0.object.count == initial_count,
            r.0.object.limit == limit,
    {
        Semaphore(ZephyrObject::new_raw(KSem { count: initial_count, limit }))
    }

    /// Take the semaphore, which is at `addr`, waiting up to `timeout` for its count to be above
    /// zero.  `take_done` reads the answer.
    pub fn take(&mut self, addr: Addr, timeout: Timeout) -> (calls: Vec<Call>)
        requires
            old(self).wf(),
            old(self).0.usable(addr),
        ensures
            final(self).wf(),
            calls@ == old(self).0.get_calls(addr).push(Call::SemTake { sem: addr, timeout }),
            final(self).0 == old(self).0.after_get(addr),
    {
        let mut calls = self.0.get(addr);
        calls.push(Call::SemTake { sem: addr, timeout });
        calls
    }

    /// Whether the semaphore was taken, from the kernel's answer.
    pub fn take_done(code: i32) -> (r: Result<(), Error>)
        ensures
            r == void_result_of(code),
    {
        to_result_void(code)
    }

    /// Give the semaphore, which is at `addr`.
    pub fn give(&mut self, addr: Addr) -> (calls: Vec<Call>)
        requires
            old(self).wf(),
            old(self).0.usable(addr),
        ensures
            final(self).wf(),
            calls@ == old(self).0.get_calls(addr).push(Call::SemGive { sem: addr }),
            final(self).0 == old(self).0.after_get(addr),
    {
        let mut calls = self.0.get(addr);
        calls.push(Call::SemGive { sem: addr });
        calls
    }

    /// Set the count of the semaphore, which is at `addr`, to zero, and fail all pending takes.
    pub fn reset(&mut self, addr: Addr) -> (calls: Vec<Call>)
        requires
            old(self).wf(),
            old(self).0.usable(addr),
        ensures
            final(self).wf(),
            calls@ == old(self).0.get_calls(addr).push(Call::SemReset { sem: addr }),
            final(self).0 == old(self).0.after_get(addr),
    {
        let mut calls = self.0.get(addr);
        calls.push(Call::SemReset { sem: addr });
        calls
    }

    /// Ask for the count of the semaphore, which is at `addr`.
    pub fn count_get(&mut self, addr: Addr) -> (calls: Vec<Call>)
        requires
            old(self).wf(),
            old(self).0.usable(addr),
        ensures
            final(self).wf(),
            calls@ == old(self).0.get_calls(addr).push(Call::SemCountGet { sem: addr }),
            final(self).0 == old(self).0.after_get(addr),
    {
        let mut calls = self.0.get(addr);
        calls.push(Call::SemCountGet { sem: addr });
        calls
    }

    /// The count of the semaphore, from the kernel's answer.
    pub fn count_get_done(count: u32) -> (r: usize)
        ensures
            r == count,
    {
        count as usize
    }

    /// The semaphore as text.
    pub fn to_debug_string(&self) -> (r: &'static str)
        ensures
            r@ == "sys::Semaphore"@,
    {
        "sys::Semaphore"
    }
}

/// Whether the kernel accepts a semaphore with this initial count and limit.
pub open spec fn valid_semaphore(initial_count: u32, limit: u32) -> bool {
    limit != 0 && initial_count <= limit
}

/// The count of a semaphore in the kernel.
pub struct SemCount {
    /// The count.
    pub count: nat,
    /// The largest count that it can have.
    pub limit: nat,
}

impl SemCount {
    /// How the kernel counts: the semaphore at `sem` after a call, of which `ok` says whether it
    /// succeeded.  A give at the limit is discarded.  A take that succeeds lowers the count, which
    /// then is not zero.
    pub open spec fn after(self, sem: Addr, call: Call, ok: bool) -> SemCount {
        match call {
            Call::SemInit { sem: at, initial_count, limit } => if at == sem {
                SemCount { count: initial_count as nat, limit: limit as nat }
            } else {
                self
            },
            Call::SemGive { sem: at } => if at == sem && self.count < self.limit {
                SemCount { count: self.count + 1, ..self }
            } else {
                self
            },
            Call::SemTake { sem: at, .. } => if at == sem && ok && self.count > 0 {
                SemCount { count: (self.count - 1) as nat, ..self }
            } else {
                self
            },
            Call::SemReset { sem: at } => if at == sem {
                SemCount { count: 0, ..self }
            } else {
                self
            },
            _ => self,
        }
    }

    /// The semaphore at `sem` after calls.
    pub open spec fn after_all(self, sem: Addr, calls: Seq<Call>, ok: Seq<bool>) -> SemCount
        decreases calls.len(),
    {
        if calls.len() == 0 {
            self
        } else {
            self.after_all(sem, calls.drop_last(), ok).after(
                sem,
                calls.last(),
                ok[calls.len() - 1],
            )
        }
    }
}

/// A semaphore starts with the count that it was made with: what its first use does before anything
/// else sets that count and the limit, whatever was there before.
pub proof fn law_sem_starts_with_count(
    sem: Semaphore,
    addr: Addr,
    before: SemCount,
    ok: Seq<bool>,
)
    requires
        sem.wf(),
        sem.0.state == 0,
    ensures
        before.after_all(addr, sem.0.get_calls(addr), ok) == (SemCount {
            count: sem.0.object.count as nat,
            limit: sem.0.object.limit as nat,
        }),
{
    let calls = sem.0.get_calls(addr);
    assert(calls.len() == 1);
    assert(before.after_all(addr, calls.drop_last(), ok) == before);
}

/// The count of a semaphore never exceeds its limit, whatever calls are made after its
/// initialisation, of which there is one.
pub proof fn law_sem_count_within_limit(
    count: SemCount,
    addr: Addr,
    calls: Seq<Call>,
    ok: Seq<bool>,
)
    requires
        count.count <= count.limit,
        forall|i: int| 0 <= i < calls.len() ==> !((#[trigger] calls[i]) is SemInit),
    ensures
        count.after_all(addr, calls, ok).count <= count.limit,
        count.after_all(addr, calls, ok).limit == count.limit,
    decreases calls.len(),
{
    if calls.len() > 0 {
        let init = calls.drop_last();
        assert forall|i: int| 0 <= i < init.len() implies !((#[trigger] init[i]) is SemInit) by {
            assert(init[i] == calls[i]);
        }
        law_sem_count_within_limit(count, addr, init, ok);
        assert(!(calls[calls.len() - 1] is SemInit));
    }
}

/// Gives without takes raise the count one by one up to the limit, and no further.
pub proof fn law_sem_gives_stop_at_limit(
    count: SemCount,
    addr: Addr,
    calls: Seq<Call>,
    ok: Seq<bool>,
)
    requires
        count.count <= count.limit,
        forall|i: int|
            0 <= i < calls.len() ==> (#[trigger] calls[i]) == (Call::SemGive { sem: addr }),
    ensures
        count.after_all(addr, calls, ok).limit == count.limit,
        count.after_all(addr, calls, ok).count == if count.count + calls.len() < count.limit {
            count.count + calls.len()
        } else {
            count.limit
        },
    decreases calls.len(),
{
    if calls.len() > 0 {
        let init = calls.drop_last();
        assert forall|i: int| 0 <= i < init.len() implies (#[trigger] init[i]) == (Call::SemGive {
            sem: addr,
        }) by {
            assert(init[i] == calls[i]);
        }
        law_sem_gives_stop_at_limit(count, addr, init, ok);
        assert(calls[calls.len() - 1] == (Call::SemGive { sem: addr }));
    }
}

/// Every operation is one call on the semaphore, with the timeout that was given.  Where the
/// semaphore was not used yet, its initialisation comes before that, with the count and the limit
/// that it was made with.
pub proof fn law_operations_are_calls(
    count: u32,
    limit: u32,
    new: Semaphore,
    sem: &mut Semaphore,
    addr: Addr,
    timeout: Timeout,
    calls: Vec<Call>,
)
    requires
        limit != 0,
        count <= limit,
        call_ensures(Semaphore::new, (count, limit), new),
        addr != 0,
        *old(sem) == new || (old(sem).0.state == addr && old(sem).0.object == new.0.object),
    ensures
        ({
            let init = if *old(sem) == new {
                seq![Call::SemInit { sem: addr, initial_count: count, limit }]
            } else {
                Seq::<Call>::empty()
            };
            &&& new.0.state == 0
            &&& call_ensures(Semaphore::take, (sem, addr, timeout), calls) ==> calls@ == init.push(
                Call::SemTake { sem: addr, timeout },
            ) && final(sem).0.state == addr && final(sem).0.object == old(sem).0.object
            &&& call_ensures(Semaphore::give, (sem, addr), calls) ==> calls@ == init.push(
                Call::SemGive { sem: addr },
            ) && final(sem).0.state == addr && final(sem).0.object == old(sem).0.object
            &&& call_ensures(Semaphore::reset, (sem, addr), calls) ==> calls@ == init.push(
                Call::SemReset { sem: addr },
            ) && final(sem).0.state == addr && final(sem).0.object == old(sem).0.object
            &&& call_ensures(Semaphore::count_get, (sem, addr), calls) ==> calls@ == init.push(
                Call::SemCountGet { sem: addr },
            ) && final(sem).0.state == addr && final(sem).0.object == old(sem).0.object
        }),
{
}

/// A take succeeds where the kernel does not answer with a negative number, and else fails with
/// that number made positive.  The count is the one that the kernel tells.
pub proof fn law_answers_of_kernel(
    code: i32,
    taken: Result<(), Error>,
    count: u32,
    told: usize,
)
    requires
        call_ensures(Semaphore::take_done, (code,), taken),
        call_ensures(Semaphore::count_get_done, (count,), told),
    ensures
        code >= 0 ==> taken is Ok,
        code < 0 ==> (taken matches Err(e) && e.0 == -code),
        told == count,
{
}

} // verus!
