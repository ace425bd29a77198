//! The kernel's mutexes and condition variables.
use crate::error::{to_result_void, void_result_of, Error};
use crate::object::{StaticKernelObject, Wrapped};
use crate::raw::{Addr, Call};
use crate::sys::K_FOREVER;
use crate::text::{hex, name_and_addr};
use crate::time::Timeout;
use vstd::prelude::*;

verus! {

/// The kernel's `k_mutex`, which holds nothing of this library.
pub struct KMutex;

/// The kernel's `k_condvar`, which holds nothing of this library.
pub struct KCondvar;

/// A mutex.  A thread that locked it may lock it again, and unlocks it as often.
#[derive(Clone, Copy, Debug, PartialEq, Eq, Structural)]
pub struct Mutex {
    /// The kernel's mutex.
    pub item: Addr,
}

impl Mutex {
    /// Lock the mutex, waiting up to `timeout`.
    pub fn lock(&self, timeout: Timeout) -> (call: Call)
        ensures
            call == (Call::MutexLock { mutex: self.item, timeout }),
    {
        Call::MutexLock { mutex: self.item, timeout }
    }

    /// Whether the mutex was locked.
    pub fn lock_done(code: i32) -> (r: Result<(), Error>)
        ensures
            r == void_result_of(code),
    {
        to_result_void(code)
    }

    /// Unlock the mutex.
    pub fn unlock(&self) -> (call: Call)
        ensures
            call == (Call::MutexUnlock { mutex: self.item }),
    {
        Call::MutexUnlock { mutex: self.item }
    }

    /// Whether the mutex was unlocked.
    pub fn unlock_done(code: i32) -> (r: Result<(), Error>)
        ensures
            r == void_result_of(code),
    {
        to_result_void(code)
    }

    /// The mutex as text.
    pub fn to_debug_string(&self) -> (r: String)
        ensures
            r@ == "sys::Mutex 0x"@ + hex(self.item as nat),
    {
        name_and_addr("sys::Mutex 0x", self.item)
    }
}

/// A static mutex.
pub type StaticMutex = StaticKernelObject<KMutex>;

impl Wrapped for StaticKernelObject<KMutex> {
    type T = Mutex;

    type I = ();

    open spec fn wrapped(&self, addr: Addr, args: ()) -> Mutex {
        Mutex { item: addr }
    }

    open spec fn wrapped_calls(&self, addr: Addr, args: ()) -> Seq<Call> {
        seq![Call::MutexInit { mutex: addr }]
    }

    fn get_wrapped(&self, addr: Addr, args: ()) -> (r: (Mutex, Vec<Call>)) {
        (Mutex { item: addr }, vec![Call::MutexInit { mutex: addr }])
    }
}

/// A condition variable.
#[derive(Clone, Copy, Debug, PartialEq, Eq, Structural)]
pub struct Condvar {
    /// The kernel's condition variable.
    pub item: Addr,
}

/// A static condition variable.
pub type StaticCondvar = StaticKernelObject<KCondvar>;

impl Condvar {
    /// Unlock `lock`, wait for a notification, and lock it again.
    pub fn wait(&self, lock: &Mutex) -> (call: Call)
        ensures
            call == (Call::CondvarWait {
                condvar: self.item,
                mutex: lock.item,
                timeout: Timeout(K_FOREVER),
            }),
    {
        Call::CondvarWait { condvar: self.item, mutex: lock.item, timeout: Timeout(K_FOREVER) }
    }

    /// Wake one thread that waits.
    pub fn notify_one(&self) -> (call: Call)
        ensures
            call == (Call::CondvarSignal { condvar: self.item }),
    {
        Call::CondvarSignal { condvar: self.item }
    }

    /// Wake all threads that wait.
    pub fn notify_all(&self) -> (call: Call)
        ensures
            call == (Call::CondvarBroadcast { condvar: self.item }),
    {
        Call::CondvarBroadcast { condvar: self.item }
    }

    /// The condition variable as text.
    pub fn to_debug_string(&self) -> (r: String)
        ensures
            r@ == "sys::Condvar 0x"@ + hex(self.item as nat),
    {
        name_and_addr("sys::Condvar 0x", self.item)
    }
}

impl Wrapped for StaticKernelObject<KCondvar> {
    type T = Condvar;

    type I = ();

    open spec fn wrapped(&self, addr: Addr, args: ()) -> Condvar {
        Condvar { item: addr }
    }

    open spec fn wrapped_calls(&self, addr: Addr, args: ()) -> Seq<Call> {
        seq![Call::CondvarInit { condvar: addr }]
    }

    fn get_wrapped(&self, addr: Addr, args: ()) -> (r: (Condvar, Vec<Call>)) {
        (Condvar { item: addr }, vec![Call::CondvarInit { condvar: addr }])
    }
}

/// A static mutex and a static condition variable are initialised where they are, and are used
/// there.
pub proof fn law_static_objects(
    mutex: &mut StaticKernelObject<KMutex>,
    at: Addr,
    m: Option<(Mutex, Vec<Call>)>,
    condvar: &mut StaticKernelObject<KCondvar>,
    c: Option<(Condvar, Vec<Call>)>,
)
    requires
        old(mutex).init == 0,
        call_ensures(StaticKernelObject::<KMutex>::init_once, (mutex, at, ()), m),
        old(condvar).init == 0,
        call_ensures(StaticKernelObject::<KCondvar>::init_once, (condvar, at, ()), c),
    ensures
        m matches Some((lock, calls)) && lock.item == at && calls@ == seq![
            Call::MutexInit { mutex: at },
        ],
        c matches Some((cv, calls)) && cv.item == at && calls@ == seq![
            Call::CondvarInit { condvar: at },
        ],
{
}

/// A mutex is locked with the timeout that is given, and unlocked, where it is.  Either succeeds
/// where the kernel does not answer with a negative number, and else fails with that number made
/// positive.
pub proof fn law_mutex_calls(
    mutex: Mutex,
    timeout: Timeout,
    lock: Call,
    unlock: Call,
    code: i32,
    locked: Result<(), Error>,
    unlocked: Result<(), Error>,
)
    requires
        call_ensures(Mutex::lock, (&mutex, timeout), lock),
        call_ensures(Mutex::unlock, (&mutex,), unlock),
        call_ensures(Mutex::lock_done, (code,), locked),
        call_ensures(Mutex::unlock_done, (code,), unlocked),
    ensures
        lock == (Call::MutexLock { mutex: mutex.item, timeout }),
        unlock == (Call::MutexUnlock { mutex: mutex.item }),
        code >= 0 ==> locked is Ok && unlocked is Ok,
        code < 0 ==> (locked matches Err(e) && e.0 == -code) && (unlocked matches Err(f) && f.0
            == -code),
{
}

/// A condition variable waits without a limit, with the mutex that is given, and is notified where
/// it is.
pub proof fn law_condvar_calls(
    condvar: Condvar,
    lock: Mutex,
    wait: Call,
    one: Call,
    all: Call,
)
    requires
        call_ensures(Condvar::wait, (&condvar, &lock), wait),
        call_ensures(Condvar::notify_one, (&condvar,), one),
        call_ensures(Condvar::notify_all, (&condvar,), all),
    ensures
        wait == (Call::CondvarWait {
            condvar: condvar.item,
            mutex: lock.item,
            timeout: Timeout(-1i64),
        }),
        one == (Call::CondvarSignal { condvar: condvar.item }),
        all == (Call::CondvarBroadcast { condvar: condvar.item }),
{
}

} // verus!
