//! A mutex that tasks of a work queue can wait for.
//!
//! The mutex is a semaphore with a count of one, as the kernel's mutex cannot be waited for by
//! triggered work.  It does not handle priority inversion.
use crate::error::void_result_of;
use crate::object::ZephyrObject;
use crate::raw::{Addr, Call};
use crate::sync::mutex::{LockResult, TryLockError, TryLockResult};
use crate::sys::sync::semaphore::{KSem, Semaphore};
use crate::sys::{K_FOREVER, K_NO_WAIT};
use crate::time::Timeout;
use vstd::prelude::*;

verus! {

/// A mutex that owns the data that it protects.
pub struct Mutex<T> {
    /// Its count is zero while the mutex is locked.
    pub inner: Semaphore,
    /// The data.
    pub data: T,
}

/// A claim to the data of a mutex that is locked.
pub struct MutexGuard {
    /// The address of the semaphore of the mutex.
    pub lock: Addr,
}

impl<T> Mutex<T> {
    /// A mutex that is not locked.
    pub fn new(t: T) -> (r: Mutex<T>)
        ensures
            r.inner.wf(),
            r.inner.0 == (ZephyrObject { state: 0, object: KSem { count: 1, limit: 1 } }),
            r.data == t,
    {
        Mutex { inner: Semaphore::new(1, 1), data: t }
    }

    /// Lock the mutex, whose semaphore is at `addr`, waiting for it.
    pub fn lock(&mut self, addr: Addr) -> (calls: Vec<Call>)
        requires
            old(self).inner.wf(),
            old(self).inner.0.usable(addr),
        ensures
            final(self).data == old(self).data,
            final(self).inner.wf(),
            final(self).inner.0 == old(self).inner.0.after_get(addr),
            calls@ == old(self).inner.0.get_calls(addr).push(
                Call::SemTake { sem: addr, timeout: Timeout(K_FOREVER) },
            ),
    {
        self.inner.take(addr, Timeout(K_FOREVER))
    }

    /// The guard of the mutex that was locked.
    pub fn lock_done(&self, addr: Addr, code: i32) -> (r: LockResult<MutexGuard>)
        requires
            void_result_of(code) is Ok,
        ensures
            r == Ok::<MutexGuard, ()>(MutexGuard { lock: addr }),
    {
        Ok(MutexGuard { lock: addr })
    }

    /// Lock the mutex if that needs no waiting.
    pub fn try_lock(&mut self, addr: Addr) -> (calls: Vec<Call>)
        requires
            old(self).inner.wf(),
            old(self).inner.0.usable(addr),
        ensures
            final(self).data == old(self).data,
            final(self).inner.wf(),
            final(self).inner.0 == old(self).inner.0.after_get(addr),
            calls@ == old(self).inner.0.get_calls(addr).push(
                Call::SemTake { sem: addr, timeout: Timeout(K_NO_WAIT) },
            ),
    {
        self.inner.take(addr, Timeout(K_NO_WAIT))
    }

    /// The guard, if the mutex was locked.
    pub fn try_lock_done(&self, addr: Addr, code: i32) -> (r: TryLockResult<MutexGuard>)
        ensures
            r == (match void_result_of(code) {
                Ok(()) => Ok::<MutexGuard, TryLockError>(MutexGuard { lock: addr }),
                Err(_) => Err(TryLockError::WouldBlock),
            }),
    {
        match Semaphore::take_done(code) {
            Ok(()) => Ok(MutexGuard { lock: addr }),
            Err(_) => Err(TryLockError::WouldBlock),
        }
    }

    /// The mutex as text.
    pub fn to_debug_string(&self) -> (r: &'static str)
        ensures
            r@ == "Mutex sys::Semaphore"@,
    {
        "Mutex sys::Semaphore"
    }
}

impl MutexGuard {
    /// Whether this is a guard of `mutex`.
    pub open spec fn guards<T>(self, mutex: Mutex<T>) -> bool {
        self.lock != 0 && mutex.inner.0.state == self.lock
    }

    /// The data of the mutex.
    pub fn deref<'a, T>(&self, mutex: &'a Mutex<T>) -> (data: &'a T)
        requires
            self.guards(*mutex),
        ensures
            *data == mutex.data,
    {
        &mutex.data
    }

    /// The data of the mutex, for writing.
    pub fn deref_mut<'a, T>(&self, mutex: &'a mut Mutex<T>) -> (data: &'a mut T)
        requires
            self.guards(*old(mutex)),
        ensures
            *data == old(mutex).data,
            final(mutex).data == *final(data),
            final(mutex).inner == old(mutex).inner,
    {
        &mut mutex.data
    }

    /// Give up the guard: unlock the mutex.
    pub fn drop<T>(self, mutex: &mut Mutex<T>) -> (calls: Vec<Call>)
        requires
            self.guards(*old(mutex)),
            old(mutex).inner.wf(),
        ensures
            final(mutex).data == old(mutex).data,
            final(mutex).inner.wf(),
            final(mutex).inner.0 == old(mutex).inner.0,
            calls@ == seq![Call::SemGive { sem: self.lock }],
    {
        let calls = mutex.inner.give(self.lock);
        assert(calls@ =~= seq![Call::SemGive { sem: self.lock }]);
        calls
    }
}

/// Locking and unlocking go round: a new mutex starts with one claim, which a lock takes, waiting
/// without a limit, and giving up the guard of that lock gives it back, once, to the same
/// semaphore.
pub proof fn law_lock_goes_round<T>(
    t: T,
    new: Mutex<T>,
    locking: &mut Mutex<T>,
    unlocking: &mut Mutex<T>,
    addr: Addr,
    lock: Vec<Call>,
    locked: Mutex<T>,
    code: i32,
    guard: LockResult<MutexGuard>,
    unlock: Vec<Call>,
)
    requires
        addr != 0,
        code >= 0,
        call_ensures(Mutex::<T>::new, (t,), new),
        *old(locking) == new,
        call_ensures(Mutex::<T>::lock, (locking, addr), lock),
        locked == *final(locking),
        call_ensures(Mutex::<T>::lock_done, (&locked, addr, code), guard),
        *old(unlocking) == locked,
        guard matches Ok(g) ==> call_ensures(MutexGuard::drop::<T>, (g, unlocking), unlock),
    ensures
        lock@ == seq![
            Call::SemInit { sem: addr, initial_count: 1, limit: 1 },
            Call::SemTake { sem: addr, timeout: Timeout(-1i64) },
        ],
        unlock@ == seq![Call::SemGive { sem: addr }],
        guard matches Ok(g) && g.lock == addr,
        final(unlocking).data == t,
{
}

/// An attempt to lock does not wait.  It yields a guard where the kernel does not answer with a
/// negative number, and else the mutex is locked.
pub proof fn law_try_lock<T>(
    mutex: &mut Mutex<T>,
    addr: Addr,
    calls: Vec<Call>,
    after: Mutex<T>,
    code: i32,
    guard: TryLockResult<MutexGuard>,
)
    requires
        addr != 0,
        old(mutex).inner.0.state == addr,
        call_ensures(Mutex::<T>::try_lock, (mutex, addr), calls),
        after == *final(mutex),
        call_ensures(Mutex::<T>::try_lock_done, (&after, addr, code), guard),
    ensures
        calls@ == seq![Call::SemTake { sem: addr, timeout: Timeout(0i64) }],
        after.data == old(mutex).data,
        code >= 0 ==> (guard matches Ok(g) && g.lock == addr),
        code < 0 ==> guard == Err::<MutexGuard, TryLockError>(TryLockError::WouldBlock),
{
}

} // verus!
