//! A mutex that owns the data that it protects, and its condition variable.
//!
//! Locking yields a guard, which is a claim to the data of one mutex: the data is reached through
//! the mutex and its guard, and giving up the guard unlocks the mutex.
use crate::error::void_result_of;
use crate::raw::{Addr, Call};
use crate::sys::sync::mutex as sys;
use crate::sys::{K_FOREVER, K_NO_WAIT};
use crate::text::{append_hex, hex};
use crate::time::Timeout;
use vstd::prelude::*;
use vstd::string::*;

verus! {

/// The outcome of a lock, which never fails.
pub type LockResult<Guard> = Result<Guard, ()>;

/// The outcome of an attempt to lock.
pub type TryLockResult<Guard> = Result<Guard, TryLockError>;

/// Why a lock was not acquired.
#[derive(Clone, Copy, Debug, PartialEq, Eq, Structural)]
pub enum TryLockError {
    /// The mutex is locked.
    WouldBlock,
}

/// A mutex that owns the data that it protects.
pub struct Mutex<T> {
    /// The kernel's mutex.
    pub inner: sys::Mutex,
    /// The data.
    pub data: T,
}

/// A claim to the data of a mutex that is locked.
pub struct MutexGuard {
    /// The mutex.
    pub lock: sys::Mutex,
}

impl<T> Mutex<T> {
    /// A mutex on a mutex of the kernel.
    pub fn new_from(t: T, raw_mutex: sys::Mutex) -> (r: Mutex<T>)
        ensures
            r.inner == raw_mutex,
            r.data == t,
    {
        Mutex { inner: raw_mutex, data: t }
    }

    /// A mutex on a new mutex of the kernel at `addr`.
    pub fn new(t: T, addr: Addr) -> (r: (Mutex<T>, Call))
        ensures
            r.0.inner.item == addr,
            r.0.data == t,
            r.1 == (Call::MutexInit { mutex: addr }),
    {
        (Mutex::new_from(t, sys::Mutex { item: addr }), Call::MutexInit { mutex: addr })
    }

    /// Lock the mutex, waiting for it.
    pub fn lock(&self) -> (call: Call)
        ensures
            call == (Call::MutexLock { mutex: self.inner.item, timeout: Timeout(K_FOREVER) }),
    {
        self.inner.lock(Timeout(K_FOREVER))
    }

    /// The guard of the mutex that was locked.
    pub fn lock_done(&self, code: i32) -> (r: LockResult<MutexGuard>)
        requires
            void_result_of(code) is Ok,
        ensures
            r == Ok::<MutexGuard, ()>(MutexGuard { lock: self.inner }),
    {
        Ok(MutexGuard { lock: self.inner })
    }

    /// Lock the mutex if that needs no waiting.
    pub fn try_lock(&self) -> (call: Call)
        ensures
            call == (Call::MutexLock { mutex: self.inner.item, timeout: Timeout(K_NO_WAIT) }),
    {
        self.inner.lock(Timeout(K_NO_WAIT))
    }

    /// The guard, if the mutex was locked.
    pub fn try_lock_done(&self, code: i32) -> (r: TryLockResult<MutexGuard>)
        ensures
            r == (match void_result_of(code) {
                Ok(()) => Ok::<MutexGuard, TryLockError>(MutexGuard { lock: self.inner }),
                Err(_) => Err(TryLockError::WouldBlock),
            }),
    {
        match sys::Mutex::lock_done(code) {
            Ok(()) => Ok(MutexGuard { lock: self.inner }),
            Err(_) => Err(TryLockError::WouldBlock),
        }
    }

    /// The mutex as text.
    pub fn to_debug_string(&self) -> (r: String)
        ensures
            r@ == "Mutex sys::Mutex 0x"@ + hex(self.inner.item as nat),
    {
        let mut s = String::new();
        s.append("Mutex sys::Mutex 0x");
        append_hex(&mut s, self.inner.item);
        assert(s@ == "Mutex sys::Mutex 0x"@ + hex(self.inner.item as nat));
        s
    }
}

impl MutexGuard {
    /// Whether this is a guard of `mutex`.
    pub open spec fn guards<T>(self, mutex: Mutex<T>) -> bool {
        self.lock == mutex.inner
    }

    /// The data of the mutex.
    pub fn deref<'a, T>(&self, mutex: &'a Mutex<T>) -> (data: &'a T)
        requires
            self.guards(*mutex),
        ensures
            *data == mutex.data,
    {
        &mutex.data
    }

    /// The data of the mutex, for writing.
    pub fn deref_mut<'a, T>(&self, mutex: &'a mut Mutex<T>) -> (data: &'a mut T)
        requires
            self.guards(*old(mutex)),
        ensures
            *data == old(mutex).data,
            final(mutex).data == *final(data),
            final(mutex).inner == old(mutex).inner,
    {
        &mut mutex.data
    }

    /// Give up the guard: unlock the mutex.
    pub fn drop(self) -> (call: Call)
        ensures
            call == (Call::MutexUnlock { mutex: self.lock.item }),
    {
        self.lock.unlock()
    }
}

/// A condition variable.
pub struct Condvar {
    /// The kernel's condition variable.
    pub inner: sys::Condvar,
}

impl Condvar {
    /// A condition variable on one of the kernel.
    pub fn new_from(raw_condvar: sys::Condvar) -> (r: Condvar)
        ensures
            r.inner == raw_condvar,
    {
        Condvar { inner: raw_condvar }
    }

    /// A condition variable on a new one of the kernel at `addr`.
    pub fn new(addr: Addr) -> (r: (Condvar, Call))
        ensures
            r.0.inner.item == addr,
            r.1 == (Call::CondvarInit { condvar: addr }),
    {
        (Condvar::new_from(sys::Condvar { item: addr }), Call::CondvarInit { condvar: addr })
    }

    /// Unlock the mutex of `guard`, wait for a notification, and lock it again.  The guard stays
    /// what it is.
    pub fn wait(&self, guard: MutexGuard) -> (r: (Call, LockResult<MutexGuard>))
        ensures
            r.0 == (Call::CondvarWait {
                condvar: self.inner.item,
                mutex: guard.lock.item,
                timeout: Timeout(K_FOREVER),
            }),
            r.1 == Ok::<MutexGuard, ()>(guard),
    {
        (self.inner.wait(&guard.lock), Ok(guard))
    }

    /// Wake one thread that waits.
    pub fn notify_one(&self) -> (call: Call)
        ensures
            call == (Call::CondvarSignal { condvar: self.inner.item }),
    {
        self.inner.notify_one()
    }

    /// Wake all threads that wait.
    pub fn notify_all(&self) -> (call: Call)
        ensures
            call == (Call::CondvarBroadcast { condvar: self.inner.item }),
    {
        self.inner.notify_all()
    }

    /// The condition variable as text.
    pub fn to_debug_string(&self) -> (r: String)
        ensures
            r@ == "Condvar sys::Condvar 0x"@ + hex(self.inner.item as nat),
    {
        let mut s = String::new();
        s.append("Condvar sys::Condvar 0x");
        append_hex(&mut s, self.inner.item);
        assert(s@ == "Condvar sys::Condvar 0x"@ + hex(self.inner.item as nat));
        s
    }
}

/// Locking and unlocking go round: the mutex that was made is locked, waiting without a limit, and
/// giving up the guard of that lock unlocks the same mutex.
pub proof fn law_lock_goes_round<T>(
    t: T,
    addr: Addr,
    made: (Mutex<T>, Call),
    lock: Call,
    code: i32,
    guard: LockResult<MutexGuard>,
    unlock: Call,
)
    requires
        code >= 0,
        call_ensures(Mutex::<T>::new, (t, addr), made),
        call_ensures(Mutex::<T>::lock, (&made.0,), lock),
        call_ensures(Mutex::<T>::lock_done, (&made.0, code), guard),
        guard matches Ok(g) ==> call_ensures(MutexGuard::drop, (g,), unlock),
    ensures
        made.0.data == t,
        made.1 == (Call::MutexInit { mutex: addr }),
        lock == (Call::MutexLock { mutex: addr, timeout: Timeout(-1i64) }),
        guard is Ok,
        unlock == (Call::MutexUnlock { mutex: addr }),
{
}

/// An attempt to lock does not wait.  It yields a guard of the mutex where the kernel does not
/// answer with a negative number, and else the mutex is locked.
pub proof fn law_try_lock<T>(
    mutex: Mutex<T>,
    call: Call,
    code: i32,
    guard: TryLockResult<MutexGuard>,
)
    requires
        call_ensures(Mutex::<T>::try_lock, (&mutex,), call),
        call_ensures(Mutex::<T>::try_lock_done, (&mutex, code), guard),
    ensures
        call == (Call::MutexLock { mutex: mutex.inner.item, timeout: Timeout(0i64) }),
        code >= 0 ==> (guard matches Ok(g) && g.lock == mutex.inner),
        code < 0 ==> guard == Err::<MutexGuard, TryLockError>(TryLockError::WouldBlock),
{
}

/// Waiting unlocks the mutex of the guard, without a limit, and hands the guard back; it is woken
/// through the same condition variable.
pub proof fn law_wait_is_woken(
    addr: Addr,
    made: (Condvar, Call),
    guard: MutexGuard,
    waited: (Call, LockResult<MutexGuard>),
    one: Call,
    all: Call,
)
    requires
        call_ensures(Condvar::new, (addr,), made),
        call_ensures(Condvar::wait, (&made.0, guard), waited),
        call_ensures(Condvar::notify_one, (&made.0,), one),
        call_ensures(Condvar::notify_all, (&made.0,), all),
    ensures
        made.1 == (Call::CondvarInit { condvar: addr }),
        waited.0 == (Call::CondvarWait {
            condvar: addr,
            mutex: guard.lock.item,
            timeout: Timeout(-1i64),
        }),
        waited.1 == Ok::<MutexGuard, ()>(guard),
        one == (Call::CondvarSignal { condvar: addr }),
        all == (Call::CondvarBroadcast { condvar: addr }),
{
}

} // verus!
