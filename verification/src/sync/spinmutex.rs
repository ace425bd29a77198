//! A mutex for data that is shared with interrupt handlers.
use crate::raw::{Addr, Call};
use core::convert::Infallible;
use vstd::prelude::*;

verus! {

/// The outcome of a lock.
pub type SpinLockResult<Guard> = Result<Guard, Infallible>;

/// The outcome of an attempt to lock.
pub type SpinTryLockResult<Guard> = Result<Guard, SpinTryLockError>;

/// Why a lock was not acquired.
#[derive(Clone, Copy, Debug, PartialEq, Eq, Structural)]
pub enum SpinTryLockError {
    /// The mutex is locked.
    WouldBlock,
}

/// A mutex that owns the data that it protects.
pub struct SpinMutex<T> {
    /// The address of the kernel's spin lock.
    pub inner: Addr,
    /// The data.
    pub data: T,
}

/// A claim to the data of a mutex that is locked.
pub struct SpinMutexGuard {
    /// The address of the kernel's spin lock.
    pub lock: Addr,
    /// What the kernel needs to unlock it.
    pub key: i32,
}

impl<T> SpinMutex<T> {
    /// A mutex on a spin lock at `addr`.
    pub fn new(t: T, addr: Addr) -> (r: SpinMutex<T>)
        ensures
            r.inner == addr,
            r.data == t,
    {
        SpinMutex { inner: addr, data: t }
    }

    /// Lock the mutex, waiting for it.
    pub fn lock(&self) -> (call: Call)
        ensures
            call == (Call::SpinLock { lock: self.inner }),
    {
        Call::SpinLock { lock: self.inner }
    }

    /// The guard, with the key that the kernel gave.
    pub fn lock_done(&self, key: i32) -> (r: SpinLockResult<SpinMutexGuard>)
        ensures
            r == Ok::<SpinMutexGuard, Infallible>(SpinMutexGuard { lock: self.inner, key }),
    {
        Ok(SpinMutexGuard { lock: self.inner, key })
    }

    /// Lock the mutex if that needs no waiting.
    pub fn try_lock(&self) -> (call: Call)
        ensures
            call == (Call::SpinTryLock { lock: self.inner }),
    {
        Call::SpinTryLock { lock: self.inner }
    }

    /// The guard, if the mutex was locked.
    pub fn try_lock_done(&self, code: i32, key: i32) -> (r: SpinTryLockResult<SpinMutexGuard>)
        ensures
            r == (if code == 0 {
                Ok::<SpinMutexGuard, SpinTryLockError>(SpinMutexGuard { lock: self.inner, key })
            } else {
                Err(SpinTryLockError::WouldBlock)
            }),
    {
        if code == 0 {
            Ok(SpinMutexGuard { lock: self.inner, key })
        } else {
            Err(SpinTryLockError::WouldBlock)
        }
    }

    /// The mutex as text, without the spin lock and the data.
    pub fn to_debug_string(&self) -> (r: &'static str)
        ensures
            r@ == "Mutex UnsafeCell { .. }"@,
    {
        "Mutex UnsafeCell { .. }"
    }
}

impl SpinMutexGuard {
    /// Whether this is a guard of `mutex`.
    pub open spec fn guards<T>(self, mutex: SpinMutex<T>) -> bool {
        self.lock == mutex.inner
    }

    /// The data of the mutex.
    pub fn deref<'a, T>(&self, mutex: &'a SpinMutex<T>) -> (data: &'a T)
        requires
            self.guards(*mutex),
        ensures
            *data == mutex.data,
    {
        &mutex.data
    }

    /// The data of the mutex, for writing.
    pub fn deref_mut<'a, T>(&self, mutex: &'a mut SpinMutex<T>) -> (data: &'a mut T)
        requires
            self.guards(*old(mutex)),
        ensures
            *data == old(mutex).data,
            final(mutex).data == *final(data),
            final(mutex).inner == old(mutex).inner,
    {
        &mut mutex.data
    }

    /// Give up the guard: unlock the mutex with its key.
    pub fn drop(self) -> (call: Call)
        ensures
            call == (Call::SpinUnlock { lock: self.lock, key: self.key }),
    {
        Call::SpinUnlock { lock: self.lock, key: self.key }
    }
}

/// Locking and unlocking go round: giving up a guard unlocks the lock that was locked, with the key
/// that the kernel gave for it.  An attempt yields a guard where the kernel answers with zero.
pub proof fn law_lock_goes_round<T>(
    t: T,
    addr: Addr,
    mutex: SpinMutex<T>,
    lock: Call,
    key: i32,
    guard: SpinLockResult<SpinMutexGuard>,
    attempt: Call,
    code: i32,
    tried: SpinTryLockResult<SpinMutexGuard>,
    unlock: Call,
)
    requires
        call_ensures(SpinMutex::<T>::new, (t, addr), mutex),
        call_ensures(SpinMutex::<T>::lock, (&mutex,), lock),
        call_ensures(SpinMutex::<T>::lock_done, (&mutex, key), guard),
        call_ensures(SpinMutex::<T>::try_lock, (&mutex,), attempt),
        call_ensures(SpinMutex::<T>::try_lock_done, (&mutex, code, key), tried),
        guard matches Ok(g) ==> call_ensures(SpinMutexGuard::drop, (g,), unlock),
    ensures
        mutex.data == t,
        lock == (Call::SpinLock { lock: addr }),
        attempt == (Call::SpinTryLock { lock: addr }),
        guard is Ok,
        unlock == (Call::SpinUnlock { lock: addr, key }),
        code == 0 ==> (tried matches Ok(g) && g.lock == addr && g.key == key),
        code != 0 ==> tried == Err::<SpinMutexGuard, SpinTryLockError>(
            SpinTryLockError::WouldBlock,
        ),
{
}

} // verus!
