//! Mutexes that own their data, condition variables and channels.
pub mod channel;
pub mod mutex;
pub mod spinmutex;

pub use mutex::{Condvar, LockResult, Mutex, MutexGuard, TryLockError, TryLockResult};
pub use spinmutex::{SpinMutex, SpinMutexGuard};
