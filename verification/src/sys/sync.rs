//! The kernel's synchronisation primitives.
pub mod mutex;
pub mod semaphore;

pub use mutex::{Condvar, Mutex, StaticCondvar, StaticMutex};
pub use semaphore::Semaphore;
