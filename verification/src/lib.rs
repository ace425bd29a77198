//! Verified core of the Rust interface to the Zephyr kernel.
//!
//! Every operation that reaches the kernel is described here as a value, a [`raw::Call`] with its
//! exact arguments.  An operation comes in two halves: the method named after it says which calls
//! to make, and in which order; where the kernel's answer matters, a function whose name ends in
//! `_done` takes that answer and yields the result.  Operations that alternate between the kernel
//! and decisions of their own are state machines, advanced by one answer at a time.
//!
//! Shared state is changed by one `&mut self` step at a time.  Whoever embeds the library runs
//! each step inside a critical section, which is what makes the steps indivisible.
pub mod alloc_impl;
pub mod blocking;
pub mod bluetooth;
pub mod device;
pub mod embassy;
pub mod error;
pub mod kio;
pub mod logging;
pub mod net;
pub mod object;
pub mod printk;
pub mod raw;
pub mod rtio;
pub mod simpletls;
pub mod sync;
pub mod sys;
pub mod text;
pub mod thread;
pub mod time;
pub mod timer;
pub mod work;
