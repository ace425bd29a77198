//! Running embassy on the kernel.
pub mod executor;
pub mod time_driver;

pub use executor::Executor;
