//! The I2C bus.
use crate::raw::Addr;
use vstd::prelude::*;

pub mod target;

pub use target::{I2cTarget, I2cTargetCallbacks, I2cTargetData};

verus! {

/// An I2C controller.
#[derive(Clone, Copy, Debug, PartialEq, Eq, Structural)]
pub struct I2c {
    /// The device.
    pub device: Addr,
}

} // verus!
