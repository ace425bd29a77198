//! Strips of coloured lights.
use crate::device::Unique;
use crate::error::{to_result_void, void_result_of, Error};
use crate::raw::{Addr, Call};
use vstd::prelude::*;

verus! {

/// A colour.
#[derive(Clone, Copy, Debug, PartialEq, Eq, Structural)]
pub struct LedRgb {
    /// Red.
    pub r: u8,
    /// Green.
    pub g: u8,
    /// Blue.
    pub b: u8,
}

/// A strip of lights.
#[derive(Clone, Copy, Debug, PartialEq, Eq, Structural)]
pub struct LedStrip {
    /// The device.
    pub device: Addr,
}

impl LedStrip {
    /// The strip at `device`, the first time.
    pub fn new(unique: &mut Unique, device: Addr) -> (r: Option<LedStrip>)
        ensures
            r == (if old(unique).0 == 0 {
                Some(LedStrip { device })
            } else {
                None
            }),
            *final(unique) == old(unique).after_once(),
    {
        if !unique.once() {
            return None;
        }
        Some(LedStrip { device })
    }

    /// Ask whether the device is ready.
    pub fn is_ready(&self) -> (call: Call)
        ensures
            call == (Call::DeviceIsReady { device: self.device }),
    {
        Call::DeviceIsReady { device: self.device }
    }

    /// Set the colours of the lights from the first on.
    pub fn update_rgb(&mut self, pixels: Vec<LedRgb>) -> (call: Call)
        ensures
            *final(self) == *old(self),
            call == (Call::LedStripUpdateRgb { device: old(self).device, pixels }),
    {
        Call::LedStripUpdateRgb { device: self.device, pixels }
    }

    /// Whether the colours were set.
    pub fn update_rgb_done(code: i32) -> (r: Result<(), Error>)
        ensures
            r == void_result_of(code),
    {
        to_result_void(code)
    }

    /// Ask for the number of lights.
    pub fn length(&self) -> (call: Call)
        ensures
            call == (Call::LedStripLength { device: self.device }),
    {
        Call::LedStripLength { device: self.device }
    }
}

} // verus!
