//! Lights.
use crate::device::Unique;
use crate::error::{to_result_void, void_result_of, Error};
use crate::raw::{Addr, Call};
use vstd::prelude::*;

verus! {

/// A controller of lights.
#[derive(Clone, Copy, Debug, PartialEq, Eq, Structural)]
pub struct LedController {
    /// The device.
    pub device: Addr,
}

impl LedController {
    /// The controller at `device`, the first time.
    pub fn new(unique: &mut Unique, device: Addr) -> (r: Option<LedController>)
        ensures
            r == (if old(unique).0 == 0 {
                Some(LedController { device })
            } else {
                None
            }),
            *final(unique) == old(unique).after_once(),
    {
        if !unique.once() {
            return None;
        }
        Some(LedController { device })
    }

    /// Ask whether the device is ready.
    pub fn is_ready(&self) -> (call: Call)
        ensures
            call == (Call::DeviceIsReady { device: self.device }),
    {
        Call::DeviceIsReady { device: self.device }
    }
}

/// One light of a controller.
#[derive(Clone, Copy, Debug, PartialEq, Eq, Structural)]
pub struct Led {
    /// The controller.
    pub device: Addr,
    /// The number of the light.
    pub index: u32,
}

impl Led {
    /// The light, the first time.
    pub fn new(unique: &mut Unique, device: Addr, index: u32) -> (r: Option<Led>)
        ensures
            r == (if old(unique).0 == 0 {
                Some(Led { device, index })
            } else {
                None
            }),
            *final(unique) == old(unique).after_once(),
    {
        if !unique.once() {
            return None;
        }
        Some(Led { device, index })
    }

    /// Ask whether the device is ready.
    pub fn is_ready(&self) -> (call: Call)
        ensures
            call == (Call::DeviceIsReady { device: self.device }),
    {
        Call::DeviceIsReady { device: self.device }
    }

    /// Set the brightness in percent.
    pub fn set_brightness(&mut self, value: u8) -> (call: Call)
        ensures
            *final(self) == *old(self),
            call == (Call::LedSetBrightness {
                device: old(self).device,
                led: old(self).index,
                brightness: value,
            }),
    {
        Call::LedSetBrightness { device: self.device, led: self.index, brightness: value }
    }

    /// Turn the light on.
    pub fn on(&mut self) -> (call: Call)
        ensures
            *final(self) == *old(self),
            call == (Call::LedOn { device: old(self).device, led: old(self).index }),
    {
        Call::LedOn { device: self.device, led: self.index }
    }

    /// Turn the light off.
    pub fn off(&mut self) -> (call: Call)
        ensures
            *final(self) == *old(self),
            call == (Call::LedOff { device: old(self).device, led: old(self).index }),
    {
        Call::LedOff { device: self.device, led: self.index }
    }

    /// Let the light blink, with the times on and off in milliseconds.
    pub fn blink(&mut self, delay_on: u32, delay_off: u32) -> (call: Call)
        ensures
            *final(self) == *old(self),
            call == (Call::LedBlink {
                device: old(self).device,
                led: old(self).index,
                delay_on,
                delay_off,
            }),
    {
        Call::LedBlink { device: self.device, led: self.index, delay_on, delay_off }
    }

    /// Whether an operation on the light succeeded.
    pub fn done(code: i32) -> (r: Result<(), Error>)
        ensures
            r == void_result_of(code),
    {
        to_result_void(code)
    }
}

} // verus!
