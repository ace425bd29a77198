//! Flash controllers and partitions.
use crate::device::Unique;
use crate::raw::Addr;
use vstd::prelude::*;

verus! {

/// A flash controller.
#[derive(Clone, Copy, Debug, PartialEq, Eq, Structural)]
pub struct FlashController {
    /// The device.
    pub device: Addr,
}

impl FlashController {
    /// The controller at `device`, the first time.
    pub fn new(unique: &mut Unique, device: Addr) -> (r: Option<FlashController>)
        ensures
            r == (if old(unique).0 == 0 {
                Some(FlashController { device })
            } else {
                None
            }),
            *final(unique) == old(unique).after_once(),
    {
        if !unique.once() {
            return None;
        }
        Some(FlashController { device })
    }
}

/// A part of a flash device.
#[derive(Clone, Copy, Debug, PartialEq, Eq, Structural)]
pub struct FlashPartition {
    /// The controller.
    pub controller: FlashController,
    /// Where the partition starts.
    pub offset: u32,
    /// How large it is.
    pub size: u32,
}

impl FlashPartition {
    /// The partition, the first time.
    pub fn new(unique: &mut Unique, device: Addr, offset: u32, size: u32) -> (r: Option<
        FlashPartition,
    >)
        ensures
            r == (if old(unique).0 == 0 {
                Some(FlashPartition { controller: FlashController { device }, offset, size })
            } else {
                None
            }),
            *final(unique) == old(unique).after_once(),
    {
        if !unique.once() {
            return None;
        }
        Some(FlashPartition { controller: FlashController { device }, offset, size })
    }
}

} // verus!
