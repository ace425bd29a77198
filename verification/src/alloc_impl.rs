//! The global allocator.
use crate::raw::{Addr, Call};
use vstd::prelude::*;

verus! {

/// The largest alignment that the kernel's `malloc` promises.
pub const MAX_ALIGN: usize = 8;

/// An allocator on the kernel's `malloc` and `free`.
pub struct ZephyrAllocator;

impl ZephyrAllocator {
    /// Allocate memory.  An alignment that `malloc` does not promise is refused.
    pub fn allocate(&self, size: usize, align: usize) -> (r: Option<Call>)
        ensures
            r == (if align > MAX_ALIGN {
                None
            } else {
                Some(Call::Malloc { size })
            }),
    {
        if align > MAX_ALIGN {
            return None;
        }
        Some(Call::Malloc { size })
    }

    /// Free memory.
    pub fn dealloc(&self, ptr: Addr) -> (call: Call)
        ensures
            call == (Call::Free { ptr }),
    {
        Call::Free { ptr }
    }
}

/// Memory with an alignment of up to eight is allocated in the size that is asked for, and memory
/// with a larger one is refused.
pub proof fn law_alignment_decides(
    allocator: ZephyrAllocator,
    size: usize,
    align: usize,
    r: Option<Call>,
)
    requires
        call_ensures(ZephyrAllocator::allocate, (&allocator, size, align), r),
    ensures
        align <= 8 ==> r == Some(Call::Malloc { size }),
        align > 8 ==> r is None,
{
}

} // verus!
