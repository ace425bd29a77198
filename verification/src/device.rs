//! Devices of the device tree.
use vstd::prelude::*;

pub mod flash;
pub mod fuel_gauge;
pub mod gpio;
pub mod i2c;
pub mod led;
pub mod led_strip;
pub mod text;
pub mod uart;

verus! {

/// A counter that hands out a device once.
pub struct Unique(pub usize);

impl Unique {
    /// The counter after one use.
    pub open spec fn after_once(self) -> Unique {
        Unique(
            if self.0 == usize::MAX {
                0
            } else {
                (self.0 + 1) as usize
            },
        )
    }

    /// The counter after `n` uses.
    pub open spec fn after_uses(self, n: nat) -> Unique
        decreases n,
    {
        if n == 0 {
            self
        } else {
            self.after_uses((n - 1) as nat).after_once()
        }
    }

    /// A counter that was not used.
    pub fn new() -> (r: Unique)
        ensures
            r.0 == 0,
    {
        Unique(0)
    }

    /// Whether this is the first use.
    pub fn once(&mut self) -> (r: bool)
        ensures
            r == (old(self).0 == 0),
            *final(self) == old(self).after_once(),
    {
        let first = self.0 == 0;
        self.0 = self.0.wrapping_add(1);
        first
    }
}

/// Of up to `usize::MAX` further uses of a new counter after the first, none is the first: the
/// counter is zero only before the first use.
pub proof fn law_unique_once(unique: Unique, n: nat)
    requires
        unique.0 == 0,
        n <= usize::MAX,
    ensures
        unique.after_uses(n).0 == n,
        unique.after_uses(n).0 == 0 <==> n == 0,
    decreases n,
{
    if n > 0 {
        law_unique_once(unique, (n - 1) as nat);
    }
}

/// Of two uses of a new counter the first is the first use, and the second is not.
pub proof fn law_second_use_is_not_first(
    new: Unique,
    first: &mut Unique,
    second: &mut Unique,
    a: bool,
    b: bool,
)
    requires
        call_ensures(Unique::new, (), new),
        *old(first) == new,
        call_ensures(Unique::once, (first,), a),
        *old(second) == *final(first),
        call_ensures(Unique::once, (second,), b),
    ensures
        a,
        !b,
{
}

/// A use counts one up, and says that it is the first where the counter was zero.  The counter
/// wraps around at its end.
pub proof fn law_use_is_counted(unique: &mut Unique, first: bool)
    requires
        call_ensures(Unique::once, (unique,), first),
    ensures
        first == (old(unique).0 == 0),
        old(unique).0 < usize::MAX ==> final(unique).0 == old(unique).0 + 1,
        old(unique).0 == usize::MAX ==> final(unique).0 == 0,
{
}

} // verus!
