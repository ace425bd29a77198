//! Acting as a target on an I2C bus.
use crate::device::i2c::I2c;
use crate::error::{to_result_void, void_result_of, Error};
use crate::raw::{Addr, Call};
use vstd::prelude::*;

verus! {

/// What a target does when the controller of the bus addresses it.  The methods run in interrupts.
pub trait I2cTargetCallbacks: Sized {
    /// The controller starts to write.
    fn write_requested(&self) -> (r: Result<(), Error>)
        default_ensures
            r == Ok::<(), Error>(()),
    {
        Ok(())
    }

    /// The controller wrote a byte.
    fn write_received(&self, val: u8) -> (r: Result<(), Error>)
        default_ensures
            r == Ok::<(), Error>(()),
    {
        Ok(())
    }

    /// The controller starts to read: the first byte for it.
    fn read_requested(&self) -> (r: Result<u8, Error>)
        default_ensures
            r == Ok::<u8, Error>(0),
    {
        Ok(0)
    }

    /// The controller read a byte: the next byte for it.
    fn read_processed(&self) -> (r: Result<u8, Error>)
        default_ensures
            r == Ok::<u8, Error>(0),
    {
        Ok(0)
    }

    /// The controller is at its end.
    fn stop(&self) -> (r: Result<(), Error>)
        default_ensures
            r == Ok::<(), Error>(()),
    {
        Ok(())
    }
}

/// The C functions that run the methods of a target.
#[derive(Clone, Copy, Debug, PartialEq, Eq, Structural)]
pub struct I2cTargetTable {
    /// Runs [`I2cTargetData::write_requested_trampoline`].
    pub write_requested: Addr,
    /// Runs [`I2cTargetData::read_requested_trampoline`].
    pub read_requested: Addr,
    /// Runs [`I2cTargetData::write_received_trampoline`].
    pub write_received: Addr,
    /// Runs [`I2cTargetData::read_processed_trampoline`].
    pub read_processed: Addr,
    /// Runs [`I2cTargetData::stop_trampoline`].
    pub stop: Addr,
}

/// The kernel's configuration of a target.
#[derive(Clone, Copy, Debug, PartialEq, Eq, Structural)]
pub struct I2cTargetConfig {
    /// The flags of the target.
    pub flags: u8,
    /// Its address on the bus.
    pub address: u16,
    /// Where its table of C functions is, or zero.
    pub callbacks: Addr,
}

/// A target, and what the kernel knows of it.
pub struct I2cTargetData<T: I2cTargetCallbacks> {
    /// The configuration.
    pub config: I2cTargetConfig,
    /// The table of C functions, once the target was registered.
    pub cbs: Option<I2cTargetTable>,
    /// The target.
    pub data: T,
}

/// The return code for an error: its number negated, in 32 bits.
pub open spec fn error_code(e: Error) -> i32 {
    let code = e.0 as i32;
    if code == i32::MIN {
        code
    } else {
        (-code) as i32
    }
}

/// The return code for the outcome of a method.
pub open spec fn code_of(r: Result<(), Error>) -> i32 {
    match r {
        Ok(()) => 0,
        Err(e) => error_code(e),
    }
}

/// The return code for the outcome of a method, and the byte that goes to the controller.
pub open spec fn byte_code_of(r: Result<u8, Error>) -> (i32, Option<u8>) {
    match r {
        Ok(byte) => (0, Some(byte)),
        Err(e) => (error_code(e), None),
    }
}

fn negate(e: Error) -> (code: i32)
    ensures
        code == error_code(e),
{
    #[verifier::truncate]
    let code: i32 = e.0 as i32;
    if code == i32::MIN {
        code
    } else {
        -code
    }
}

/// The return code for the outcome of a method.
pub fn to_code(r: Result<(), Error>) -> (code: i32)
    ensures
        code == code_of(r),
{
    match r {
        Ok(()) => 0,
        Err(e) => negate(e),
    }
}

/// The return code for the outcome of a method, and the byte that goes to the controller.
pub fn to_byte_code(r: Result<u8, Error>) -> (code: (i32, Option<u8>))
    ensures
        code == byte_code_of(r),
{
    match r {
        Ok(byte) => (0, Some(byte)),
        Err(e) => (negate(e), None),
    }
}

impl<T: I2cTargetCallbacks> I2cTargetData<T> {
    /// A target at an address of the bus, which is not registered.
    pub fn new(address: u16, data: T) -> (r: I2cTargetData<T>)
        ensures
            r.config == (I2cTargetConfig { flags: 0, address, callbacks: 0 }),
            r.cbs is None,
            r.data == data,
    {
        I2cTargetData {
            config: I2cTargetConfig { flags: 0, address, callbacks: 0 },
            cbs: None,
            data,
        }
    }

    /// The target.
    pub fn data(&self) -> (data: &T)
        ensures
            *data == self.data,
    {
        &self.data
    }

    /// Register the target on a bus.  Its configuration is at `config`, its table of C functions at
    /// `cbs`.
    pub fn register(&mut self, i2c: &I2c, table: I2cTargetTable, config: Addr, cbs: Addr) -> (call:
        Call)
        ensures
            final(self).config == (I2cTargetConfig { callbacks: cbs, ..old(self).config }),
            final(self).cbs == Some(table),
            final(self).data == old(self).data,
            call == (Call::I2cTargetRegister { device: i2c.device, target: config }),
    {
        self.cbs = Some(table);
        self.config.callbacks = cbs;
        Call::I2cTargetRegister { device: i2c.device, target: config }
    }

    /// The registered target.
    pub fn register_done(i2c: &I2c, config: Addr, code: i32) -> (r: Result<I2cTarget, Error>)
        ensures
            r == (match void_result_of(code) {
                Ok(()) => Ok::<I2cTarget, Error>(I2cTarget { device: i2c.device, config }),
                Err(e) => Err(e),
            }),
    {
        match to_result_void(code) {
            Ok(()) => Ok(I2cTarget { device: i2c.device, config }),
            Err(e) => Err(e),
        }
    }

    /// The controller starts to write.
    pub fn write_requested_trampoline(&self) -> (code: i32)
        ensures
            exists|r: Result<(), Error>| #[trigger]
                call_ensures(T::write_requested, (&self.data,), r) && code == code_of(r),
    {
        let r = self.data.write_requested();
        to_code(r)
    }

    /// The controller wrote a byte.
    pub fn write_received_trampoline(&self, val: u8) -> (code: i32)
        ensures
            exists|r: Result<(), Error>| #[trigger]
                call_ensures(T::write_received, (&self.data, val), r) && code == code_of(r),
    {
        let r = self.data.write_received(val);
        to_code(r)
    }

    /// The controller starts to read.
    pub fn read_requested_trampoline(&self) -> (code: (i32, Option<u8>))
        ensures
            exists|r: Result<u8, Error>| #[trigger]
                call_ensures(T::read_requested, (&self.data,), r) && code == byte_code_of(r),
    {
        let r = self.data.read_requested();
        to_byte_code(r)
    }

    /// The controller read a byte.
    pub fn read_processed_trampoline(&self) -> (code: (i32, Option<u8>))
        ensures
            exists|r: Result<u8, Error>| #[trigger]
                call_ensures(T::read_processed, (&self.data,), r) && code == byte_code_of(r),
    {
        let r = self.data.read_processed();
        to_byte_code(r)
    }

    /// The controller is at its end.
    pub fn stop_trampoline(&self) -> (code: i32)
        ensures
            exists|r: Result<(), Error>| #[trigger]
                call_ensures(T::stop, (&self.data,), r) && code == code_of(r),
    {
        let r = self.data.stop();
        to_code(r)
    }
}

/// A target that is registered.  It stays so until `unregister`.
#[derive(Clone, Copy, Debug, PartialEq, Eq, Structural)]
pub struct I2cTarget {
    /// The bus.
    pub device: Addr,
    /// The configuration of the target.
    pub config: Addr,
}

impl I2cTarget {
    /// Unregister the target.
    pub fn unregister(self) -> (call: Call)
        ensures
            call == (Call::I2cTargetUnregister { device: self.device, target: self.config }),
    {
        Call::I2cTargetUnregister { device: self.device, target: self.config }
    }

    /// Whether the target was unregistered.
    pub fn unregister_done(code: i32) -> (r: Result<(), Error>)
        ensures
            r == void_result_of(code),
    {
        to_result_void(code)
    }
}

/// A return code of zero stands for success, and the code of an error number that fits stands for
/// that error again.
pub proof fn law_codes_round_trip(e: Error)
    requires
        0 < e.0 <= i32::MAX,
    ensures
        void_result_of(code_of(Ok(()))) == Ok::<(), Error>(()),
        void_result_of(code_of(Err(e))) == Err::<(), Error>(e),
{
}

/// Success is answered with zero, and an error whose number fits with that number negated; a byte
/// goes to the controller exactly on success.  The kernel's reading of such an answer is the
/// outcome again.
pub proof fn law_answers_are_codes(
    r: Result<(), Error>,
    code: i32,
    back: Result<(), Error>,
    b: Result<u8, Error>,
    byte: (i32, Option<u8>),
)
    requires
        call_ensures(to_code, (r,), code),
        call_ensures(to_byte_code, (b,), byte),
        call_ensures(to_result_void, (code,), back),
    ensures
        r is Ok ==> code == 0 && back is Ok,
        r matches Err(e) ==> 0 < e.0 <= i32::MAX ==> code + e.0 == 0 && back == r,
        b matches Ok(v) ==> byte.0 == 0 && byte.1 == Some(v),
        b is Err ==> byte.1 is None,
        b matches Err(e) ==> 0 < e.0 <= i32::MAX ==> byte.0 + e.0 == 0,
{
}

/// The answer to the controller is the outcome of the user's method, for each of the five: zero and
/// the byte on success, and the negated number of the error otherwise.
pub proof fn law_methods_are_answered<T: I2cTargetCallbacks>(
    target: I2cTargetData<T>,
    val: u8,
    write: i32,
    received: i32,
    read: (i32, Option<u8>),
    processed: (i32, Option<u8>),
    stop: i32,
)
    requires
        call_ensures(I2cTargetData::<T>::write_requested_trampoline, (&target,), write),
        call_ensures(I2cTargetData::<T>::write_received_trampoline, (&target, val), received),
        call_ensures(I2cTargetData::<T>::read_requested_trampoline, (&target,), read),
        call_ensures(I2cTargetData::<T>::read_processed_trampoline, (&target,), processed),
        call_ensures(I2cTargetData::<T>::stop_trampoline, (&target,), stop),
    ensures
        exists|r: Result<(), Error>|
            {
                &&& #[trigger] call_ensures(T::write_requested, (&target.data,), r)
                &&& r is Ok ==> write == 0
                &&& r matches Err(e) ==> 0 < e.0 <= i32::MAX ==> write + e.0 == 0
            },
        exists|r: Result<(), Error>|
            {
                &&& #[trigger] call_ensures(T::write_received, (&target.data, val), r)
                &&& r is Ok ==> received == 0
                &&& r matches Err(e) ==> 0 < e.0 <= i32::MAX ==> received + e.0 == 0
            },
        exists|r: Result<u8, Error>|
            {
                &&& #[trigger] call_ensures(T::read_requested, (&target.data,), r)
                &&& r matches Ok(v) ==> read.0 == 0 && read.1 == Some(v)
                &&& r matches Err(e) ==> 0 < e.0 <= i32::MAX ==> read.0 + e.0 == 0 && read.1 is None
            },
        exists|r: Result<u8, Error>|
            {
                &&& #[trigger] call_ensures(T::read_processed, (&target.data,), r)
                &&& r matches Ok(v) ==> processed.0 == 0 && processed.1 == Some(v)
                &&& r matches Err(e) ==> 0 < e.0 <= i32::MAX ==> processed.0 + e.0 == 0
                    && processed.1 is None
            },
        exists|r: Result<(), Error>|
            {
                &&& #[trigger] call_ensures(T::stop, (&target.data,), r)
                &&& r is Ok ==> stop == 0
                &&& r matches Err(e) ==> 0 < e.0 <= i32::MAX ==> stop + e.0 == 0
            },
{
}

/// Every error number, also one that a signed number cannot hold, is answered with the number that
/// cancels it in 32 bits.
pub proof fn law_error_is_negated(
    e: Error,
    code: i32,
    byte: (i32, Option<u8>),
)
    requires
        call_ensures(to_code, (Err::<(), Error>(e),), code),
        call_ensures(to_byte_code, (Err::<u8, Error>(e),), byte),
    ensures
        (code + e.0) % 0x1_0000_0000 == 0,
        byte.0 == code,
        byte.1 is None,
{
    let n = e.0;
    assert(n > 0x7fff_ffff ==> n as i32 == n - 0x1_0000_0000) by (bit_vector);
}

} // verus!
