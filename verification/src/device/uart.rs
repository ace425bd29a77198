//! Serial ports.
use crate::device::uart::irq::{UartIrq, UartIrqSetup};
use crate::device::Unique;
use crate::error::{result_of, to_result, to_result_void, void_result_of, Error};
use crate::raw::{Addr, Call};
use vstd::prelude::*;

pub mod irq;
pub mod ring;

verus! {

/// A serial port.
pub struct Uart {
    /// The device.
    pub device: Addr,
}

/// The line control values of a serial port.
#[derive(Clone, Copy, Debug, PartialEq, Eq, Structural)]
pub enum LineControl {
    /// Baud rate.
    BaudRate,
    /// Request To Send.
    RTS,
    /// Data Terminal Ready.
    DTR,
    /// Data Carrier Detect.
    DCD,
    /// Data Set Ready.
    DSR,
}

/// The number of bytes that a return code tells of.
pub open spec fn count_of(code: i32) -> Result<usize, Error> {
    match result_of(code) {
        Ok(count) => Ok(count as usize),
        Err(e) => Err(e),
    }
}

fn to_count(code: i32) -> (r: Result<usize, Error>)
    ensures
        r == count_of(code),
{
    match to_result(code) {
        Ok(count) => Ok(count as usize),
        Err(e) => Err(e),
    }
}

impl Uart {
    /// The port at `device`, the first time.
    pub fn new(unique: &mut Unique, device: Addr) -> (r: Option<Uart>)
        ensures
            r == (if old(unique).0 == 0 {
                Some(Uart { device })
            } else {
                None
            }),
            *final(unique) == old(unique).after_once(),
    {
        if !unique.once() {
            return None;
        }
        Some(Uart { device })
    }

    /// Ask for a character of the input.
    pub fn poll_in(&mut self) -> (call: Call)
        ensures
            call == (Call::UartPollIn { device: old(self).device }),
            *final(self) == *old(self),
    {
        Call::UartPollIn { device: self.device }
    }

    /// The character, or `None` if there was none.
    pub fn poll_in_done(code: i32, ch: u8) -> (r: Result<Option<u8>, Error>)
        ensures
            r == (match void_result_of(code) {
                Ok(()) => Ok::<Option<u8>, Error>(Some(ch)),
                Err(e) => if e.0 == 1 {
                    Ok(None)
                } else {
                    Err(e)
                },
            }),
    {
        match to_result_void(code) {
            Ok(()) => Ok(Some(ch)),
            Err(e) => {
                if e.0 == 1 {
                    Ok(None)
                } else {
                    Err(e)
                }
            },
        }
    }

    /// Send a character, waiting for room.
    pub fn poll_out(&mut self, out_char: u8) -> (call: Call)
        ensures
            call == (Call::UartPollOut { device: old(self).device, out_char }),
            *final(self) == *old(self),
    {
        Call::UartPollOut { device: self.device, out_char }
    }

    /// Fill the output of the port with data.
    pub fn fifo_fill(&mut self, data: Vec<u8>) -> (call: Call)
        ensures
            call == (Call::UartFifoFill { device: old(self).device, bytes: data }),
            *final(self) == *old(self),
    {
        Call::UartFifoFill { device: self.device, bytes: data }
    }

    /// How many bytes of the data were taken.
    pub fn fifo_fill_done(code: i32) -> (r: Result<usize, Error>)
        ensures
            r == count_of(code),
    {
        to_count(code)
    }

    /// Ask for up to `size` bytes of the input of the port.
    pub fn fifo_read(&mut self, size: usize) -> (call: Call)
        ensures
            call == (Call::UartFifoRead { device: old(self).device, size }),
            *final(self) == *old(self),
    {
        Call::UartFifoRead { device: self.device, size }
    }

    /// How many bytes were read.
    pub fn fifo_read_done(code: i32) -> (r: Result<usize, Error>)
        ensures
            r == count_of(code),
    {
        to_count(code)
    }

    /// Ask for a line control value.
    pub fn line_ctrl_get(&self, item: LineControl) -> (call: Call)
        ensures
            call == (Call::UartLineCtrlGet { device: self.device, item }),
    {
        Call::UartLineCtrlGet { device: self.device, item }
    }

    /// The line control value.
    pub fn line_ctrl_get_done(code: i32, value: u32) -> (r: Result<u32, Error>)
        ensures
            r == (match void_result_of(code) {
                Ok(()) => Ok::<u32, Error>(value),
                Err(e) => Err(e),
            }),
    {
        match to_result_void(code) {
            Ok(()) => Ok(value),
            Err(e) => Err(e),
        }
    }

    /// Set a line control value.
    pub fn line_ctrl_set(&mut self, item: LineControl, value: u32) -> (call: Call)
        ensures
            call == (Call::UartLineCtrlSet { device: old(self).device, item, control: value }),
            *final(self) == *old(self),
    {
        Call::UartLineCtrlSet { device: self.device, item, control: value }
    }

    /// Whether the line control value was set.
    pub fn line_ctrl_set_done(code: i32) -> (r: Result<(), Error>)
        ensures
            r == void_result_of(code),
    {
        to_result_void(code)
    }

    /// Ask whether Data Terminal Ready is set.
    pub fn is_dtr_set(&self) -> (call: Call)
        ensures
            call == (Call::UartLineCtrlGet { device: self.device, item: LineControl::DTR }),
    {
        self.line_ctrl_get(LineControl::DTR)
    }

    /// Whether Data Terminal Ready is set.
    pub fn is_dtr_set_done(code: i32, value: u32) -> (r: Result<bool, Error>)
        ensures
            r == (match void_result_of(code) {
                Ok(()) => Ok::<bool, Error>(value == 1),
                Err(e) => Err(e),
            }),
    {
        match Self::line_ctrl_get_done(code, value) {
            Ok(value) => Ok(value == 1),
            Err(e) => Err(e),
        }
    }

    /// Turn this port into an asynchronous one.
    pub fn into_async(self, callback: Addr) -> (call: Call)
        ensures
            call == (Call::UartCallbackSet { device: self.device, callback }),
    {
        UartAsync::new(self, callback)
    }

    /// Turn this port into one that is driven by interrupts.
    pub fn into_irq<const WS: usize, const RS: usize>(
        self,
        callback: Addr,
        user_data: Addr,
    ) -> (r: (UartIrqSetup<WS, RS>, Call))
        requires
            WS as u32 != 0,
            RS as u32 != 0,
        ensures
            r.0.irq.wf(),
            r.0.irq.fresh(),
            r.0.irq.uart == self,
            r.1 == (Call::UartIrqCallbackSet { device: self.device, callback, user_data }),
    {
        UartIrq::new(self, callback, user_data)
    }
}

/// A serial port that reports its events to a callback.
pub struct UartAsync;

impl UartAsync {
    /// Set the callback of a port.
    pub fn new(uart: Uart, callback: Addr) -> (call: Call)
        ensures
            call == (Call::UartCallbackSet { device: uart.device, callback }),
    {
        Call::UartCallbackSet { device: uart.device, callback }
    }

    /// The asynchronous port, from the kernel's answer.
    pub fn new_done(code: i32) -> (r: Result<UartAsync, Error>)
        ensures
            r == (match void_result_of(code) {
                Ok(()) => Ok::<UartAsync, Error>(UartAsync),
                Err(e) => Err(e),
            }),
    {
        match to_result_void(code) {
            Ok(()) => Ok(UartAsync),
            Err(e) => Err(e),
        }
    }
}

/// What a port answers: the character that was read, or none where the code is that there is none;
/// the number of bytes that were read or taken; the value of a line.
pub proof fn law_port_answers(
    code: i32,
    ch: u8,
    value: u32,
    polled: Result<Option<u8>, Error>,
    filled: Result<usize, Error>,
    read: Result<usize, Error>,
    line: Result<u32, Error>,
    dtr: Result<bool, Error>,
)
    requires
        call_ensures(Uart::poll_in_done, (code, ch), polled),
        call_ensures(Uart::fifo_fill_done, (code,), filled),
        call_ensures(Uart::fifo_read_done, (code,), read),
        call_ensures(Uart::line_ctrl_get_done, (code, value), line),
        call_ensures(Uart::is_dtr_set_done, (code, value), dtr),
    ensures
        code >= 0 ==> {
            &&& polled matches Ok(got) && got == Some(ch)
            &&& filled matches Ok(n) && n == code
            &&& read matches Ok(n) && n == code
            &&& line matches Ok(v) && v == value
            &&& dtr matches Ok(set) && (set <==> value == 1)
        },
        code == -1 ==> (polled matches Ok(got) && got is None),
        code < -1 ==> (polled matches Err(e) && e.0 + code == 0),
        code < 0 ==> {
            &&& filled matches Err(e) && e.0 + code == 0
            &&& read matches Err(e) && e.0 + code == 0
            &&& line matches Err(e) && e.0 + code == 0
            &&& dtr matches Err(e) && e.0 + code == 0
        },
{
}

} // verus!
