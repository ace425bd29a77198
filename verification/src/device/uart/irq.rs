//! Serial ports that are driven by interrupts.
//!
//! The interrupt handler moves received bytes into a ring, and hands the data of queued writes to
//! the port.  A write that is complete moves to a second queue, from which its buffer goes back to
//! the user.  A semaphore is given for each such write, so its count is the length of that queue.
use crate::device::uart::ring::{ring_bytes, ring_new, ring_pop_front, ring_push_back, ByteRing};
use crate::device::uart::ring::BUFFER_SIZE;
use crate::device::uart::Uart;
use crate::error::{to_result_void, void_result_of, Error};
use crate::raw::{Addr, Call};
use crate::sys::sync::semaphore::{KSem, Semaphore};
use crate::sys::K_NO_WAIT;
use crate::object::ZephyrObject;
use crate::time::Timeout;
use std::collections::VecDeque;
use std::ops::Range;
use vstd::prelude::*;

verus! {

/// A requested write: a buffer, and the part of it that is still to be written.
pub struct WriteRequest {
    /// The buffer.
    pub data: Vec<u8>,
    /// The part that is still to be written.
    pub part: Range<usize>,
}

/// A write that is complete.
pub struct WriteDone {
    /// The buffer.
    pub data: Vec<u8>,
}

/// A write was refused.  The buffer comes back.
pub struct WriteError(pub Vec<u8>);

impl WriteError {
    /// The error as text, without the contents of the buffer.
    pub fn to_debug_string(&self) -> (r: &'static str)
        ensures
            r@ == "WriteError(...)"@,
    {
        "WriteError(...)"
    }
}

/// No write became complete in time.
pub struct WriteWaitTimedOut;

impl WriteRequest {
    /// Whether nothing is left to be written.
    pub open spec fn complete(self) -> bool {
        self.part.start >= self.part.end
    }

    /// Whether what is left to be written is in the buffer.
    pub open spec fn wf(self) -> bool {
        self.complete() || self.part.end <= self.data@.len()
    }

    /// What is left to be written.
    pub open spec fn piece(self) -> Seq<u8> {
        if self.complete() {
            Seq::empty()
        } else {
            self.data@.subrange(self.part.start as int, self.part.end as int)
        }
    }

    /// Whether this is `before` after the port took `count` bytes.
    pub open spec fn advanced(self, before: WriteRequest, count: nat) -> bool {
        &&& self.data@ == before.data@
        &&& self.part.start == before.part.start + count
        &&& self.part.end == before.part.end
    }
}

/// What the interrupt handler and the user share.
pub struct IrqInnerData<const WS: usize> {
    /// Received bytes.
    pub buffer: ByteRing,
    /// Requested writes, of which the first is being worked on.
    pub write_requests: VecDeque<WriteRequest>,
    /// Writes that are complete.
    pub write_dones: VecDeque<WriteDone>,
}

/// The shared data, and the semaphores that are waited for without it.
pub struct IrqOuterData<const WS: usize, const RS: usize> {
    /// Given when bytes were received.
    pub read_sem: Semaphore,
    /// Given for each write that became complete.
    pub write_sem: Semaphore,
    /// The shared data.
    pub inner: IrqInnerData<WS>,
}

/// Where the two semaphores are.
#[derive(Clone, Copy)]
pub struct SemAddrs {
    /// The address of the semaphore for reads.
    pub read: Addr,
    /// The address of the semaphore for writes.
    pub write: Addr,
}

/// A serial port that is driven by interrupts, with room for `WS` writes.
pub struct UartIrq<const WS: usize, const RS: usize> {
    /// The port.
    pub uart: Uart,
    /// What it shares with the interrupt handler.
    pub data: IrqOuterData<WS, RS>,
}

/// A port whose interrupt handler is being set.
pub struct UartIrqSetup<const WS: usize, const RS: usize> {
    /// The port, which `UartIrq::new_done` makes available.
    pub irq: UartIrq<WS, RS>,
}

impl<const WS: usize, const RS: usize> IrqOuterData<WS, RS> {
    /// The rings hold no more than there is room for, and all requests are in their buffers.
    pub open spec fn wf(self) -> bool {
        &&& self.read_sem.wf()
        &&& self.write_sem.wf()
        &&& ring_bytes(self.inner.buffer).len() <= BUFFER_SIZE
        &&& self.inner.write_requests@.len() <= WS
        &&& self.inner.write_dones@.len() <= WS
        &&& forall|i: int|
            0 <= i < self.inner.write_requests@.len() ==> (
            #[trigger] self.inner.write_requests@[i]).wf()
    }

    /// Whether both semaphores can be used where they are.
    pub open spec fn usable(self, at: SemAddrs) -> bool {
        self.read_sem.0.usable(at.read) && self.write_sem.0.usable(at.write)
    }

    /// Read as many received bytes as `buf` has room for.  Where that is any, the semaphore for
    /// reads is taken without waiting, and the answer is ignored.
    pub fn try_read(&mut self, buf: &mut [u8], at: SemAddrs) -> (r: (usize, Vec<Call>))
        requires
            old(self).wf(),
            old(self).usable(at),
        ensures
            final(self).wf(),
            final(self).usable(at),
            final(self).inner.write_requests == old(self).inner.write_requests,
            final(self).inner.write_dones == old(self).inner.write_dones,
            final(self).write_sem == old(self).write_sem,
            read_result(
                ring_bytes(old(self).inner.buffer),
                ring_bytes(final(self).inner.buffer),
                old(buf)@,
                final(buf)@,
                r.0 as int,
            ),
            r.0 > 0 ==> r.1@ == old(self).read_sem.0.get_calls(at.read).push(
                Call::SemTake { sem: at.read, timeout: Timeout(K_NO_WAIT) },
            ) && final(self).read_sem.0 == old(self).read_sem.0.after_get(at.read),
            r.0 == 0 ==> r.1@ == Seq::<Call>::empty() && final(self).read_sem == old(
                self,
            ).read_sem,
    {
        let ghost all = ring_bytes(self.inner.buffer);
        let mut pos: usize = 0;
        let mut empty = false;
        while !empty && pos < buf.len()
            invariant
                pos <= buf@.len(),
                buf@.len() == old(buf)@.len(),
                pos <= all.len(),
                all == ring_bytes(old(self).inner.buffer),
                ring_bytes(self.inner.buffer) == all.skip(pos as int),
                buf@.take(pos as int) == all.take(pos as int),
                forall|i: int| pos <= i < buf@.len() ==> buf@[i] == old(buf)@[i],
                empty ==> pos == all.len(),
                self.inner.write_requests == old(self).inner.write_requests,
                self.inner.write_dones == old(self).inner.write_dones,
                self.write_sem == old(self).write_sem,
                self.read_sem == old(self).read_sem,
            decreases
                    buf@.len() - pos + if empty {
                        0int
                    } else {
                        1int
                    },
        {
            match ring_pop_front(&mut self.inner.buffer) {
                Some(elt) => {
                    let ghost before = buf@;
                    buf[pos] = elt;
                    pos = pos + 1;
                    proof {
                        assert(all.skip(pos - 1).drop_first() =~= all.skip(pos as int));
                        assert(buf@.take(pos as int) =~= before.take(pos - 1).push(elt));
                        assert(all.take(pos as int) =~= all.take(pos - 1).push(elt));
                    }
                },
                None => {
                    empty = true;
                },
            }
        }
        assert(buf@ =~= all.take(pos as int) + old(buf)@.skip(pos as int)) by {
            assert forall|i: int| 0 <= i < pos implies buf@[i] == all[i] by {
                assert(buf@.take(pos as int)[i] == all.take(pos as int)[i]);
            }
        }
        if pos > 0 {
            (pos, self.read_sem.take(at.read, Timeout(K_NO_WAIT)))
        } else {
            (pos, Vec::new())
        }
    }
}

/// The outcome of a read: the first `count` bytes of the ring go to the start of the buffer and
/// leave the ring, and that is as many as there are and as fit.
pub open spec fn read_result(
    ring: Seq<u8>,
    ring_after: Seq<u8>,
    buf: Seq<u8>,
    buf_after: Seq<u8>,
    count: int,
) -> bool {
    &&& count == if ring.len() < buf.len() {
        ring.len() as int
    } else {
        buf.len() as int
    }
    &&& ring_after == ring.skip(count)
    &&& buf_after == ring.take(count) + buf.skip(count)
}

/// How a read goes on.
pub enum ReadStep {
    /// The read ended with this many bytes; make these calls.
    Done(usize, Vec<Call>),
    /// There was nothing to read.  Make these calls, which wait, and read again; the answers are
    /// ignored.
    Wait(Vec<Call>),
}

impl<const WS: usize, const RS: usize> UartIrq<WS, RS> {
    /// See [`IrqOuterData::wf`].
    pub open spec fn wf(self) -> bool {
        self.data.wf()
    }

    /// Whether the rings are empty, the semaphores at zero, and neither was used.
    pub open spec fn fresh(self) -> bool {
        &&& ring_bytes(self.data.inner.buffer) == Seq::<u8>::empty()
        &&& self.data.inner.write_requests@ == Seq::<WriteRequest>::empty()
        &&& self.data.inner.write_dones@ == Seq::<WriteDone>::empty()
        &&& self.data.read_sem.0 == (ZephyrObject {
            state: 0,
            object: KSem { count: 0, limit: RS as u32 },
        })
        &&& self.data.write_sem.0 == (ZephyrObject {
            state: 0,
            object: KSem { count: 0, limit: WS as u32 },
        })
    }

    /// Turn a port into one that is driven by interrupts.
    pub fn new(uart: Uart, callback: Addr, user_data: Addr) -> (r: (UartIrqSetup<WS, RS>, Call))
        requires
            WS as u32 != 0,
            RS as u32 != 0,
        ensures
            r.0.irq.wf(),
            r.0.irq.fresh(),
            r.0.irq.uart == uart,
            r.1 == (Call::UartIrqCallbackSet { device: uart.device, callback, user_data }),
    {
        let call = Call::UartIrqCallbackSet { device: uart.device, callback, user_data };
        let data = IrqOuterData {
            read_sem: Semaphore::new(
                0,
                #[verifier::truncate]
                (RS as u32),
            ),
            write_sem: Semaphore::new(
                0,
                #[verifier::truncate]
                (WS as u32),
            ),
            inner: IrqInnerData {
                buffer: ring_new(),
                write_requests: VecDeque::new(),
                write_dones: VecDeque::new(),
            },
        };
        (UartIrqSetup { irq: UartIrq { uart, data } }, call)
    }

    /// The port, and the call that enables its input, if the handler was set.
    pub fn new_done(setup: UartIrqSetup<WS, RS>, code: i32) -> (r: Result<
        (UartIrq<WS, RS>, Call),
        Error,
    >)
        ensures
            r == (match void_result_of(code) {
                Ok(()) => Ok::<(UartIrq<WS, RS>, Call), Error>(
                    (setup.irq, Call::UartIrqRxEnable { device: setup.irq.uart.device }),
                ),
                Err(e) => Err(e),
            }),
    {
        match to_result_void(code) {
            Ok(()) => {
                let call = Call::UartIrqRxEnable { device: setup.irq.uart.device };
                Ok((setup.irq, call))
            },
            Err(e) => Err(e),
        }
    }

    /// The port itself, for its line control values.
    pub fn inner(&mut self) -> (uart: &Uart)
        ensures
            *uart == old(self).uart,
            *final(self) == *old(self),
    {
        &self.uart
    }

    /// Read received bytes into `buf`.  Where there are none, wait up to `timeout`, once.
    pub fn try_read(&mut self, buf: &mut [u8], timeout: Timeout, at: SemAddrs) -> (r: ReadStep)
        requires
            old(self).wf(),
            old(self).data.usable(at),
        ensures
            final(self).wf(),
            final(self).data.usable(at),
            final(self).uart == old(self).uart,
            final(self).data.inner.write_requests == old(self).data.inner.write_requests,
            final(self).data.inner.write_dones == old(self).data.inner.write_dones,
            final(self).data.write_sem == old(self).data.write_sem,
            final(self).data.read_sem.0 == old(self).data.read_sem.0.after_get(at.read),
            match r {
                ReadStep::Done(count, calls) => {
                    &&& count > 0
                    &&& read_result(
                        ring_bytes(old(self).data.inner.buffer),
                        ring_bytes(final(self).data.inner.buffer),
                        old(buf)@,
                        final(buf)@,
                        count as int,
                    )
                    &&& calls@ == old(self).data.read_sem.0.get_calls(at.read).push(
                        Call::SemTake { sem: at.read, timeout: Timeout(K_NO_WAIT) },
                    )
                },
                ReadStep::Wait(calls) => {
                    &&& ring_bytes(old(self).data.inner.buffer).len() == 0 || old(buf)@.len() == 0
                    &&& ring_bytes(final(self).data.inner.buffer) == ring_bytes(
                        old(self).data.inner.buffer,
                    )
                    &&& final(buf)@ == old(buf)@
                    &&& calls@ == old(self).data.read_sem.0.get_calls(at.read).push(
                        Call::SemTake { sem: at.read, timeout },
                    )
                },
            },
    {
        let (count, calls) = self.data.try_read(buf, at);
        if count > 0 {
            return ReadStep::Done(count, calls);
        }
        proof {
            assert(ring_bytes(old(self).data.inner.buffer).skip(0) =~= ring_bytes(
                old(self).data.inner.buffer,
            ));
        }
        ReadStep::Wait(self.data.read_sem.take(at.read, timeout))
    }

    /// Read after waiting.  Zero bytes say that the wait timed out.
    pub fn try_read_again(&mut self, buf: &mut [u8], at: SemAddrs) -> (r: (usize, Vec<Call>))
        requires
            old(self).wf(),
            old(self).data.usable(at),
        ensures
            final(self).wf(),
            final(self).data.usable(at),
            final(self).uart == old(self).uart,
            final(self).data.inner.write_requests == old(self).data.inner.write_requests,
            final(self).data.inner.write_dones == old(self).data.inner.write_dones,
            final(self).data.write_sem == old(self).data.write_sem,
            read_result(
                ring_bytes(old(self).data.inner.buffer),
                ring_bytes(final(self).data.inner.buffer),
                old(buf)@,
                final(buf)@,
                r.0 as int,
            ),
            r.0 > 0 ==> r.1@ == old(self).data.read_sem.0.get_calls(at.read).push(
                Call::SemTake { sem: at.read, timeout: Timeout(K_NO_WAIT) },
            ) && final(self).data.read_sem.0 == old(self).data.read_sem.0.after_get(at.read),
            r.0 == 0 ==> r.1@ == Seq::<Call>::empty() && final(self).data.read_sem == old(
                self,
            ).data.read_sem,
    {
        self.data.try_read(buf, at)
    }

    /// Queue a write of a part of a buffer.  Where there is no room the buffer comes back.  The
    /// first write that is queued turns the interrupt for output on.
    pub fn write_enqueue(&mut self, data: Vec<u8>, part: Range<usize>) -> (r: Result<
        Option<Call>,
        WriteError,
    >)
        requires
            old(self).wf(),
            old(self).data.inner.write_requests@.len() == WS || part.start >= part.end || part.end
                <= data@.len(),
        ensures
            final(self).wf(),
            final(self).uart == old(self).uart,
            final(self).data.read_sem == old(self).data.read_sem,
            final(self).data.write_sem == old(self).data.write_sem,
            final(self).data.inner.buffer == old(self).data.inner.buffer,
            final(self).data.inner.write_dones == old(self).data.inner.write_dones,
            ({
                let queued = old(self).data.inner.write_requests@;
                if queued.len() == WS {
                    &&& r == Err::<Option<Call>, WriteError>(WriteError(data))
                    &&& final(self).data.inner.write_requests@ == queued
                } else {
                    &&& final(self).data.inner.write_requests@ == queued.push(
                        WriteRequest { data, part },
                    )
                    &&& r == Ok::<Option<Call>, WriteError>(
                        if queued.len() == 0 {
                            Some(Call::UartIrqTxEnable { device: old(self).uart.device })
                        } else {
                            None
                        },
                    )
                }
            }),
    {
        if self.data.inner.write_requests.len() == WS {
            return Err(WriteError(data));
        }
        self.data.inner.write_requests.push_back(WriteRequest { data, part });
        if self.data.inner.write_requests.len() == 1 {
            Ok(Some(Call::UartIrqTxEnable { device: self.uart.device }))
        } else {
            Ok(None)
        }
    }

    /// Whether there is no room for another write.
    pub fn write_is_full(&self) -> (r: bool)
        requires
            self.wf(),
        ensures
            r <==> self.data.inner.write_requests@.len() == WS,
    {
        self.data.inner.write_requests.len() == WS
    }

    /// Wait up to `timeout` for a write to become complete.
    pub fn write_wait(&mut self, timeout: Timeout, at: SemAddrs) -> (calls: Vec<Call>)
        requires
            old(self).wf(),
            old(self).data.usable(at),
        ensures
            final(self).wf(),
            final(self).data.usable(at),
            final(self).uart == old(self).uart,
            final(self).data.inner == old(self).data.inner,
            final(self).data.read_sem == old(self).data.read_sem,
            final(self).data.write_sem.0 == old(self).data.write_sem.0.after_get(at.write),
            calls@ == old(self).data.write_sem.0.get_calls(at.write).push(
                Call::SemTake { sem: at.write, timeout },
            ),
    {
        self.data.write_sem.take(at.write, timeout)
    }

    /// The buffer of the write that became complete first, if the semaphore was taken.
    pub fn write_wait_done(&mut self, code: i32) -> (r: Result<Vec<u8>, WriteWaitTimedOut>)
        requires
            old(self).wf(),
            void_result_of(code) is Ok ==> old(self).data.inner.write_dones@.len() > 0,
        ensures
            final(self).wf(),
            final(self).uart == old(self).uart,
            final(self).data.read_sem == old(self).data.read_sem,
            final(self).data.write_sem == old(self).data.write_sem,
            final(self).data.inner.buffer == old(self).data.inner.buffer,
            final(self).data.inner.write_requests == old(self).data.inner.write_requests,
            match void_result_of(code) {
                Ok(()) => {
                    &&& r == Ok::<Vec<u8>, WriteWaitTimedOut>(
                        old(self).data.inner.write_dones@.first().data,
                    )
                    &&& final(self).data.inner.write_dones@ == old(
                        self,
                    ).data.inner.write_dones@.drop_first()
                },
                Err(_) => {
                    &&& r == Err::<Vec<u8>, WriteWaitTimedOut>(WriteWaitTimedOut)
                    &&& final(self).data.inner.write_dones == old(self).data.inner.write_dones
                },
            },
    {
        match to_result_void(code) {
            Ok(()) => match self.data.inner.write_dones.pop_front() {
                Some(done) => {
                    assert(self.data.inner.write_dones@ =~= old(
                        self,
                    ).data.inner.write_dones@.drop_first());
                    Ok(done.data)
                },
                None => Err(WriteWaitTimedOut),
            },
            Err(_) => Err(WriteWaitTimedOut),
        }
    }
}

/// How the interrupt handler goes on.
pub enum IrqNext {
    /// Make these calls.  The last one reads a byte; `IrqCallback::on_read` takes its answer.
    FifoRead(Vec<Call>),
    /// Make these calls.  The last one sends data; `IrqCallback::on_fill` takes its answer.
    FifoFill(Vec<Call>),
    /// Make these calls.  Then the handler ends.
    Done(Vec<Call>),
}

/// A run of the interrupt handler.
pub struct IrqCallback {
    /// The device.
    pub device: Addr,
    /// Whether a byte was read.
    pub did_read: bool,
}

/// The number of requests at the head of the queue that are complete.
pub open spec fn leading_complete(requests: Seq<WriteRequest>) -> nat
    decreases requests.len(),
{
    if requests.len() == 0 || !requests.first().complete() {
        0
    } else {
        1 + leading_complete(requests.drop_first())
    }
}

/// The completions of requests.
pub open spec fn completions(requests: Seq<WriteRequest>) -> Seq<WriteDone> {
    requests.map_values(|r: WriteRequest| WriteDone { data: r.data })
}

/// The calls that give a semaphore `n` times.
pub open spec fn gives(sem: ZephyrObject<KSem>, addr: Addr, n: nat) -> Seq<Call>
    decreases n,
{
    if n == 0 {
        Seq::empty()
    } else {
        sem.get_calls(addr).push(Call::SemGive { sem: addr }) + gives(
            sem.after_get(addr),
            addr,
            (n - 1) as nat,
        )
    }
}

/// The semaphore after it was given `n` times.
pub open spec fn after_gives(sem: ZephyrObject<KSem>, addr: Addr, n: nat) -> ZephyrObject<KSem> {
    if n == 0 {
        sem
    } else {
        sem.after_get(addr)
    }
}

/// What the handler does with the writes, from `before` to `after`: the complete ones at the head
/// of the queue become completions, each with a give of the semaphore.  Then the data of the head
/// goes to the port, or the interrupt for output is turned off and the handler ends.
pub open spec fn writes_step<const WS: usize, const RS: usize>(
    device: Addr,
    at: SemAddrs,
    requests: Seq<WriteRequest>,
    before: IrqOuterData<WS, RS>,
    after: IrqOuterData<WS, RS>,
    prefix: Seq<Call>,
    next: IrqNext,
) -> bool {
    let n = leading_complete(requests);
    let calls = prefix + gives(before.write_sem.0, at.write, n);
    &&& after.inner.write_requests@ == requests.skip(n as int)
    &&& after.inner.write_dones@ == before.inner.write_dones@ + completions(requests.take(n as int))
    &&& after.write_sem.0 == after_gives(before.write_sem.0, at.write, n)
    &&& if n < requests.len() {
        &&& next matches IrqNext::FifoFill(made)
        &&& made@.len() > 0
        &&& made@.drop_last() == calls
        &&& made@.last() matches Call::UartFifoFill { device: d, bytes }
        &&& d == device
        &&& bytes@ == requests[n as int].piece()
    } else {
        &&& next matches IrqNext::Done(made)
        &&& made@ == calls + seq![
            Call::UartIrqTxDisable { device },
            Call::UartIrqUpdate { device },
        ]
    }
}

/// What the handler does when the port took `count` bytes of the first request, from `before` to
/// `after`: that request is advanced by as many bytes, and the writes are worked on.
pub open spec fn filled<const WS: usize, const RS: usize>(
    device: Addr,
    at: SemAddrs,
    before: IrqOuterData<WS, RS>,
    after: IrqOuterData<WS, RS>,
    count: nat,
    next: IrqNext,
) -> bool {
    exists|head: WriteRequest|
        {
            &&& head.advanced(before.inner.write_requests@.first(), count)
            &&& #[trigger] writes_step(
                device,
                at,
                seq![head] + before.inner.write_requests@.drop_first(),
                before,
                after,
                Seq::empty(),
                next,
            )
        }
}

fn copy_part(data: &Vec<u8>, start: usize, end: usize) -> (r: Vec<u8>)
    requires
        start <= end <= data@.len(),
    ensures
        r@ == data@.subrange(start as int, end as int),
{
    let mut r: Vec<u8> = Vec::new();
    let mut i: usize = start;
    while i < end
        invariant
            start <= i <= end <= data@.len(),
            r@ == data@.subrange(start as int, i as int),
        decreases end - i,
    {
        r.push(data[i]);
        i = i + 1;
        assert(data@.subrange(start as int, i as int) =~= data@.subrange(
            start as int,
            i - 1,
        ).push(data@[i - 1]));
    }
    r
}

proof fn lemma_gives_push(sem: ZephyrObject<KSem>, addr: Addr, n: nat)
    requires
        addr != 0,
    ensures
        gives(sem, addr, n + 1) == gives(sem, addr, n) + after_gives(sem, addr, n).get_calls(
            addr,
        ).push(Call::SemGive { sem: addr }),
    decreases n,
{
    if n == 0 {
        assert(gives(sem.after_get(addr), addr, 0) =~= Seq::<Call>::empty());
        assert(gives(sem, addr, 1) =~= sem.get_calls(addr).push(Call::SemGive { sem: addr }));
    } else {
        lemma_gives_push(sem.after_get(addr), addr, (n - 1) as nat);
        let first = sem.get_calls(addr).push(Call::SemGive { sem: addr });
        let last = sem.after_get(addr).get_calls(addr).push(Call::SemGive { sem: addr });
        let middle = gives(sem.after_get(addr), addr, (n - 1) as nat);
        assert(first + (middle + last) =~= (first + middle) + last);
    }
}

proof fn lemma_leading_complete(requests: Seq<WriteRequest>, n: nat)
    requires
        n <= requests.len(),
        forall|i: int| 0 <= i < n ==> (#[trigger] requests[i]).complete(),
        n < requests.len() ==> !requests[n as int].complete(),
    ensures
        leading_complete(requests) == n,
    decreases n,
{
    if n > 0 {
        let rest = requests.drop_first();
        assert forall|i: int| 0 <= i < n - 1 implies (#[trigger] rest[i]).complete() by {
            assert(rest[i] == requests[i + 1]);
        }
        lemma_leading_complete(rest, (n - 1) as nat);
    }
}

proof fn lemma_leading_complete_bound(requests: Seq<WriteRequest>)
    ensures
        leading_complete(requests) <= requests.len(),
        forall|i: int| 0 <= i < leading_complete(requests) ==> (#[trigger] requests[i]).complete(),
        leading_complete(requests) < requests.len() ==> !requests[leading_complete(
            requests,
        ) as int].complete(),
    decreases requests.len(),
{
    if requests.len() > 0 && requests.first().complete() {
        lemma_leading_complete_bound(requests.drop_first());
        let n = leading_complete(requests.drop_first());
        assert forall|i: int| 0 <= i < n + 1 implies (#[trigger] requests[i]).complete() by {
            if i > 0 {
                assert(requests.drop_first()[i - 1] == requests[i]);
            }
        }
    }
}

impl IrqCallback {
    /// The handler starts: it reads a byte.
    pub fn irq_callback(device: Addr) -> (r: (IrqCallback, IrqNext))
        ensures
            r.0 == (IrqCallback { device, did_read: false }),
            r.1 matches IrqNext::FifoRead(calls) && calls@ == seq![
                Call::UartFifoRead { device, size: 1 },
            ],
    {
        (
            IrqCallback { device, did_read: false },
            IrqNext::FifoRead(vec![Call::UartFifoRead { device, size: 1 }]),
        )
    }

    /// The port gave `code` bytes: one, which is stored unless the ring is full, or none, which
    /// ends the reading and starts the writing.
    pub fn on_read<const WS: usize, const RS: usize>(
        &mut self,
        outer: &mut IrqOuterData<WS, RS>,
        at: SemAddrs,
        code: i32,
        byte: u8,
    ) -> (next: IrqNext)
        requires
            old(outer).wf(),
            old(outer).usable(at),
            code == 0 || code == 1,
            code == 0 ==> old(outer).inner.write_dones@.len() + leading_complete(
                old(outer).inner.write_requests@,
            ) <= WS,
        ensures
            final(outer).wf(),
            final(outer).usable(at),
            final(self).device == old(self).device,
            code == 1 ==> {
                &&& final(self).did_read
                &&& ring_bytes(final(outer).inner.buffer) == received(
                    ring_bytes(old(outer).inner.buffer),
                    byte,
                )
                &&& final(outer).inner.write_requests == old(outer).inner.write_requests
                &&& final(outer).inner.write_dones == old(outer).inner.write_dones
                &&& final(outer).read_sem == old(outer).read_sem
                &&& final(outer).write_sem == old(outer).write_sem
                &&& next matches IrqNext::FifoRead(calls)
                &&& calls@ == seq![Call::UartFifoRead { device: old(self).device, size: 1 }]
            },
            code == 0 ==> {
                &&& final(self).did_read == old(self).did_read
                &&& ring_bytes(final(outer).inner.buffer) == ring_bytes(old(outer).inner.buffer)
                &&& final(outer).read_sem.0 == after_gives(
                    old(outer).read_sem.0,
                    at.read,
                    if old(self).did_read {
                        1
                    } else {
                        0
                    },
                )
                &&& writes_step(
                    old(self).device,
                    at,
                    old(outer).inner.write_requests@,
                    *old(outer),
                    *final(outer),
                    gives(
                        old(outer).read_sem.0,
                        at.read,
                        if old(self).did_read {
                            1
                        } else {
                            0
                        },
                    ),
                    next,
                )
            },
    {
        if code == 1 {
            let _ = ring_push_back(&mut outer.inner.buffer, byte);
            self.did_read = true;
            return IrqNext::FifoRead(vec![Call::UartFifoRead { device: self.device, size: 1 }]);
        }
        let mut calls: Vec<Call> = Vec::new();
        if self.did_read {
            calls = outer.read_sem.give(at.read);
            proof {
                let sem = old(outer).read_sem.0;
                assert(gives(sem.after_get(at.read), at.read, 0) =~= Seq::<Call>::empty());
                assert(gives(sem, at.read, 1) =~= calls@);
            }
        } else {
            assert(gives(old(outer).read_sem.0, at.read, 0) =~= calls@);
        }
        let ghost middle = *outer;
        let next = self.writes(outer, at, calls);
        proof {
            assert(middle.inner == old(outer).inner);
            assert(middle.write_sem == old(outer).write_sem);
        }
        next
    }

    /// The port took `count` bytes of the data of the first request.
    pub fn on_fill<const WS: usize, const RS: usize>(
        &mut self,
        outer: &mut IrqOuterData<WS, RS>,
        at: SemAddrs,
        count: i32,
    ) -> (next: IrqNext)
        requires
            old(outer).wf(),
            old(outer).usable(at),
            count >= 0,
            old(outer).inner.write_requests@.len() > 0,
            old(outer).inner.write_requests@.first().part.start + count <= usize::MAX,
            old(outer).inner.write_requests@.first().part.start + count >= old(
                outer,
            ).inner.write_requests@.first().part.end ==> old(outer).inner.write_dones@.len() + 1
                + leading_complete(old(outer).inner.write_requests@.drop_first()) <= WS,
        ensures
            final(outer).wf(),
            final(outer).usable(at),
            *final(self) == *old(self),
            ring_bytes(final(outer).inner.buffer) == ring_bytes(old(outer).inner.buffer),
            final(outer).read_sem == old(outer).read_sem,
            filled(old(self).device, at, *old(outer), *final(outer), count as nat, next),
    {
        let ghost queued = outer.inner.write_requests@;
        let mut calls: Vec<Call> = Vec::new();
        if let Some(req) = outer.inner.write_requests.pop_front() {
            let WriteRequest { data, part } = req;
            let start: usize = part.start + count as usize;
            let end: usize = part.end;
            let head = WriteRequest { data, part: start..end };
            let ghost ghead = head;
            outer.inner.write_requests.push_front(head);
            let ghost middle = *outer;
            proof {
                assert(outer.inner.write_requests@ =~= seq![ghead] + queued.drop_first());
                assert forall|i: int| 0 <= i < outer.inner.write_requests@.len() implies (
                #[trigger] outer.inner.write_requests@[i]).wf() by {
                    if i > 0 {
                        assert(outer.inner.write_requests@[i] == queued[i]);
                    } else {
                        assert(queued[0].wf());
                    }
                }
                assert((seq![ghead] + queued.drop_first()).drop_first() =~= queued.drop_first());
                lemma_leading_complete_bound(queued.drop_first());
            }
            let next = self.writes(outer, at, calls);
            proof {
                assert(writes_step(
                    old(self).device,
                    at,
                    seq![ghead] + queued.drop_first(),
                    *old(outer),
                    *outer,
                    Seq::empty(),
                    next,
                ));
            }
            next
        } else {
            IrqNext::Done(calls)
        }
    }

    /// Complete requests at the head of the queue, and go on with the first that is not.
    fn writes<const WS: usize, const RS: usize>(
        &self,
        outer: &mut IrqOuterData<WS, RS>,
        at: SemAddrs,
        prefix: Vec<Call>,
    ) -> (next: IrqNext)
        requires
            old(outer).wf(),
            old(outer).usable(at),
            old(outer).inner.write_dones@.len() + leading_complete(
                old(outer).inner.write_requests@,
            ) <= WS,
        ensures
            final(outer).wf(),
            final(outer).usable(at),
            final(outer).inner.buffer == old(outer).inner.buffer,
            final(outer).read_sem == old(outer).read_sem,
            writes_step(
                self.device,
                at,
                old(outer).inner.write_requests@,
                *old(outer),
                *final(outer),
                prefix@,
                next,
            ),
    {
        let ghost requests = outer.inner.write_requests@;
        let ghost mut n: nat = 0;
        let mut calls = prefix;
        proof {
            lemma_leading_complete_bound(requests);
            assert(requests.skip(0) =~= requests);
            assert(completions(requests.take(0)) =~= Seq::empty());
            assert(prefix@ + gives(outer.write_sem.0, at.write, 0) =~= prefix@);
        }
        while outer.inner.write_requests.len() > 0
            invariant
                requests == old(outer).inner.write_requests@,
                n <= requests.len(),
                forall|i: int| 0 <= i < requests.len() ==> (#[trigger] requests[i]).wf(),
                forall|i: int| 0 <= i < n ==> (#[trigger] requests[i]).complete(),
                old(outer).wf(),
                old(outer).usable(at),
                outer.usable(at),
                outer.write_sem.wf(),
                outer.inner.buffer == old(outer).inner.buffer,
                outer.read_sem == old(outer).read_sem,
                outer.inner.write_requests@ == requests.skip(n as int),
                outer.inner.write_dones@ == old(outer).inner.write_dones@ + completions(
                    requests.take(n as int),
                ),
                outer.write_sem.0 == after_gives(old(outer).write_sem.0, at.write, n),
                calls@ == prefix@ + gives(old(outer).write_sem.0, at.write, n),
                old(outer).inner.write_dones@.len() + leading_complete(requests) <= WS,
                leading_complete(requests) <= requests.len(),
                forall|i: int|
                    0 <= i < leading_complete(requests) ==> (#[trigger] requests[i]).complete(),
                leading_complete(requests) < requests.len() ==> !requests[leading_complete(
                    requests,
                ) as int].complete(),
            decreases requests.len() - n,
        {
            let req = match outer.inner.write_requests.pop_front() {
                Some(req) => req,
                None => {
                    return IrqNext::Done(calls);
                },
            };
            assert(req == requests[n as int]);
            if req.part.start >= req.part.end {
                proof {
                    lemma_gives_push(old(outer).write_sem.0, at.write, n);
                }
                outer.inner.write_dones.push_back(WriteDone { data: req.data });
                let mut give = outer.write_sem.give(at.write);
                let ghost before = calls@;
                let ghost given = give@;
                calls.append(&mut give);
                proof {
                    assert(requests.skip(n as int).drop_first() =~= requests.skip(n as int + 1));
                    assert(requests.take(n as int + 1) =~= requests.take(n as int).push(
                        requests[n as int],
                    ));
                    assert(completions(requests.take(n as int + 1)) =~= completions(
                        requests.take(n as int),
                    ).push(WriteDone { data: requests[n as int].data }));
                    assert(calls@ =~= prefix@ + gives(old(outer).write_sem.0, at.write, n + 1));
                    n = n + 1;
                }
            } else {
                let data = copy_part(&req.data, req.part.start, req.part.end);
                let ghost sent = data@;
                outer.inner.write_requests.push_front(req);
                let ghost before = calls@;
                calls.push(Call::UartFifoFill { device: self.device, bytes: data });
                proof {
                    lemma_leading_complete(requests, n);
                    assert(outer.inner.write_requests@ =~= requests.skip(n as int));
                    assert(calls@.drop_last() =~= before);
                    assert forall|i: int| 0 <= i < outer.inner.write_requests@.len() implies (
                    #[trigger] outer.inner.write_requests@[i]).wf() by {
                        assert(outer.inner.write_requests@[i] == requests[i + n]);
                    }
                }
                let next = IrqNext::FifoFill(calls);
                assert(writes_step(
                    self.device,
                    at,
                    requests,
                    *old(outer),
                    *outer,
                    prefix@,
                    next,
                ));
                return next;
            }
        }
        proof {
            assert(outer.inner.write_requests@.len() == 0);
            assert(n == requests.len());
            lemma_leading_complete(requests, n);
        }
        let ghost before = calls@;
        calls.push(Call::UartIrqTxDisable { device: self.device });
        calls.push(Call::UartIrqUpdate { device: self.device });
        assert(calls@ =~= before + seq![
            Call::UartIrqTxDisable { device: self.device },
            Call::UartIrqUpdate { device: self.device },
        ]);
        IrqNext::Done(calls)
    }
}

/// The ring after a byte was received: the byte is lost where the ring is full.
pub open spec fn received(ring: Seq<u8>, byte: u8) -> Seq<u8> {
    if ring.len() < BUFFER_SIZE {
        ring.push(byte)
    } else {
        ring
    }
}

/// The bytes that the port took: of each request in `states`, the first of `counts` bytes that were
/// left of it.
pub open spec fn bytes_sent(states: Seq<WriteRequest>, counts: Seq<nat>) -> Seq<u8>
    decreases counts.len(),
{
    if counts.len() == 0 {
        Seq::empty()
    } else {
        states.first().piece().take(counts.first() as int) + bytes_sent(
            states.drop_first(),
            counts.drop_first(),
        )
    }
}

/// A write is not lost, doubled or reordered: whatever number of bytes the port takes each time,
/// what it took and what is left of the request are together the part that was requested.
pub proof fn law_write_sends_request(states: Seq<WriteRequest>, counts: Seq<nat>)
    requires
        states.len() == counts.len() + 1,
        states.first().wf(),
        forall|i: int|
            0 <= i < counts.len() ==> counts[i] <= (#[trigger] states[i]).piece().len()
                && states[i + 1].advanced(states[i], counts[i]),
    ensures
        bytes_sent(states, counts) + states.last().piece() == states.first().piece(),
    decreases counts.len(),
{
    if counts.len() > 0 {
        let rest = states.drop_first();
        let rest_counts = counts.drop_first();
        let count = counts.first();
        assert(counts[0] <= states[0].piece().len() && states[1].advanced(
            states[0],
            counts[0],
        ));
        assert forall|i: int| 0 <= i < rest_counts.len() implies rest_counts[i] <= (
        #[trigger] rest[i]).piece().len() && rest[i + 1].advanced(rest[i], rest_counts[i]) by {
            assert(rest[i] == states[i + 1]);
            assert(rest[i + 1] == states[i + 2]);
        }
        law_write_sends_request(rest, rest_counts);
        let piece = states.first().piece();
        assert(rest.first().piece() =~= piece.skip(count as int));
        assert(rest.last() == states.last());
        assert(bytes_sent(states, counts) + states.last().piece() =~= piece.take(count as int) + (
        bytes_sent(rest, rest_counts) + rest.last().piece()));
        assert(piece.take(count as int) + piece.skip(count as int) =~= piece);
    } else {
        assert(bytes_sent(states, counts) + states.last().piece() =~= states.first().piece());
    }
}

/// How often calls give the semaphore at `addr`.
pub open spec fn times_given(calls: Seq<Call>, addr: Addr) -> nat
    decreases calls.len(),
{
    if calls.len() == 0 {
        0
    } else {
        times_given(calls.drop_last(), addr) + if calls.last() == (Call::SemGive { sem: addr }) {
            1nat
        } else {
            0
        }
    }
}

/// The calls of a step of the interrupt handler.
pub open spec fn calls_of(next: IrqNext) -> Seq<Call> {
    match next {
        IrqNext::FifoRead(calls) => calls@,
        IrqNext::FifoFill(calls) => calls@,
        IrqNext::Done(calls) => calls@,
    }
}

proof fn lemma_times_given_concat(a: Seq<Call>, b: Seq<Call>, addr: Addr)
    ensures
        times_given(a + b, addr) == times_given(a, addr) + times_given(b, addr),
    decreases b.len(),
{
    if b.len() == 0 {
        assert(a + b =~= a);
    } else {
        assert((a + b).drop_last() =~= a + b.drop_last());
        lemma_times_given_concat(a, b.drop_last(), addr);
    }
}

proof fn lemma_times_given_gives(sem: ZephyrObject<KSem>, at: Addr, addr: Addr, n: nat)
    ensures
        times_given(gives(sem, at, n), addr) == if at == addr {
            n
        } else {
            0
        },
    decreases n,
{
    if n > 0 {
        let first = sem.get_calls(at).push(Call::SemGive { sem: at });
        lemma_times_given_gives(sem.after_get(at), at, addr, (n - 1) as nat);
        lemma_times_given_concat(first, gives(sem.after_get(at), at, (n - 1) as nat), addr);
        assert(first.drop_last() =~= sem.get_calls(at));
        if sem.state == 0 {
            assert(sem.get_calls(at).len() == 1);
            assert(sem.get_calls(at).last() is SemInit);
            assert(times_given(sem.get_calls(at).drop_last(), addr) == 0);
        }
        assert(times_given(sem.get_calls(at), addr) == 0);
        assert(times_given(first, addr) == if at == addr {
            1nat
        } else {
            0
        });
    }
}

/// The semaphore for writes is given exactly once for each write that becomes complete.  So its
/// count, from which a successful wait takes one for each buffer that it hands back, is the number
/// of buffers that are waiting.
pub proof fn law_write_sem_counts_completions<const WS: usize, const RS: usize>(
    device: Addr,
    at: SemAddrs,
    requests: Seq<WriteRequest>,
    before: IrqOuterData<WS, RS>,
    after: IrqOuterData<WS, RS>,
    reads: nat,
    next: IrqNext,
)
    requires
        at.read != at.write,
        writes_step(
            device,
            at,
            requests,
            before,
            after,
            gives(before.read_sem.0, at.read, reads),
            next,
        ),
    ensures
        after.inner.write_dones@.len() == before.inner.write_dones@.len() + times_given(
            calls_of(next),
            at.write,
        ),
{
    let n = leading_complete(requests);
    let prefix = gives(before.read_sem.0, at.read, reads);
    let given = gives(before.write_sem.0, at.write, n);
    lemma_leading_complete_bound(requests);
    lemma_times_given_gives(before.read_sem.0, at.read, at.write, reads);
    lemma_times_given_gives(before.write_sem.0, at.write, at.write, n);
    lemma_times_given_concat(prefix, given, at.write);
    if n >= requests.len() {
        let end = seq![Call::UartIrqTxDisable { device }, Call::UartIrqUpdate { device }];
        assert(end.drop_last().drop_last() =~= Seq::empty());
        assert(times_given(end.drop_last().drop_last(), at.write) == 0);
        assert(times_given(end.drop_last(), at.write) == 0);
        assert(times_given(end, at.write) == 0);
        lemma_times_given_concat(prefix + given, end, at.write);
    }
}

/// A step of a port: `count` is the count of the semaphore for writes, and `data` what the port
/// shares.  Either the handler works on the writes, or a wait takes the semaphore and hands back a
/// buffer, or neither the completions nor the semaphore are touched.
pub open spec fn write_step<const WS: usize, const RS: usize>(
    device: Addr,
    at: SemAddrs,
    count: nat,
    data: IrqOuterData<WS, RS>,
    count_after: nat,
    after: IrqOuterData<WS, RS>,
) -> bool {
    ||| exists|requests: Seq<WriteRequest>, reads: nat, next: IrqNext|
        {
            &&& #[trigger] writes_step(
                device,
                at,
                requests,
                data,
                after,
                gives(data.read_sem.0, at.read, reads),
                next,
            )
            &&& count_after == count + times_given(calls_of(next), at.write)
        }
    ||| {
        &&& count > 0
        &&& count_after == count - 1
        &&& after.inner.write_dones@ == data.inner.write_dones@.drop_first()
    }
    ||| {
        &&& count_after == count
        &&& after.inner.write_dones@ == data.inner.write_dones@
    }
}

/// The count of the semaphore for writes is the number of buffers that are waiting, whatever the
/// handler and the user did since the port was made.  So a wait that takes the semaphore finds a
/// buffer, and the count stays within the limit of the semaphore.
pub proof fn law_write_sem_matches_dones<const WS: usize, const RS: usize>(
    device: Addr,
    at: SemAddrs,
    counts: Seq<nat>,
    states: Seq<IrqOuterData<WS, RS>>,
    i: int,
)
    requires
        at.read != at.write,
        counts.len() == states.len(),
        0 <= i < states.len(),
        counts[0] == 0,
        states[0].inner.write_dones@.len() == 0,
        forall|k: int|
            0 <= k < states.len() - 1 ==> write_step(
                device,
                at,
                counts[k],
                #[trigger] states[k],
                counts[k + 1],
                states[k + 1],
            ),
    ensures
        counts[i] == states[i].inner.write_dones@.len(),
        states[i].wf() ==> counts[i] <= WS,
    decreases i,
{
    if i > 0 {
        law_write_sem_matches_dones(device, at, counts, states, i - 1);
        let before = states[i - 1];
        let after = states[i];
        assert(write_step(device, at, counts[i - 1], before, counts[i], after));
        if exists|requests: Seq<WriteRequest>, reads: nat, next: IrqNext|
            {
                &&& #[trigger] writes_step(
                    device,
                    at,
                    requests,
                    before,
                    after,
                    gives(before.read_sem.0, at.read, reads),
                    next,
                )
                &&& counts[i] == counts[i - 1] + times_given(calls_of(next), at.write)
            } {
            let (requests, reads, next) = choose|
                requests: Seq<WriteRequest>,
                reads: nat,
                next: IrqNext,
            |
                {
                    &&& #[trigger] writes_step(
                        device,
                        at,
                        requests,
                        before,
                        after,
                        gives(before.read_sem.0, at.read, reads),
                        next,
                    )
                    &&& counts[i] == counts[i - 1] + times_given(calls_of(next), at.write)
                };
            law_write_sem_counts_completions(device, at, requests, before, after, reads, next);
        }
    }
}

/// What is left to be written of requests, one after the other.
pub open spec fn pieces(requests: Seq<WriteRequest>) -> Seq<u8>
    decreases requests.len(),
{
    if requests.len() == 0 {
        Seq::empty()
    } else {
        requests.first().piece() + pieces(requests.drop_first())
    }
}

/// The contents of the buffers of requests.
pub open spec fn request_buffers(requests: Seq<WriteRequest>) -> Seq<Seq<u8>> {
    requests.map_values(|r: WriteRequest| r.data@)
}

/// The contents of the buffers of completions.
pub open spec fn done_buffers(dones: Seq<WriteDone>) -> Seq<Seq<u8>> {
    dones.map_values(|d: WriteDone| d.data@)
}

/// A run of the handler on the writes: the steps go from each of `states` to the one after it, and
/// what comes after each is in `nexts`.  After the first step, the port takes `counts` bytes of
/// what it was offered, at least one and no more than that each time.
pub open spec fn handler_run<const WS: usize, const RS: usize>(
    device: Addr,
    at: SemAddrs,
    reads: nat,
    states: Seq<IrqOuterData<WS, RS>>,
    nexts: Seq<IrqNext>,
    counts: Seq<nat>,
) -> bool {
    &&& nexts.len() == counts.len() + 1
    &&& states.len() == counts.len() + 2
    &&& forall|k: int| 0 <= k < states.len() ==> (#[trigger] states[k]).wf()
    &&& writes_step(
        device,
        at,
        states[0].inner.write_requests@,
        states[0],
        states[1],
        gives(states[0].read_sem.0, at.read, reads),
        nexts[0],
    )
    &&& forall|k: int|
        0 <= k < counts.len() ==> {
            &&& #[trigger] counts[k] >= 1
            &&& counts[k] <= states[k + 1].inner.write_requests@.first().piece().len()
            &&& nexts[k] is FifoFill
            &&& filled(device, at, states[k + 1], states[k + 2], counts[k], nexts[k + 1])
        }
}

/// The bytes that the port took in the first `n` of these times.
pub open spec fn bytes_taken<const WS: usize, const RS: usize>(
    states: Seq<IrqOuterData<WS, RS>>,
    counts: Seq<nat>,
    n: nat,
) -> Seq<u8>
    decreases n,
{
    if n == 0 {
        Seq::empty()
    } else {
        bytes_taken(states, counts, (n - 1) as nat)
            + states[n as int].inner.write_requests@.first().piece().take(counts[n - 1] as int)
    }
}

/// The bytes that the port took in the first `n` of these times: of the data in the last call of
/// the step before, as many as it counted.
pub open spec fn port_took(nexts: Seq<IrqNext>, counts: Seq<nat>, n: nat) -> Seq<u8>
    decreases n,
{
    if n == 0 {
        Seq::empty()
    } else {
        port_took(nexts, counts, (n - 1) as nat) + match nexts[n - 1] {
            IrqNext::FifoFill(calls) => match calls@.last() {
                Call::UartFifoFill { device, bytes } => bytes@.take(counts[n - 1] as int),
                _ => Seq::empty(),
            },
            _ => Seq::empty(),
        }
    }
}

/// How often the first `n` steps of a run give the semaphore at `addr`.
pub open spec fn total_given(nexts: Seq<IrqNext>, addr: Addr, n: nat) -> nat
    decreases n,
{
    if n == 0 {
        0
    } else {
        total_given(nexts, addr, (n - 1) as nat) + times_given(calls_of(nexts[n - 1]), addr)
    }
}

proof fn lemma_pieces_of_rest(requests: Seq<WriteRequest>)
    ensures
        pieces(requests.skip(leading_complete(requests) as int)) == pieces(requests),
    decreases requests.len(),
{
    if requests.len() == 0 || !requests.first().complete() {
        assert(requests.skip(0) =~= requests);
    } else {
        let rest = requests.drop_first();
        lemma_pieces_of_rest(rest);
        let n = leading_complete(rest) as int;
        lemma_leading_complete_bound(rest);
        assert(requests.skip(n + 1) =~= rest.skip(n));
        assert(requests.first().piece() + pieces(rest) =~= pieces(rest));
    }
}

proof fn lemma_pieces_are_parts(requests: Seq<WriteRequest>)
    ensures
        pieces(requests) == requests.map_values(
            |r: WriteRequest|
                if r.part.start < r.part.end {
                    r.data@.subrange(r.part.start as int, r.part.end as int)
                } else {
                    Seq::empty()
                },
        ).flatten(),
    decreases requests.len(),
{
    let part = |r: WriteRequest|
        if r.part.start < r.part.end {
            r.data@.subrange(r.part.start as int, r.part.end as int)
        } else {
            Seq::empty()
        };
    if requests.len() > 0 {
        let rest = requests.drop_first();
        lemma_pieces_are_parts(rest);
        assert(requests.map_values(part).drop_first() =~= rest.map_values(part));
        assert(requests.map_values(part).first() == part(requests.first()));
    }
}

/// What a step keeps: the bytes to be written, and the buffers.
proof fn lemma_writes_step<const WS: usize, const RS: usize>(
    device: Addr,
    at: SemAddrs,
    requests: Seq<WriteRequest>,
    before: IrqOuterData<WS, RS>,
    after: IrqOuterData<WS, RS>,
    prefix: Seq<Call>,
    next: IrqNext,
)
    requires
        writes_step(device, at, requests, before, after, prefix, next),
    ensures
        pieces(after.inner.write_requests@) == pieces(requests),
        done_buffers(after.inner.write_dones@) + request_buffers(after.inner.write_requests@)
            == done_buffers(before.inner.write_dones@) + request_buffers(requests),
        next is FifoFill <==> after.inner.write_requests@.len() > 0,
        next is Done <==> after.inner.write_requests@.len() == 0,
{
    let n = leading_complete(requests) as int;
    lemma_pieces_of_rest(requests);
    lemma_leading_complete_bound(requests);
    assert(requests =~= requests.take(n) + requests.skip(n));
    assert(done_buffers(after.inner.write_dones@) + request_buffers(
        after.inner.write_requests@,
    ) =~= done_buffers(before.inner.write_dones@) + request_buffers(requests));
}

/// What holds after the first step of a run and `n` more.
#[verifier::rlimit(60)]
#[verifier::spinoff_prover]
proof fn lemma_handler_run<const WS: usize, const RS: usize>(
    device: Addr,
    at: SemAddrs,
    reads: nat,
    states: Seq<IrqOuterData<WS, RS>>,
    nexts: Seq<IrqNext>,
    counts: Seq<nat>,
    n: nat,
)
    requires
        at.read != at.write,
        handler_run(device, at, reads, states, nexts, counts),
        n <= counts.len(),
    ensures
        ({
            let first = states[0].inner;
            let last = states[n as int + 1].inner;
            &&& bytes_taken(states, counts, n) + pieces(last.write_requests@) == pieces(
                first.write_requests@,
            )
            &&& bytes_taken(states, counts, n).len() >= n
            &&& done_buffers(last.write_dones@) + request_buffers(last.write_requests@)
                == done_buffers(first.write_dones@) + request_buffers(first.write_requests@)
            &&& last.write_dones@.len() == first.write_dones@.len() + total_given(
                nexts,
                at.write,
                n + 1,
            )
            &&& nexts[n as int] is FifoFill <==> last.write_requests@.len() > 0
            &&& nexts[n as int] is Done <==> last.write_requests@.len() == 0
            &&& port_took(nexts, counts, n) == bytes_taken(states, counts, n)
            &&& nexts[n as int] matches IrqNext::FifoFill(calls) ==> (calls@.last()
                matches Call::UartFifoFill { bytes, .. } && bytes@
                == last.write_requests@.first().piece())
        }),
    decreases n,
{
    let first = states[0].inner;
    if n == 0 {
        lemma_writes_step(
            device,
            at,
            first.write_requests@,
            states[0],
            states[1],
            gives(states[0].read_sem.0, at.read, reads),
            nexts[0],
        );
        law_write_sem_counts_completions(
            device,
            at,
            first.write_requests@,
            states[0],
            states[1],
            reads,
            nexts[0],
        );
        assert(total_given(nexts, at.write, 0) == 0);
        assert(bytes_taken(states, counts, 0) + pieces(states[1].inner.write_requests@)
            =~= pieces(first.write_requests@));
    } else {
        let k = n - 1;
        lemma_handler_run(device, at, reads, states, nexts, counts, k as nat);
        let before = states[n as int];
        let after = states[n as int + 1];
        let queued = before.inner.write_requests@;
        let count = counts[k];
        assert(filled(device, at, before, after, count, nexts[n as int]));
        let head = choose|head: WriteRequest|
            {
                &&& head.advanced(queued.first(), count)
                &&& #[trigger] writes_step(
                    device,
                    at,
                    seq![head] + queued.drop_first(),
                    before,
                    after,
                    Seq::empty(),
                    nexts[n as int],
                )
            };
        let requests = seq![head] + queued.drop_first();
        lemma_writes_step(device, at, requests, before, after, Seq::empty(), nexts[n as int]);
        assert(gives(before.read_sem.0, at.read, 0) =~= Seq::<Call>::empty());
        law_write_sem_counts_completions(
            device,
            at,
            requests,
            before,
            after,
            0,
            nexts[n as int],
        );
        assert(before.wf() && queued[0].wf());
        let piece = queued.first().piece();
        assert(head.piece() =~= piece.skip(count as int));
        assert(requests.drop_first() =~= queued.drop_first());
        assert(requests.first() == head);
        let taken = bytes_taken(states, counts, k as nat);
        assert(taken + piece.take(count as int) + (head.piece() + pieces(queued.drop_first()))
            =~= taken + (piece + pieces(queued.drop_first())));
        assert(request_buffers(requests) =~= request_buffers(queued));
    }
}

/// A whole run of the handler, in which the port takes at least one byte each time that it is
/// offered some.  At its end no request is left.  The buffers of the requests were added to the
/// completions, unchanged and in their order.  The port took exactly the bytes that were requested,
/// each once and in their order.  The semaphore was given once for each completion, so where its
/// count was the number of completions, it still is.  The run ends after no more turns than there
/// were bytes.
pub proof fn law_handler_run_completes_writes<const WS: usize, const RS: usize>(
    device: Addr,
    at: SemAddrs,
    reads: nat,
    states: Seq<IrqOuterData<WS, RS>>,
    nexts: Seq<IrqNext>,
    counts: Seq<nat>,
    sem_count: nat,
)
    requires
        at.read != at.write,
        handler_run(device, at, reads, states, nexts, counts),
        nexts.last() is Done,
        sem_count == states[0].inner.write_dones@.len(),
    ensures
        ({
            let first = states[0].inner;
            let last = states.last().inner;
            let given = total_given(nexts, at.write, nexts.len());
            &&& last.write_requests@.len() == 0
            &&& done_buffers(last.write_dones@) == done_buffers(first.write_dones@)
                + request_buffers(first.write_requests@)
            &&& port_took(nexts, counts, counts.len()) == first.write_requests@.map_values(
                |r: WriteRequest|
                    if r.part.start < r.part.end {
                        r.data@.subrange(r.part.start as int, r.part.end as int)
                    } else {
                        Seq::empty()
                    },
            ).flatten()
            &&& bytes_taken(states, counts, counts.len()) == pieces(first.write_requests@)
            &&& given == first.write_requests@.len()
            &&& sem_count + given == last.write_dones@.len()
            &&& counts.len() <= pieces(first.write_requests@).len()
            &&& counts.len() <= port_took(nexts, counts, counts.len()).len()
        }),
{
    let n = counts.len();
    lemma_handler_run(device, at, reads, states, nexts, counts, n);
    let first = states[0].inner;
    let last = states.last().inner;
    assert(request_buffers(last.write_requests@) =~= Seq::<Seq<u8>>::empty());
    assert(done_buffers(last.write_dones@) =~= done_buffers(last.write_dones@) + request_buffers(
        last.write_requests@,
    ));
    assert(bytes_taken(states, counts, n) =~= bytes_taken(states, counts, n) + pieces(
        last.write_requests@,
    ));
    lemma_pieces_are_parts(first.write_requests@);
    assert(done_buffers(last.write_dones@).len() == last.write_dones@.len());
    assert((done_buffers(first.write_dones@) + request_buffers(first.write_requests@)).len()
        == first.write_dones@.len() + first.write_requests@.len());
}

/// A run of the handler can always go on: there is room for every completion, so that a step that
/// the port's answer asks for is allowed.
pub proof fn law_handler_run_has_room<const WS: usize, const RS: usize>(
    device: Addr,
    at: SemAddrs,
    reads: nat,
    states: Seq<IrqOuterData<WS, RS>>,
    nexts: Seq<IrqNext>,
    counts: Seq<nat>,
    n: nat,
)
    requires
        at.read != at.write,
        handler_run(device, at, reads, states, nexts, counts),
        n <= counts.len(),
        states[0].inner.write_requests@.len() + states[0].inner.write_dones@.len() <= WS,
        nexts[n as int] is FifoFill,
    ensures
        ({
            let inner = states[n as int + 1].inner;
            let queued = inner.write_requests@;
            &&& queued.len() > 0
            &&& inner.write_dones@.len() + 1 + leading_complete(queued.drop_first()) <= WS
        }),
{
    lemma_handler_run(device, at, reads, states, nexts, counts, n);
    let first = states[0].inner;
    let last = states[n as int + 1].inner;
    assert((done_buffers(first.write_dones@) + request_buffers(first.write_requests@)).len()
        == first.write_dones@.len() + first.write_requests@.len());
    assert((done_buffers(last.write_dones@) + request_buffers(last.write_requests@)).len()
        == last.write_dones@.len() + last.write_requests@.len());
    lemma_leading_complete_bound(last.write_requests@.drop_first());
}

/// The bytes that one read delivers come before those that the next one does, in the order in which
/// they were received.
pub proof fn law_reads_in_order(
    ring: Seq<u8>,
    middle: Seq<u8>,
    last: Seq<u8>,
    buf: Seq<u8>,
    buf_after: Seq<u8>,
    other: Seq<u8>,
    other_after: Seq<u8>,
    n: int,
    m: int,
)
    requires
        read_result(ring, middle, buf, buf_after, n),
        read_result(middle, last, other, other_after, m),
    ensures
        buf_after.take(n) + other_after.take(m) + last == ring,
{
    assert(buf_after.take(n) =~= ring.take(n));
    assert(other_after.take(m) =~= middle.take(m));
    assert(buf_after.take(n) + other_after.take(m) + last =~= ring);
}

/// The handler starts by reading one byte.
pub proof fn law_handler_starts_with_read(device: Addr, r: (IrqCallback, IrqNext))
    requires
        call_ensures(IrqCallback::irq_callback, (device,), r),
    ensures
        r.0.device == device,
        !r.0.did_read,
        r.1 matches IrqNext::FifoRead(calls) && calls@ == seq![
            Call::UartFifoRead { device, size: 1 },
        ],
{
}

/// A byte that was read comes last in the ring, unless 256 are in it already.  The writes are not
/// touched, and another byte is read.
pub proof fn law_received_byte_is_kept<const WS: usize, const RS: usize>(
    run: &mut IrqCallback,
    outer: &mut IrqOuterData<WS, RS>,
    at: SemAddrs,
    byte: u8,
    next: IrqNext,
)
    requires
        call_ensures(IrqCallback::on_read::<WS, RS>, (run, outer, at, 1i32, byte), next),
    ensures
        ring_bytes(final(outer).inner.buffer) == if ring_bytes(
            old(outer).inner.buffer,
        ).len() < 256 {
            ring_bytes(old(outer).inner.buffer).push(byte)
        } else {
            ring_bytes(old(outer).inner.buffer)
        },
        final(run).did_read,
        final(run).device == old(run).device,
        final(outer).inner.write_requests@ == old(outer).inner.write_requests@,
        final(outer).inner.write_dones@ == old(outer).inner.write_dones@,
        next matches IrqNext::FifoRead(calls) && calls@ == seq![
            Call::UartFifoRead { device: old(run).device, size: 1 },
        ],
{
}

/// What the port is offered after a step is, byte for byte, what is left of the requested part of
/// the buffer that is first in the queue.  Where nothing is left in the queue, the interrupt for
/// output is turned off, and the run ends.  The requests that had nothing left have moved, with
/// their buffers unchanged and in their order, from the head of the queue to the end of the
/// completions, and the semaphore was given once for each.  `count` is what the port took of the
/// first request before.
pub open spec fn offers_requested_bytes<const WS: usize, const RS: usize>(
    device: Addr,
    at: SemAddrs,
    before: IrqOuterData<WS, RS>,
    after: IrqOuterData<WS, RS>,
    count: nat,
    next: IrqNext,
) -> bool {
    let old_requests = before.inner.write_requests@;
    let requests = after.inner.write_requests@;
    let old_dones = before.inner.write_dones@;
    let dones = after.inner.write_dones@;
    let n = old_requests.len() - requests.len();
    &&& 0 <= n <= old_requests.len()
    &&& dones.len() == old_dones.len() + n
    &&& forall|i: int| 0 <= i < old_dones.len() ==> #[trigger] dones[i] == old_dones[i]
    &&& forall|i: int|
        0 <= i < n ==> {
            &&& (#[trigger] old_requests[i]).part.start + (if i == 0 {
                count
            } else {
                0
            }) >= old_requests[i].part.end
            &&& dones[old_dones.len() + i].data@ == old_requests[i].data@
        }
    &&& forall|i: int|
        0 <= i < requests.len() ==> {
            &&& (#[trigger] requests[i]).data@ == old_requests[i + n].data@
            &&& requests[i].part.end == old_requests[i + n].part.end
            &&& requests[i].part.start == old_requests[i + n].part.start + if i + n == 0 {
                count
            } else {
                0
            }
        }
    &&& times_given(calls_of(next), at.write) == n
    &&& if requests.len() > 0 {
        let head = requests[0];
        &&& head.part.start < head.part.end <= head.data@.len()
        &&& next matches IrqNext::FifoFill(calls)
        &&& calls@.len() > 0
        &&& calls@.last() matches Call::UartFifoFill { device: d, bytes }
        &&& d == device
        &&& bytes@ == head.data@.subrange(head.part.start as int, head.part.end as int)
    } else {
        &&& next matches IrqNext::Done(calls)
        &&& calls@.len() >= 2
        &&& calls@[calls@.len() - 2] == (Call::UartIrqTxDisable { device })
        &&& calls@.last() == (Call::UartIrqUpdate { device })
    }
}

proof fn lemma_offers<const WS: usize, const RS: usize>(
    device: Addr,
    at: SemAddrs,
    requests: Seq<WriteRequest>,
    before: IrqOuterData<WS, RS>,
    after: IrqOuterData<WS, RS>,
    reads: nat,
    count: nat,
    next: IrqNext,
)
    requires
        at.read != at.write,
        after.wf(),
        requests.len() == before.inner.write_requests@.len(),
        requests.len() > 0 ==> requests[0].advanced(before.inner.write_requests@[0], count),
        forall|i: int|
            1 <= i < requests.len() ==> #[trigger] requests[i]
                == before.inner.write_requests@[i],
        writes_step(
            device,
            at,
            requests,
            before,
            after,
            gives(before.read_sem.0, at.read, reads),
            next,
        ),
    ensures
        offers_requested_bytes(device, at, before, after, count, next),
{
    let n = leading_complete(requests) as int;
    lemma_leading_complete_bound(requests);
    law_write_sem_counts_completions(device, at, requests, before, after, reads, next);
    let after_requests = after.inner.write_requests@;
    let queued = before.inner.write_requests@;
    let dones = after.inner.write_dones@;
    let old_dones = before.inner.write_dones@;
    assert forall|i: int| 0 <= i < requests.len() implies {
        &&& (#[trigger] queued[i]).data@ == requests[i].data@
        &&& queued[i].part.end == requests[i].part.end
        &&& requests[i].part.start == queued[i].part.start + if i == 0 {
            count
        } else {
            0
        }
    } by {
        if i > 0 {
            assert(requests[i] == queued[i]);
        }
    }
    assert forall|i: int| 0 <= i < n implies {
        &&& (#[trigger] queued[i]).part.start + (if i == 0 {
            count
        } else {
            0
        }) >= queued[i].part.end
        &&& dones[old_dones.len() + i].data@ == queued[i].data@
    } by {
        assert(requests[i].complete());
        assert(completions(requests.take(n))[i] == (WriteDone { data: requests[i].data }));
    }
    assert forall|i: int| 0 <= i < after_requests.len() implies {
        &&& (#[trigger] after_requests[i]).data@ == queued[i + n].data@
        &&& after_requests[i].part.end == queued[i + n].part.end
        &&& after_requests[i].part.start == queued[i + n].part.start + if i + n == 0 {
            count
        } else {
            0
        }
    } by {
        assert(after_requests[i] == requests[i + n]);
        assert(queued[i + n].data@ == requests[i + n].data@);
    }
    if after_requests.len() > 0 {
        assert(after_requests[0] == requests[n]);
        assert(after_requests[0].wf());
    }
}

/// The reading ended: the writes are worked on, see [`offers_requested_bytes`].  Where a byte was
/// read, the semaphore for reads is given once.
pub proof fn law_end_of_reading_offers_bytes<const WS: usize, const RS: usize>(
    run: &mut IrqCallback,
    outer: &mut IrqOuterData<WS, RS>,
    at: SemAddrs,
    byte: u8,
    next: IrqNext,
)
    requires
        at.read != at.write,
        call_ensures(IrqCallback::on_read::<WS, RS>, (run, outer, at, 0i32, byte), next),
    ensures
        offers_requested_bytes(old(run).device, at, *old(outer), *final(outer), 0, next),
        next matches IrqNext::FifoFill(calls) ==> {
            let head = final(outer).inner.write_requests@[0];
            &&& final(outer).inner.write_requests@.len() > 0
            &&& calls@.last() matches Call::UartFifoFill { device, bytes }
            &&& device == old(run).device
            &&& bytes@ == head.data@.subrange(head.part.start as int, head.part.end as int)
        },
        times_given(calls_of(next), at.read) == if old(run).did_read {
            1nat
        } else {
            0
        },
        ring_bytes(final(outer).inner.buffer) == ring_bytes(old(outer).inner.buffer),
{
    let reads: nat = if old(run).did_read {
        1
    } else {
        0
    };
    let requests = old(outer).inner.write_requests@;
    lemma_offers(
        old(run).device,
        at,
        requests,
        *old(outer),
        *final(outer),
        reads,
        0,
        next,
    );
    lemma_read_gives(old(run).device, at, requests, *old(outer), *final(outer), reads, next);
}

proof fn lemma_read_gives<const WS: usize, const RS: usize>(
    device: Addr,
    at: SemAddrs,
    requests: Seq<WriteRequest>,
    before: IrqOuterData<WS, RS>,
    after: IrqOuterData<WS, RS>,
    reads: nat,
    next: IrqNext,
)
    requires
        at.read != at.write,
        writes_step(
            device,
            at,
            requests,
            before,
            after,
            gives(before.read_sem.0, at.read, reads),
            next,
        ),
    ensures
        times_given(calls_of(next), at.read) == reads,
{
    let n = leading_complete(requests);
    let prefix = gives(before.read_sem.0, at.read, reads);
    let given = gives(before.write_sem.0, at.write, n);
    lemma_leading_complete_bound(requests);
    lemma_times_given_gives(before.read_sem.0, at.read, at.read, reads);
    lemma_times_given_gives(before.write_sem.0, at.write, at.read, n);
    lemma_times_given_concat(prefix, given, at.read);
    if n >= requests.len() {
        let end = seq![Call::UartIrqTxDisable { device }, Call::UartIrqUpdate { device }];
        assert(end.drop_last().drop_last() =~= Seq::empty());
        assert(times_given(end.drop_last().drop_last(), at.read) == 0);
        assert(times_given(end.drop_last(), at.read) == 0);
        assert(times_given(end, at.read) == 0);
        lemma_times_given_concat(prefix + given, end, at.read);
    }
}

/// The port took `count` bytes of the first request: the writes are worked on, see
/// [`offers_requested_bytes`].
pub proof fn law_taken_bytes_are_not_offered_again<const WS: usize, const RS: usize>(
    run: &mut IrqCallback,
    outer: &mut IrqOuterData<WS, RS>,
    at: SemAddrs,
    count: i32,
    next: IrqNext,
)
    requires
        at.read != at.write,
        count >= 0,
        old(outer).inner.write_requests@.len() > 0,
        call_ensures(IrqCallback::on_fill::<WS, RS>, (run, outer, at, count), next),
    ensures
        offers_requested_bytes(
            old(run).device,
            at,
            *old(outer),
            *final(outer),
            count as nat,
            next,
        ),
        next matches IrqNext::FifoFill(calls) ==> {
            let head = final(outer).inner.write_requests@[0];
            &&& final(outer).inner.write_requests@.len() > 0
            &&& calls@.last() matches Call::UartFifoFill { device, bytes }
            &&& device == old(run).device
            &&& bytes@ == head.data@.subrange(head.part.start as int, head.part.end as int)
        },
        ring_bytes(final(outer).inner.buffer) == ring_bytes(old(outer).inner.buffer),
{
    let before = *old(outer);
    let after = *final(outer);
    let device = old(run).device;
    let queued = before.inner.write_requests@;
    assert(filled(device, at, before, after, count as nat, next));
    let head = choose|head: WriteRequest|
        {
            &&& head.advanced(queued.first(), count as nat)
            &&& #[trigger] writes_step(
                device,
                at,
                seq![head] + queued.drop_first(),
                before,
                after,
                Seq::empty(),
                next,
            )
        };
    assert(gives(before.read_sem.0, at.read, 0) =~= Seq::<Call>::empty());
    lemma_offers(
        device,
        at,
        seq![head] + queued.drop_first(),
        before,
        after,
        0,
        count as nat,
        next,
    );
}

/// A read hands out the oldest bytes of the ring, in their order: as many as there are and as the
/// buffer has room for.  The others stay in the ring, and the rest of the buffer as it is.
pub open spec fn oldest_bytes_read(
    ring: Seq<u8>,
    ring_after: Seq<u8>,
    buf: Seq<u8>,
    buf_after: Seq<u8>,
    count: int,
) -> bool {
    &&& count == ring.len() && count <= buf.len() || count == buf.len() && count <= ring.len()
    &&& buf_after.len() == buf.len()
    &&& forall|i: int| 0 <= i < count ==> #[trigger] buf_after[i] == ring[i]
    &&& forall|i: int| count <= i < buf.len() ==> #[trigger] buf_after[i] == buf[i]
    &&& ring_after.len() == ring.len() - count
    &&& forall|i: int| 0 <= i < ring_after.len() ==> #[trigger] ring_after[i] == ring[i + count]
}

/// The two tries of a read, see [`oldest_bytes_read`].  The first waits for the time that was given
/// where there is nothing to read, and both take the semaphore for reads without waiting where
/// there is.
pub proof fn law_reads_hand_out_oldest<const WS: usize, const RS: usize>(
    irq: &mut UartIrq<WS, RS>,
    buf: &mut [u8],
    timeout: Timeout,
    at: SemAddrs,
    step: ReadStep,
    again: &mut UartIrq<WS, RS>,
    other: &mut [u8],
    r: (usize, Vec<Call>),
)
    requires
        call_ensures(UartIrq::<WS, RS>::try_read, (irq, buf, timeout, at), step),
        call_ensures(UartIrq::<WS, RS>::try_read_again, (again, other, at), r),
    ensures
        match step {
            ReadStep::Done(count, calls) => {
                &&& count > 0
                &&& oldest_bytes_read(
                    ring_bytes(old(irq).data.inner.buffer),
                    ring_bytes(final(irq).data.inner.buffer),
                    old(buf)@,
                    final(buf)@,
                    count as int,
                )
                &&& calls@.last() == (Call::SemTake { sem: at.read, timeout: Timeout(0) })
            },
            ReadStep::Wait(calls) => {
                &&& ring_bytes(old(irq).data.inner.buffer).len() == 0 || old(buf)@.len() == 0
                &&& oldest_bytes_read(
                    ring_bytes(old(irq).data.inner.buffer),
                    ring_bytes(final(irq).data.inner.buffer),
                    old(buf)@,
                    final(buf)@,
                    0,
                )
                &&& calls@.last() == (Call::SemTake { sem: at.read, timeout })
            },
        },
        oldest_bytes_read(
            ring_bytes(old(again).data.inner.buffer),
            ring_bytes(final(again).data.inner.buffer),
            old(other)@,
            final(other)@,
            r.0 as int,
        ),
        forall|i: int|
            0 <= i < r.0 ==> #[trigger] final(other)@[i] == ring_bytes(
                old(again).data.inner.buffer,
            )[i],
        step matches ReadStep::Done(count, _) ==> forall|i: int|
            0 <= i < count ==> #[trigger] final(buf)@[i] == ring_bytes(
                old(irq).data.inner.buffer,
            )[i],
        r.0 > 0 ==> r.1@.last() == (Call::SemTake { sem: at.read, timeout: Timeout(0) }),
        r.0 == 0 ==> r.1@.len() == 0,
{
}

/// A write is queued behind the others, with its buffer and its part as they are, unless as many as
/// there is room for are queued.  Then the buffer comes back as it is.  The first one turns the
/// interrupt for output on.
pub proof fn law_write_is_queued<const WS: usize, const RS: usize>(
    irq: &mut UartIrq<WS, RS>,
    data: Vec<u8>,
    part: Range<usize>,
    r: Result<Option<Call>, WriteError>,
)
    requires
        call_ensures(UartIrq::<WS, RS>::write_enqueue, (irq, data, part), r),
    ensures
        ({
            let queued = old(irq).data.inner.write_requests@;
            let after = final(irq).data.inner.write_requests@;
            if queued.len() == WS {
                &&& r matches Err(e) && e.0@ == data@
                &&& after == queued
            } else {
                &&& after.len() == queued.len() + 1
                &&& forall|i: int| 0 <= i < queued.len() ==> #[trigger] after[i] == queued[i]
                &&& after.last().data@ == data@
                &&& after.last().part.start == part.start
                &&& after.last().part.end == part.end
                &&& r matches Ok(call)
                &&& call == if queued.len() == 0 {
                    Some(Call::UartIrqTxEnable { device: old(irq).uart.device })
                } else {
                    None
                }
            }
        }),
{
}

/// Waiting for a write takes the semaphore for writes, for the time that was given.  Where that
/// succeeds, the buffer of the oldest completion comes back as it is, and that completion is gone.
/// Where it fails, nothing is gone.
pub proof fn law_write_wait_hands_buffer_back<const WS: usize, const RS: usize>(
    irq: &mut UartIrq<WS, RS>,
    timeout: Timeout,
    at: SemAddrs,
    calls: Vec<Call>,
    then: &mut UartIrq<WS, RS>,
    code: i32,
    r: Result<Vec<u8>, WriteWaitTimedOut>,
)
    requires
        call_ensures(UartIrq::<WS, RS>::write_wait, (irq, timeout, at), calls),
        call_ensures(UartIrq::<WS, RS>::write_wait_done, (then, code), r),
        code >= 0 ==> old(then).data.inner.write_dones@.len() > 0,
    ensures
        calls@.last() == (Call::SemTake { sem: at.write, timeout }),
        r is Ok <==> code >= 0,
        ({
            let dones = old(then).data.inner.write_dones@;
            let after = final(then).data.inner.write_dones@;
            if code >= 0 {
                &&& r matches Ok(data) && data@ == dones[0].data@
                &&& after.len() == dones.len() - 1
                &&& forall|i: int| 0 <= i < after.len() ==> #[trigger] after[i] == dones[i + 1]
            } else {
                after == dones
            }
        }),
{
}

/// A new port has received nothing, has no writes, and has its two semaphores unused and at zero,
/// which count up to the numbers of reads and of writes, in 32 bits.  Its handler is set before its
/// input is enabled.
pub proof fn law_new_port_is_empty<const WS: usize, const RS: usize>(
    uart: Uart,
    callback: Addr,
    user_data: Addr,
    made: (UartIrqSetup<WS, RS>, Call),
    code: i32,
    r: Result<(UartIrq<WS, RS>, Call), Error>,
)
    requires
        call_ensures(UartIrq::<WS, RS>::new, (uart, callback, user_data), made),
        call_ensures(UartIrq::<WS, RS>::new_done, (made.0, code), r),
    ensures
        made.1 == (Call::UartIrqCallbackSet { device: uart.device, callback, user_data }),
        code < 0 ==> (r matches Err(e) && e.0 == -code),
        code >= 0 ==> {
            &&& r matches Ok((irq, call))
            &&& call == (Call::UartIrqRxEnable { device: uart.device })
            &&& irq.uart == uart
            &&& ring_bytes(irq.data.inner.buffer).len() == 0
            &&& irq.data.inner.write_requests@.len() == 0
            &&& irq.data.inner.write_dones@.len() == 0
            &&& irq.data.read_sem.0.state == 0 && irq.data.write_sem.0.state == 0
            &&& irq.data.read_sem.0.object.count == 0 && irq.data.write_sem.0.object.count == 0
            &&& irq.data.read_sem.0.object.limit == RS as int % 0x1_0000_0000
            &&& irq.data.write_sem.0.object.limit == WS as int % 0x1_0000_0000
        },
{
    let reads = RS as u64;
    let writes = WS as u64;
    assert(reads as u32 == reads % 0x1_0000_0000) by (bit_vector);
    assert(writes as u32 == writes % 0x1_0000_0000) by (bit_vector);
}

/// Whether a call gives one of the two semaphores, or initialises it as it was made.
pub open spec fn gives_semaphore<const WS: usize, const RS: usize>(
    at: SemAddrs,
    before: IrqOuterData<WS, RS>,
    call: Call,
) -> bool {
    let read = before.read_sem.0;
    let write = before.write_sem.0;
    ||| call == (Call::SemGive { sem: at.read })
    ||| call == (Call::SemGive { sem: at.write })
    ||| read.state == 0 && call == (Call::SemInit {
        sem: at.read,
        initial_count: read.object.count,
        limit: read.object.limit,
    })
    ||| write.state == 0 && call == (Call::SemInit {
        sem: at.write,
        initial_count: write.object.count,
        limit: write.object.limit,
    })
}

proof fn lemma_gives_only(sem: ZephyrObject<KSem>, addr: Addr, n: nat, i: int)
    requires
        addr != 0,
        0 <= i < gives(sem, addr, n).len(),
    ensures
        gives(sem, addr, n)[i] == (Call::SemGive { sem: addr }) || (sem.state == 0 && gives(
            sem,
            addr,
            n,
        )[i] == (Call::SemInit {
            sem: addr,
            initial_count: sem.object.count,
            limit: sem.object.limit,
        })),
    decreases n,
{
    if n > 0 {
        let first = sem.get_calls(addr).push(Call::SemGive { sem: addr });
        if i >= first.len() {
            lemma_gives_only(sem.after_get(addr), addr, (n - 1) as nat, i - first.len());
        }
    }
}

/// A step of the handler makes no other calls than it has to: before the data goes to the port, or
/// the interrupt for output is turned off, it only gives the two semaphores.
pub proof fn law_handler_only_gives_before<const WS: usize, const RS: usize>(
    run: &mut IrqCallback,
    outer: &mut IrqOuterData<WS, RS>,
    at: SemAddrs,
    byte: u8,
    count: i32,
    next: IrqNext,
    i: int,
)
    requires
        at.read != 0 && at.write != 0,
        call_ensures(IrqCallback::on_read::<WS, RS>, (run, outer, at, 0i32, byte), next) || (count
            >= 0 && old(outer).inner.write_requests@.len() > 0 && call_ensures(
            IrqCallback::on_fill::<WS, RS>,
            (run, outer, at, count),
            next,
        )),
        0 <= i < calls_of(next).len(),
    ensures
        next is FifoFill && i < calls_of(next).len() - 1 ==> gives_semaphore(
            at,
            *old(outer),
            calls_of(next)[i],
        ),
        next is Done && i < calls_of(next).len() - 2 ==> gives_semaphore(
            at,
            *old(outer),
            calls_of(next)[i],
        ),
        next is FifoFill || next is Done,
        final(run).device == old(run).device,
        final(run).did_read == old(run).did_read,
{
    let before = *old(outer);
    let after = *final(outer);
    let device = old(run).device;
    let queued = before.inner.write_requests@;
    if call_ensures(IrqCallback::on_read::<WS, RS>, (run, outer, at, 0i32, byte), next) {
        let reads: nat = if old(run).did_read {
            1
        } else {
            0
        };
        lemma_step_gives_only(device, at, queued, before, after, reads, next, i);
    } else {
        assert(filled(device, at, before, after, count as nat, next));
        let head = choose|head: WriteRequest|
            {
                &&& head.advanced(queued.first(), count as nat)
                &&& #[trigger] writes_step(
                    device,
                    at,
                    seq![head] + queued.drop_first(),
                    before,
                    after,
                    Seq::empty(),
                    next,
                )
            };
        assert(gives(before.read_sem.0, at.read, 0) =~= Seq::<Call>::empty());
        lemma_step_gives_only(
            device,
            at,
            seq![head] + queued.drop_first(),
            before,
            after,
            0,
            next,
            i,
        );
    }
}

proof fn lemma_step_gives_only<const WS: usize, const RS: usize>(
    device: Addr,
    at: SemAddrs,
    requests: Seq<WriteRequest>,
    before: IrqOuterData<WS, RS>,
    after: IrqOuterData<WS, RS>,
    reads: nat,
    next: IrqNext,
    i: int,
)
    requires
        at.read != 0 && at.write != 0,
        writes_step(
            device,
            at,
            requests,
            before,
            after,
            gives(before.read_sem.0, at.read, reads),
            next,
        ),
        0 <= i < calls_of(next).len(),
    ensures
        next is FifoFill || next is Done,
        next is FifoFill && i < calls_of(next).len() - 1 ==> gives_semaphore(
            at,
            before,
            calls_of(next)[i],
        ),
        next is Done && i < calls_of(next).len() - 2 ==> gives_semaphore(
            at,
            before,
            calls_of(next)[i],
        ),
{
    let n = leading_complete(requests);
    let read = gives(before.read_sem.0, at.read, reads);
    let write = gives(before.write_sem.0, at.write, n);
    let calls = read + write;
    if i < calls.len() {
        if next is FifoFill {
            assert(calls_of(next)[i] == calls_of(next).drop_last()[i]);
        }
        if i < read.len() {
            assert(calls[i] == read[i]);
            lemma_gives_only(before.read_sem.0, at.read, reads, i);
        } else {
            assert(calls[i] == write[i - read.len()]);
            lemma_gives_only(before.write_sem.0, at.write, n, i - read.len());
        }
    }
}

} // verus!
