//! A transport over the kernel's HCI RAW channel.
//!
//! In RAW mode the controller belongs to the caller and not to the kernel's Bluetooth host.
//! Packets have their kind as the first byte.
use crate::raw::{Addr, Call, EAGAIN, ENOMEM};
use crate::sys::{K_FOREVER, K_NO_WAIT};
use crate::text::{append_decimal, decimal};
use crate::time::Timeout;
use bt_hci::FromHciBytes;
use vstd::prelude::*;
use vstd::string::*;

verus! {

/// The largest packet, with its kind.
pub const MAX_PACKET_SIZE: usize = 258;

/// The kind of a packet.
#[derive(Clone, Copy, Debug, PartialEq, Eq, Structural)]
pub enum PacketKind {
    /// A command.
    Cmd,
    /// Asynchronous data.
    AclData,
    /// Synchronous data.
    SyncData,
    /// An event.
    Event,
    /// Isochronous data.
    IsoData,
}

/// Why a packet could not be decoded.
#[derive(Clone, Copy, Debug, PartialEq, Eq, Structural)]
pub enum DecodeError {
    /// It has the wrong size.
    InvalidSize,
    /// It holds a value that is not valid.
    InvalidValue,
}

/// The kernel's buffer types for packets to the controller.
#[derive(Clone, Copy, Debug, PartialEq, Eq, Structural)]
pub enum BufType {
    /// `BT_BUF_CMD`
    Cmd,
    /// `BT_BUF_ACL_OUT`
    AclOut,
}

/// The errors of the transport.
#[derive(Clone, Copy, Debug, PartialEq, Eq, Structural)]
pub enum Error {
    /// The kernel refused an operation.
    Zephyr(u32),
    /// RAW mode was enabled before.
    AlreadyEnabled,
    /// A buffer cannot hold the packet.
    BufferTooSmall,
    /// Packets of this kind are not supported.
    UnsupportedPacket(PacketKind),
    /// The packet could not be decoded.
    Decode(DecodeError),
}

/// Sorts of errors.
#[derive(Clone, Copy, Debug, PartialEq, Eq, Structural)]
pub enum ErrorKind {
    /// None of the others.
    Other,
    /// Something exists already.
    AlreadyExists,
    /// There is not enough memory.
    OutOfMemory,
    /// The input is not valid.
    InvalidInput,
}

impl PacketKind {
    /// The name of the kind.
    pub open spec fn name(self) -> Seq<char> {
        match self {
            PacketKind::Cmd => "Cmd"@,
            PacketKind::AclData => "AclData"@,
            PacketKind::SyncData => "SyncData"@,
            PacketKind::Event => "Event"@,
            PacketKind::IsoData => "IsoData"@,
        }
    }

    fn as_str(&self) -> (r: &'static str)
        ensures
            r@ == self.name(),
    {
        match self {
            PacketKind::Cmd => "Cmd",
            PacketKind::AclData => "AclData",
            PacketKind::SyncData => "SyncData",
            PacketKind::Event => "Event",
            PacketKind::IsoData => "IsoData",
        }
    }
}

impl DecodeError {
    /// The name of the error.
    pub open spec fn name(self) -> Seq<char> {
        match self {
            DecodeError::InvalidSize => "InvalidSize"@,
            DecodeError::InvalidValue => "InvalidValue"@,
        }
    }

    fn as_str(&self) -> (r: &'static str)
        ensures
            r@ == self.name(),
    {
        match self {
            DecodeError::InvalidSize => "InvalidSize",
            DecodeError::InvalidValue => "InvalidValue",
        }
    }
}

impl Error {
    /// The sort of the error.
    pub open spec fn sort(self) -> ErrorKind {
        match self {
            Error::Zephyr(_) => ErrorKind::Other,
            Error::AlreadyEnabled => ErrorKind::AlreadyExists,
            Error::BufferTooSmall => ErrorKind::OutOfMemory,
            Error::UnsupportedPacket(_) => ErrorKind::InvalidInput,
            Error::Decode(_) => ErrorKind::InvalidInput,
        }
    }

    /// The sort of the error.
    pub fn kind(&self) -> (r: ErrorKind)
        ensures
            r == self.sort(),
    {
        match self {
            Error::Zephyr(_) => ErrorKind::Other,
            Error::AlreadyEnabled => ErrorKind::AlreadyExists,
            Error::BufferTooSmall => ErrorKind::OutOfMemory,
            Error::UnsupportedPacket(_) => ErrorKind::InvalidInput,
            Error::Decode(_) => ErrorKind::InvalidInput,
        }
    }

    /// The text of the error.
    pub open spec fn text(self) -> Seq<char> {
        match self {
            Error::Zephyr(code) => "Zephyr("@ + decimal(code as nat) + ")"@,
            Error::AlreadyEnabled => "AlreadyEnabled"@,
            Error::BufferTooSmall => "BufferTooSmall"@,
            Error::UnsupportedPacket(kind) => "UnsupportedPacket("@ + kind.name() + ")"@,
            Error::Decode(e) => "Decode("@ + e.name() + ")"@,
        }
    }

    /// The text of the error.
    pub fn to_string(&self) -> (r: String)
        ensures
            r@ == self.text(),
    {
        let mut s = String::new();
        match self {
            Error::Zephyr(code) => {
                s.append("Zephyr(");
                append_decimal(&mut s, *code);
                s.append(")");
            },
            Error::AlreadyEnabled => {
                s.append("AlreadyEnabled");
            },
            Error::BufferTooSmall => {
                s.append("BufferTooSmall");
            },
            Error::UnsupportedPacket(kind) => {
                s.append("UnsupportedPacket(");
                s.append(kind.as_str());
                s.append(")");
            },
            Error::Decode(e) => {
                s.append("Decode(");
                s.append(e.as_str());
                s.append(")");
            },
        }
        assert(s@ =~= self.text());
        s
    }
}

/// The error of a return code that is negative.
pub open spec fn zephyr_error(code: i32) -> Error {
    Error::Zephyr((-code) as u32)
}

fn to_zephyr_error(code: i32) -> (r: Error)
    requires
        code < 0,
    ensures
        r == zephyr_error(code),
{
    Error::Zephyr((-(code as i64)) as u32)
}

/// The length that an asynchronous or isochronous packet states, with the low byte first.
pub open spec fn stated_length(bytes: Seq<u8>) -> int {
    bytes[3] + 256 * bytes[4]
}

/// The bytes that the data of an isochronous packet needs for its own header: none where it goes on
/// with a fragment, else eight or four, with or without a time.
pub open spec fn iso_header_length(bytes: Seq<u8>) -> int {
    if (bytes[2] / 16) % 2 == 1 {
        0
    } else if (bytes[2] / 64) % 2 == 1 {
        8
    } else {
        4
    }
}

/// What a packet from the controller is decoded to.
///
/// A packet starts with its kind.  Commands do not come from a controller.  Events have a code and
/// a length, and need that many bytes more.  Synchronous data has two bytes, a length, and exactly
/// that many bytes more.  Asynchronous and isochronous data have two bytes, a length in two bytes,
/// and exactly that many bytes more.  Those of isochronous data must have room for their header.
pub open spec fn decoded(bytes: Seq<u8>) -> Result<PacketKind, DecodeError> {
    if bytes.len() == 0 {
        Err(DecodeError::InvalidSize)
    } else if bytes[0] == 4 {
        if bytes.len() >= 3 && bytes.len() - 3 >= bytes[2] {
            Ok(PacketKind::Event)
        } else {
            Err(DecodeError::InvalidSize)
        }
    } else if bytes[0] == 3 {
        if bytes.len() >= 4 && bytes.len() - 4 == bytes[3] {
            Ok(PacketKind::SyncData)
        } else {
            Err(DecodeError::InvalidSize)
        }
    } else if bytes[0] == 2 {
        if bytes.len() >= 5 && bytes.len() - 5 == stated_length(bytes) {
            Ok(PacketKind::AclData)
        } else {
            Err(DecodeError::InvalidSize)
        }
    } else if bytes[0] == 5 {
        if bytes.len() >= 5 && bytes.len() - 5 == stated_length(bytes) && bytes.len() - 5
            >= iso_header_length(bytes) {
            Ok(PacketKind::IsoData)
        } else {
            Err(DecodeError::InvalidSize)
        }
    } else {
        Err(DecodeError::InvalidValue)
    }
}

/// `bt_hci::ControllerToHostPacket::from_hci_bytes_complete`: whether bytes are a packet from the
/// controller, and of which kind.  See [`decoded`].  What the packet holds is in the bytes, and is
/// not read here.
#[verifier::external_body]
fn decode(bytes: &[u8]) -> (r: Result<PacketKind, DecodeError>)
    ensures
        r == decoded(bytes@),
{
    match bt_hci::ControllerToHostPacket::from_hci_bytes_complete(bytes) {
        Ok(bt_hci::ControllerToHostPacket::Acl(_)) => Ok(PacketKind::AclData),
        Ok(bt_hci::ControllerToHostPacket::Sync(_)) => Ok(PacketKind::SyncData),
        Ok(bt_hci::ControllerToHostPacket::Event(_)) => Ok(PacketKind::Event),
        Ok(bt_hci::ControllerToHostPacket::Iso(_)) => Ok(PacketKind::IsoData),
        Err(bt_hci::FromHciBytesError::InvalidSize) => Err(DecodeError::InvalidSize),
        Err(bt_hci::FromHciBytesError::InvalidValue) => Err(DecodeError::InvalidValue),
    }
}

/// The transport, of which there is one.
#[derive(Clone, Copy, Debug, PartialEq, Eq, Structural)]
pub struct HciRawTransport {
    /// The queue of packets from the controller.
    pub fifo: Addr,
    /// Whether RAW mode is enabled.
    pub enabled: bool,
}

/// A packet that was received into a buffer: its kind, and its length.
#[derive(Clone, Copy, Debug, PartialEq, Eq, Structural)]
pub struct Received {
    /// The kind.
    pub kind: PacketKind,
    /// The length, with the byte for the kind.
    pub len: usize,
}

/// What receiving `data` into the buffer `rx` comes to.
pub open spec fn received(
    data: Seq<u8>,
    rx: Seq<u8>,
    after: Seq<u8>,
    r: Result<Received, Error>,
) -> bool {
    if data.len() > rx.len() {
        r == Err::<Received, Error>(Error::BufferTooSmall) && after == rx
    } else {
        &&& after == data + rx.skip(data.len() as int)
        &&& match decoded(data) {
            Ok(kind) => r matches Ok(packet) && packet.kind == kind && packet.len == data.len(),
            Err(e) => r == Err::<Received, Error>(Error::Decode(e)),
        }
    }
}

impl HciRawTransport {
    /// The transport after RAW mode was asked for.
    pub open spec fn after_enable(self) -> HciRawTransport {
        HciRawTransport { enabled: true, ..self }
    }

    /// The transport after the kernel's answer.
    pub open spec fn after_enable_done(self, result: i32) -> HciRawTransport {
        HciRawTransport { enabled: result >= 0, ..self }
    }

    /// What asking for RAW mode comes to.
    pub open spec fn enable_result(self) -> Result<Seq<Call>, Error> {
        if self.enabled {
            Err(Error::AlreadyEnabled)
        } else {
            Ok(
                seq![
                    Call::HciFifoInit { fifo: self.fifo },
                    Call::BtEnableRaw { fifo: self.fifo },
                ],
            )
        }
    }

    /// The transport with its queue at `fifo`, before RAW mode is enabled.
    pub fn new(fifo: Addr) -> (r: HciRawTransport)
        ensures
            r == (HciRawTransport { fifo, enabled: false }),
    {
        HciRawTransport { fifo, enabled: false }
    }

    /// Enable RAW mode, once.
    pub fn enable(&mut self) -> (r: Result<Vec<Call>, Error>)
        ensures
            *final(self) == old(self).after_enable(),
            match old(self).enable_result() {
                Ok(calls) => r matches Ok(made) && made@ == calls,
                Err(e) => r == Err::<Vec<Call>, Error>(e),
            },
    {
        if self.enabled {
            return Err(Error::AlreadyEnabled);
        }
        self.enabled = true;
        Ok(vec![Call::HciFifoInit { fifo: self.fifo }, Call::BtEnableRaw { fifo: self.fifo }])
    }

    /// Whether RAW mode was enabled.  If not, it can be tried again.
    pub fn enable_done(&mut self, result: i32) -> (r: Result<(), Error>)
        requires
            old(self).enabled,
        ensures
            *final(self) == old(self).after_enable_done(result),
            r == (if result < 0 {
                Err::<(), Error>(zephyr_error(result))
            } else {
                Ok(())
            }),
    {
        if result < 0 {
            self.enabled = false;
            return Err(to_zephyr_error(result));
        }
        Ok(())
    }

    /// Ask for a packet, waiting up to `timeout`.
    pub fn recv(&self, timeout: Timeout) -> (call: Call)
        ensures
            call == (Call::HciFifoGet { fifo: self.fifo, timeout }),
    {
        Call::HciFifoGet { fifo: self.fifo, timeout }
    }

    /// Ask for a packet without waiting.
    pub fn try_read(&self) -> (call: Call)
        ensures
            call == (Call::HciFifoGet { fifo: self.fifo, timeout: Timeout(K_NO_WAIT) }),
    {
        self.recv(Timeout(K_NO_WAIT))
    }

    /// Ask for a packet, waiting for one.
    pub fn read(&self) -> (call: Call)
        ensures
            call == (Call::HciFifoGet { fifo: self.fifo, timeout: Timeout(K_FOREVER) }),
    {
        self.recv(Timeout(K_FOREVER))
    }

    /// A packet came in the kernel's buffer at `buffer`, holding `data`; zero stands for none.  The
    /// packet is copied to `rx`, the kernel's buffer released, and the packet decoded.
    pub fn recv_done(buffer: Addr, data: &[u8], rx: &mut [u8]) -> (r: (
        Option<Call>,
        Result<Received, Error>,
    ))
        ensures
            r.0 == (if buffer == 0 {
                None
            } else {
                Some(Call::NetBufUnref { buffer })
            }),
            if buffer == 0 {
                r.1 == Err::<Received, Error>(Error::Zephyr(EAGAIN)) && final(rx)@ == old(rx)@
            } else {
                received(data@, old(rx)@, final(rx)@, r.1)
            },
    {
        if buffer == 0 {
            return (None, Err(Error::Zephyr(EAGAIN)));
        }
        let release = Call::NetBufUnref { buffer };
        if data.len() > rx.len() {
            return (Some(release), Err(Error::BufferTooSmall));
        }
        let mut i: usize = 0;
        while i < data.len()
            invariant
                i <= data@.len() <= rx@.len(),
                rx@.len() == old(rx)@.len(),
                forall|j: int| 0 <= j < i ==> rx@[j] == data@[j],
                forall|j: int| i <= j < rx@.len() ==> rx@[j] == old(rx)@[j],
            decreases data@.len() - i,
        {
            rx[i] = data[i];
            i = i + 1;
        }
        assert(rx@ =~= data@ + old(rx)@.skip(data@.len() as int));
        match decode(data) {
            Ok(kind) => (Some(release), Ok(Received { kind, len: data.len() })),
            Err(e) => (Some(release), Err(Error::Decode(e))),
        }
    }

    /// The packet, or `None` where there was none; from what [`HciRawTransport::recv_done`] came
    /// to.
    pub fn try_read_done(result: Result<Received, Error>) -> (r: Result<Option<Received>, Error>)
        ensures
            r == (match result {
                Ok(packet) => Ok::<Option<Received>, Error>(Some(packet)),
                Err(e) => if e == Error::Zephyr(EAGAIN) {
                    Ok(None)
                } else {
                    Err(e)
                },
            }),
    {
        match result {
            Ok(packet) => Ok(Some(packet)),
            Err(e) => {
                if e == Error::Zephyr(EAGAIN) {
                    Ok(None)
                } else {
                    Err(e)
                }
            },
        }
    }

    /// Send a packet of a kind, which has `size` bytes: its buffer type, and a writer for its
    /// bytes.
    pub fn write(&self, kind: PacketKind, size: usize) -> (r: Result<(BufType, SliceWriter), Error>)
        ensures
            match buf_type_of(kind) {
                Err(e) => r == Err::<(BufType, SliceWriter), Error>(e),
                Ok(t) => if size > MAX_PACKET_SIZE - 1 {
                    r == Err::<(BufType, SliceWriter), Error>(Error::BufferTooSmall)
                } else {
                    &&& r matches Ok((buf_type, writer))
                    &&& buf_type == t
                    &&& writer.wf()
                    &&& writer.written() == Seq::<u8>::empty()
                    &&& writer.buffer@.len() == MAX_PACKET_SIZE - 1
                },
            },
    {
        let buf_type = match value_kind(kind) {
            Ok(t) => t,
            Err(e) => {
                return Err(e);
            },
        };
        if size > MAX_PACKET_SIZE - 1 {
            return Err(Error::BufferTooSmall);
        }
        let mut payload: Vec<u8> = Vec::new();
        while payload.len() < MAX_PACKET_SIZE - 1
            invariant
                payload@.len() <= MAX_PACKET_SIZE - 1,
            decreases MAX_PACKET_SIZE - 1 - payload@.len(),
        {
            payload.push(0);
        }
        Ok((buf_type, SliceWriter::new(payload)))
    }

    /// The bytes were written: ask for a buffer of the kernel that holds them.
    pub fn write_payload(&self, buf_type: BufType, writer: SliceWriter) -> (call: Call)
        requires
            writer.wf(),
        ensures
            call matches Call::BtBufGetTx { buf_type: t, timeout, bytes } && {
                &&& t == buf_type
                &&& timeout == Timeout(K_NO_WAIT)
                &&& bytes@ == writer.written()
            },
    {
        let mut bytes: Vec<u8> = Vec::new();
        let mut i: usize = 0;
        while i < writer.len
            invariant
                i <= writer.len <= writer.buffer@.len(),
                bytes@ == writer.buffer@.take(i as int),
            decreases writer.len - i,
        {
            bytes.push(writer.buffer[i]);
            i = i + 1;
            assert(writer.buffer@.take(i as int) =~= writer.buffer@.take(i - 1).push(
                writer.buffer@[i - 1],
            ));
        }
        Call::BtBufGetTx { buf_type, timeout: Timeout(K_NO_WAIT), bytes }
    }

    /// The buffer of the kernel is at `buffer`; zero stands for none.  It is sent.
    pub fn write_buffer(&self, buffer: Addr) -> (r: Result<Call, Error>)
        ensures
            r == (if buffer == 0 {
                Err::<Call, Error>(Error::Zephyr(ENOMEM))
            } else {
                Ok(Call::BtSend { buffer })
            }),
    {
        if buffer == 0 {
            return Err(Error::Zephyr(ENOMEM));
        }
        Ok(Call::BtSend { buffer })
    }

    /// The buffer was sent.  If not, it is released.
    pub fn write_done(&self, buffer: Addr, result: i32) -> (r: Result<(), (Call, Error)>)
        ensures
            r == (if result < 0 {
                Err::<(), (Call, Error)>((Call::NetBufUnref { buffer }, zephyr_error(result)))
            } else {
                Ok(())
            }),
    {
        if result < 0 {
            return Err((Call::NetBufUnref { buffer }, to_zephyr_error(result)));
        }
        Ok(())
    }
}

/// The kernel's buffer type for a kind of packets.
pub open spec fn buf_type_of(kind: PacketKind) -> Result<BufType, Error> {
    match kind {
        PacketKind::Cmd => Ok(BufType::Cmd),
        PacketKind::AclData => Ok(BufType::AclOut),
        _ => Err(Error::UnsupportedPacket(kind)),
    }
}

/// The kernel's buffer type for a kind of packets.
pub fn value_kind(kind: PacketKind) -> (r: Result<BufType, Error>)
    ensures
        r == buf_type_of(kind),
{
    match kind {
        PacketKind::Cmd => Ok(BufType::Cmd),
        PacketKind::AclData => Ok(BufType::AclOut),
        PacketKind::SyncData => Err(Error::UnsupportedPacket(kind)),
        PacketKind::Event => Err(Error::UnsupportedPacket(kind)),
        PacketKind::IsoData => Err(Error::UnsupportedPacket(kind)),
    }
}

/// A writer to a buffer of fixed size.
pub struct SliceWriter {
    /// The buffer.
    pub buffer: Vec<u8>,
    /// How much of it is written.
    pub len: usize,
}

impl SliceWriter {
    /// No more is written than there is room for.
    pub open spec fn wf(self) -> bool {
        self.len <= self.buffer@.len()
    }

    /// What is written.
    pub open spec fn written(self) -> Seq<u8> {
        self.buffer@.take(self.len as int)
    }

    /// A writer to a buffer.
    pub fn new(buffer: Vec<u8>) -> (r: SliceWriter)
        ensures
            r.wf(),
            r.buffer == buffer,
            r.written() == Seq::<u8>::empty(),
    {
        let r = SliceWriter { buffer, len: 0 };
        assert(r.written() =~= Seq::<u8>::empty());
        r
    }

    /// How much is written.
    pub fn len(&self) -> (r: usize)
        requires
            self.wf(),
        ensures
            r == self.written().len(),
    {
        self.len
    }

    /// Write bytes, all of them or, where there is no room, none.
    pub fn write(&mut self, bytes: &[u8]) -> (r: Result<usize, Error>)
        requires
            old(self).wf(),
        ensures
            final(self).wf(),
            final(self).buffer@.len() == old(self).buffer@.len(),
            if old(self).written().len() + bytes@.len() > old(self).buffer@.len() {
                &&& r == Err::<usize, Error>(Error::BufferTooSmall)
                &&& *final(self) == *old(self)
            } else {
                &&& r == Ok::<usize, Error>(bytes@.len() as usize)
                &&& final(self).written() == old(self).written() + bytes@
                &&& final(self).buffer@.skip(final(self).len as int) == old(self).buffer@.skip(
                    final(self).len as int,
                )
            },
    {
        let remaining: usize = self.buffer.len() - self.len;
        if bytes.len() > remaining {
            return Err(Error::BufferTooSmall);
        }
        let start: usize = self.len;
        let end: usize = start + bytes.len();
        let mut i: usize = 0;
        while i < bytes.len()
            invariant
                i <= bytes@.len(),
                start == old(self).len,
                self.len == start,
                start + bytes@.len() == end,
                end <= self.buffer@.len(),
                self.buffer@.len() == old(self).buffer@.len(),
                forall|j: int| 0 <= j < start ==> self.buffer@[j] == old(self).buffer@[j],
                forall|j: int| 0 <= j < i ==> self.buffer@[start + j] == bytes@[j],
                forall|j: int|
                    end <= j < self.buffer@.len() ==> self.buffer@[j] == old(self).buffer@[j],
            decreases bytes@.len() - i,
        {
            self.buffer[start + i] = bytes[i];
            i = i + 1;
        }
        self.len = end;
        assert(self.buffer@.skip(end as int) =~= old(self).buffer@.skip(end as int));
        assert(self.written() =~= old(self).written() + bytes@) by {
            assert forall|k: int| start <= k < start + bytes@.len() implies self.buffer@[k]
                == bytes@[k - start] by {
                assert(self.buffer@[start + (k - start)] == bytes@[k - start]);
            }
        }
        Ok(bytes.len())
    }

    /// Nothing is held back.
    pub fn flush(&mut self) -> (r: Result<(), Error>)
        ensures
            *final(self) == *old(self),
            r == Ok::<(), Error>(()),
    {
        Ok(())
    }
}

/// RAW mode is handed out once: after the kernel granted it, asking again is refused.  After the
/// kernel refused it, it can be asked for again.
pub proof fn law_enabled_once(transport: HciRawTransport, result: i32)
    ensures
        ({
            let again = transport.after_enable().after_enable_done(result).enable_result();
            &&& result >= 0 ==> again == Err::<Seq<Call>, Error>(Error::AlreadyEnabled)
            &&& result < 0 ==> again is Ok
        }),
        transport.after_enable().enable_result() == Err::<Seq<Call>, Error>(Error::AlreadyEnabled),
{
}

/// A packet from the controller is never taken for a command.
pub proof fn law_no_command_received(data: Seq<u8>, rx: Seq<u8>, after: Seq<u8>, packet: Received)
    requires
        received(data, rx, after, Ok(packet)),
    ensures
        packet.kind != PacketKind::Cmd,
        packet.len > 0,
        after.take(packet.len as int) == data,
{
    assert(after.take(packet.len as int) =~= data);
}

/// A packet is copied to the start of the buffer, and the rest of the buffer is left alone.  Where
/// it does not fit, or there was none, nothing is written.  The kernel's buffer is released, once,
/// where there was one.
pub proof fn law_packet_is_copied(
    buffer: Addr,
    data: &[u8],
    rx: &mut [u8],
    r: (Option<Call>, Result<Received, Error>),
)
    requires
        call_ensures(HciRawTransport::recv_done, (buffer, data, rx), r),
    ensures
        final(rx)@.len() == old(rx)@.len(),
        buffer == 0 ==> r.0 is None && r.1 == Err::<Received, Error>(Error::Zephyr(11u32)),
        buffer != 0 ==> r.0 == Some(Call::NetBufUnref { buffer }),
        buffer != 0 && data@.len() > old(rx)@.len() ==> r.1 == Err::<Received, Error>(
            Error::BufferTooSmall,
        ),
        buffer == 0 || data@.len() > old(rx)@.len() ==> final(rx)@ == old(rx)@,
        buffer != 0 && data@.len() <= old(rx)@.len() ==> {
            &&& forall|i: int| 0 <= i < data@.len() ==> final(rx)@[i] == data@[i]
            &&& forall|i: int| data@.len() <= i < old(rx)@.len() ==> final(rx)@[i] == old(rx)@[i]
        },
{
}

/// A packet that came and fits has the length of its data, and its kind follows from its first
/// byte: 2 for asynchronous data, 3 for synchronous data, 4 for an event, 5 for isochronous data.
/// Every other first byte is refused as a value that is not valid, and a packet whose length is not
/// what it states, or that has none, for its size.
pub proof fn law_packet_is_understood(
    buffer: Addr,
    data: &[u8],
    rx: &mut [u8],
    r: (Option<Call>, Result<Received, Error>),
)
    requires
        buffer != 0,
        data@.len() <= old(rx)@.len(),
        call_ensures(HciRawTransport::recv_done, (buffer, data, rx), r),
    ensures
        r.1 matches Ok(packet) ==> {
            &&& packet.len == data@.len()
            &&& match packet.kind {
                PacketKind::Cmd => false,
                PacketKind::AclData => data@[0] == 2 && data@.len() >= 5 && data@.len() == 5
                    + data@[3] + 256 * data@[4],
                PacketKind::SyncData => data@[0] == 3 && data@.len() >= 4 && data@.len() == 4
                    + data@[3],
                PacketKind::Event => data@[0] == 4 && data@.len() >= 3 && data@.len() >= 3
                    + data@[2],
                PacketKind::IsoData => data@[0] == 5 && data@.len() >= 5 && data@.len() == 5
                    + data@[3] + 256 * data@[4],
            }
        },
        r.1 matches Err(e) ==> {
            ||| e == Error::Decode(DecodeError::InvalidSize) && (data@.len() == 0 || 2 <= data@[0]
                <= 5)
            ||| e == Error::Decode(DecodeError::InvalidValue) && data@.len() > 0 && !(2 <= data@[0]
                <= 5)
        },
        data@.len() >= 5 && data@[0] == 2 && data@.len() == 5 + data@[3] + 256 * data@[4]
            ==> r.1 is Ok,
        data@.len() >= 4 && data@[0] == 3 && data@.len() == 4 + data@[3] ==> r.1 is Ok,
        data@.len() >= 3 && data@[0] == 4 && data@.len() >= 3 + data@[2] ==> r.1 is Ok,
        data@.len() >= 5 && data@[0] == 5 && data@.len() == 5 + data@[3] + 256 * data@[4] ==> (
        r.1 is Ok <==> {
            ||| data@[2] % 32 >= 16
            ||| data@[2] % 128 >= 64 && data@.len() >= 13
            ||| data@[2] % 128 < 64 && data@.len() >= 9
        }),
{
}

/// RAW mode is asked for with the transport's own queue, which is initialised before, and only
/// where it was not asked for already.  Where the kernel refuses, with a negative number, the
/// transport fails with that number made positive and can ask again.
pub proof fn law_raw_mode_is_enabled(
    asking: &mut HciRawTransport,
    answered: &mut HciRawTransport,
    asked: Result<Vec<Call>, Error>,
    code: i32,
    done: Result<(), Error>,
)
    requires
        call_ensures(HciRawTransport::enable, (asking,), asked),
        *old(answered) == *final(asking),
        call_ensures(HciRawTransport::enable_done, (answered, code), done),
    ensures
        old(asking).enabled ==> asked == Err::<Vec<Call>, Error>(Error::AlreadyEnabled),
        !old(asking).enabled ==> (asked matches Ok(calls) && calls@ == seq![
            Call::HciFifoInit { fifo: old(asking).fifo },
            Call::BtEnableRaw { fifo: old(asking).fifo },
        ]),
        final(asking).enabled,
        final(asking).fifo == old(asking).fifo,
        final(answered).fifo == old(asking).fifo,
        final(answered).enabled == (code >= 0),
        code >= 0 ==> done is Ok,
        code < 0 ==> (done matches Err(Error::Zephyr(n)) && n == -code),
{
}

/// Packets are read from the transport's own queue: with the timeout that was given, without
/// waiting, or without a limit.
pub proof fn law_packets_are_asked_for(
    transport: HciRawTransport,
    timeout: Timeout,
    recv: Call,
    try_read: Call,
    read: Call,
)
    requires
        call_ensures(HciRawTransport::recv, (&transport, timeout), recv),
        call_ensures(HciRawTransport::try_read, (&transport,), try_read),
        call_ensures(HciRawTransport::read, (&transport,), read),
    ensures
        recv == (Call::HciFifoGet { fifo: transport.fifo, timeout }),
        try_read == (Call::HciFifoGet { fifo: transport.fifo, timeout: Timeout(0i64) }),
        read == (Call::HciFifoGet { fifo: transport.fifo, timeout: Timeout(-1i64) }),
{
}

/// Trying to read gives what receiving gave, but that there was no packet is no error.
pub proof fn law_try_read_is_recv(
    result: Result<Received, Error>,
    r: Result<Option<Received>, Error>,
)
    requires
        call_ensures(HciRawTransport::try_read_done, (result,), r),
    ensures
        result matches Ok(packet) ==> r == Ok::<Option<Received>, Error>(Some(packet)),
        result matches Err(e) ==> e == Error::Zephyr(11u32) ==> r == Ok::<
            Option<Received>,
            Error,
        >(None),
        result matches Err(e) ==> e != Error::Zephyr(11u32) ==> r == Err::<
            Option<Received>,
            Error,
        >(e),
{
}

/// What is written to a writer goes behind what was written before, all of it or, where it does not
/// fit, nothing; and all that was written, and nothing else, is what the kernel is handed.
pub proof fn law_written_bytes_are_sent(
    transport: HciRawTransport,
    writer: &mut SliceWriter,
    bytes: &[u8],
    written: Result<usize, Error>,
    buf_type: BufType,
    call: Call,
)
    requires
        old(writer).len <= old(writer).buffer@.len(),
        call_ensures(SliceWriter::write, (writer, bytes), written),
        call_ensures(HciRawTransport::write_payload, (&transport, buf_type, *final(writer)), call),
    ensures
        ({
            let before = old(writer).buffer@.take(old(writer).len as int);
            let fits = before.len() + bytes@.len() <= old(writer).buffer@.len();
            &&& final(writer).buffer@.len() == old(writer).buffer@.len()
            &&& fits ==> written == Ok::<usize, Error>(bytes@.len() as usize)
            &&& !fits ==> written == Err::<usize, Error>(Error::BufferTooSmall) && *final(writer)
                == *old(writer)
            &&& call matches Call::BtBufGetTx { buf_type: t, timeout, bytes: sent }
            &&& t == buf_type
            &&& timeout.0 == 0
            &&& sent@ == if fits {
                before + bytes@
            } else {
                before
            }
            &&& final(writer).len == sent@.len()
        }),
{
}

/// A packet of up to 257 bytes can be sent where it is a command or asynchronous data, and nothing
/// else can.  It starts with nothing written.
pub proof fn law_packets_that_can_be_sent(
    transport: HciRawTransport,
    kind: PacketKind,
    size: usize,
    r: Result<(BufType, SliceWriter), Error>,
    value: Result<BufType, Error>,
)
    requires
        call_ensures(HciRawTransport::write, (&transport, kind, size), r),
        call_ensures(value_kind, (kind,), value),
    ensures
        ({
            let supported = kind == PacketKind::Cmd || kind == PacketKind::AclData;
            &&& value is Ok <==> supported
            &&& r is Ok <==> supported && size <= 257
            &&& !supported ==> value == Err::<BufType, Error>(Error::UnsupportedPacket(kind)) && r
                == Err::<(BufType, SliceWriter), Error>(Error::UnsupportedPacket(kind))
            &&& supported && size > 257 ==> r == Err::<(BufType, SliceWriter), Error>(
                Error::BufferTooSmall,
            )
            &&& kind == PacketKind::Cmd ==> value == Ok::<BufType, Error>(BufType::Cmd)
            &&& kind == PacketKind::AclData ==> value == Ok::<BufType, Error>(BufType::AclOut)
            &&& r matches Ok((buf_type, writer)) ==> {
                &&& value == Ok::<BufType, Error>(buf_type)
                &&& writer.len == 0
                &&& writer.buffer@.len() == 257
            }
        }),
{
    if let Ok((buf_type, writer)) = r {
        assert(writer.written().len() == writer.len);
    }
}

/// The buffer that the kernel gave is sent.  Where the kernel has none, the transport is out of
/// memory; where sending fails, that buffer is released, and the error is the kernel's number made
/// positive.
pub proof fn law_buffer_is_sent_or_released(
    transport: HciRawTransport,
    buffer: Addr,
    sent: Result<Call, Error>,
    code: i32,
    done: Result<(), (Call, Error)>,
)
    requires
        call_ensures(HciRawTransport::write_buffer, (&transport, buffer), sent),
        call_ensures(HciRawTransport::write_done, (&transport, buffer, code), done),
    ensures
        buffer == 0 ==> sent == Err::<Call, Error>(Error::Zephyr(12u32)),
        buffer != 0 ==> sent == Ok::<Call, Error>(Call::BtSend { buffer }),
        code >= 0 ==> done is Ok,
        code < 0 ==> (done matches Err((release, Error::Zephyr(n))) && release
            == (Call::NetBufUnref { buffer }) && n == -code),
{
}

/// Every error has its sort.
pub proof fn law_error_sorts(e: Error, kind: ErrorKind)
    requires
        call_ensures(Error::kind, (&e,), kind),
    ensures
        kind == ErrorKind::Other <==> e is Zephyr,
        kind == ErrorKind::AlreadyExists <==> e is AlreadyEnabled,
        kind == ErrorKind::OutOfMemory <==> e is BufferTooSmall,
        kind == ErrorKind::InvalidInput <==> e is UnsupportedPacket || e is Decode,
{
}

/// The text of an error is how it is written in the language.
pub proof fn law_error_texts(e: Error, text: String)
    requires
        call_ensures(Error::to_string, (&e,), text),
    ensures
        match e {
            Error::Zephyr(code) => text@ == "Zephyr("@ + decimal(code as nat) + ")"@,
            Error::AlreadyEnabled => text@ == "AlreadyEnabled"@,
            Error::BufferTooSmall => text@ == "BufferTooSmall"@,
            Error::UnsupportedPacket(PacketKind::Cmd) => text@ == "UnsupportedPacket("@ + "Cmd"@
                + ")"@,
            Error::UnsupportedPacket(PacketKind::AclData) => text@ == "UnsupportedPacket("@
                + "AclData"@ + ")"@,
            Error::UnsupportedPacket(PacketKind::SyncData) => text@ == "UnsupportedPacket("@
                + "SyncData"@ + ")"@,
            Error::UnsupportedPacket(PacketKind::Event) => text@ == "UnsupportedPacket("@
                + "Event"@ + ")"@,
            Error::UnsupportedPacket(PacketKind::IsoData) => text@ == "UnsupportedPacket("@
                + "IsoData"@ + ")"@,
            Error::Decode(DecodeError::InvalidSize) => text@ == "Decode("@ + "InvalidSize"@
                + ")"@,
            Error::Decode(DecodeError::InvalidValue) => text@ == "Decode("@ + "InvalidValue"@
                + ")"@,
        },
{
}

} // verus!
