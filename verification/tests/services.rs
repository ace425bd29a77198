use zephyr::alloc_impl::ZephyrAllocator;
use zephyr::bluetooth::hci_raw::{
    value_kind, BufType, DecodeError, Error, ErrorKind, HciRawTransport, PacketKind, Received,
    SliceWriter,
};
use zephyr::embassy::time_driver::{AlarmStep, TickRates, ZTimer, ZephyrTimeDriver};
use zephyr::embassy::Executor;
use zephyr::logging::{max_level, Level, PrintkLogger, ZlogLogger};
use zephyr::printk::{printk, printkln, utf8_byte_length, Context};
use zephyr::raw::Call;
use zephyr::rtio::{Cqe, RtioAddrs, RtioField, RtioObject, Sqe};
use zephyr::time::Timeout;

fn chunks(calls: Vec<Call>) -> Vec<Vec<u8>> {
    calls
        .into_iter()
        .map(|call| match call {
            Call::StrOut { bytes } => bytes,
            _ => panic!("unexpected call"),
        })
        .collect()
}

#[test]
fn character_lengths() {
    assert_eq!(utf8_byte_length(b'a'), 1);
    assert_eq!(utf8_byte_length(0x80), 1);
    assert_eq!(utf8_byte_length(0xc3), 2);
    assert_eq!(utf8_byte_length(0xe2), 3);
    assert_eq!(utf8_byte_length(0xf0), 4);
    assert_eq!(utf8_byte_length(0xff), 1);
}

#[test]
fn short_text_is_one_chunk() {
    assert_eq!(chunks(printk("hello")), vec![b"hello".to_vec()]);
    assert!(printk("").is_empty());
    assert_eq!(chunks(printkln("")), vec![b"\n".to_vec()]);
    let exact = "0123456789abcdef0123456789abcdef";
    assert_eq!(chunks(printk(exact)), vec![exact.as_bytes().to_vec()]);
    assert_eq!(chunks(printkln(exact)), vec![exact.as_bytes().to_vec(), b"\n".to_vec()]);
}

#[test]
fn chunks_hold_whole_characters() {
    let text = "0123456789abcdef0123456789abcde\u{e9}\u{20ac}\u{1f600} and so on, for some more";
    let out = chunks(printk(text));
    assert_eq!(out[0].len(), 31);
    let mut all = Vec::new();
    for chunk in &out {
        assert!(!chunk.is_empty() && chunk.len() <= 32);
        assert!(std::str::from_utf8(chunk).is_ok());
        all.extend_from_slice(chunk);
    }
    assert_eq!(all, text.as_bytes());
}

#[test]
fn printing_context() {
    let mut context = Context::new();
    assert!(context.write_str("ab").is_empty());
    assert!(context.add_byte(b'c').is_empty());
    assert_eq!(chunks(context.flush()), vec![b"abc".to_vec()]);
    assert!(context.flush().is_empty());
}

#[test]
fn console_log() {
    let logger = PrintkLogger;
    assert!(logger.enabled());
    assert_eq!(
        chunks(logger.log(Level::Warn, "app", "low")),
        vec![b"WARN:app: low\n".to_vec()]
    );
    logger.flush();
    assert_eq!(max_level(), Level::Info);
    for (level, name) in [
        (Level::Error, "ERROR"),
        (Level::Warn, "WARN"),
        (Level::Info, "INFO"),
        (Level::Debug, "DEBUG"),
        (Level::Trace, "TRACE"),
    ] {
        assert_eq!(level.as_str(), name);
    }
}

#[test]
fn kernel_log() {
    let logger = ZlogLogger;
    assert!(logger.enabled());
    for (level, severity) in [
        (Level::Error, 1),
        (Level::Warn, 2),
        (Level::Info, 3),
        (Level::Debug, 4),
        (Level::Trace, 4),
    ] {
        assert_eq!(
            logger.log(level, "app", "x"),
            Call::LogMessage { severity, message: b"app: x\0".to_vec() }
        );
    }
    logger.flush();
}

#[test]
fn allocator() {
    let allocator = ZephyrAllocator;
    assert_eq!(allocator.allocate(100, 8), Some(Call::Malloc { size: 100 }));
    assert_eq!(allocator.allocate(100, 16), None);
    assert_eq!(allocator.dealloc(0x99), Call::Free { ptr: 0x99 });
}

#[test]
fn tick_conversions() {
    let rates = TickRates { zephyr_hz: 10_000, embassy_hz: 1_000_000 };
    assert_eq!(rates.zephyr_to_embassy(3), 300);
    assert_eq!(rates.embassy_to_zephyr(300), 3);
    assert_eq!(rates.embassy_to_zephyr(301), 4);
    assert_eq!(rates.now(5), 500);
    assert_eq!(rates.schedule_wake(1), 1);
    let odd = TickRates { zephyr_hz: 32_768, embassy_hz: 1_000 };
    assert_eq!(odd.zephyr_to_embassy(32_768), 1_000);
    assert_eq!(odd.zephyr_to_embassy(40), 1);
    assert_eq!(odd.embassy_to_zephyr(1), 33);
    let same = TickRates { zephyr_hz: 100, embassy_hz: 100 };
    assert_eq!(same.zephyr_to_embassy(u64::MAX), u64::MAX);
    assert_eq!(same.embassy_to_zephyr(7), 7);
}

#[test]
fn conversions_never_wake_early() {
    for (zephyr_hz, embassy_hz) in [(32_768u64, 1_000u64), (100, 1_000_000), (7, 3), (3, 7)] {
        let rates = TickRates { zephyr_hz, embassy_hz };
        let mut last = (0, 0);
        for t in 0..200u64 {
            assert!(rates.zephyr_to_embassy(rates.embassy_to_zephyr(t)) >= t);
            assert!(rates.embassy_to_zephyr(rates.zephyr_to_embassy(t)) <= t);
            let next = (rates.zephyr_to_embassy(t), rates.embassy_to_zephyr(t));
            assert!(next.0 >= last.0 && next.1 >= last.1);
            last = next;
        }
    }
}

#[test]
fn alarms() {
    let mut timer = ZTimer { item: 0x10, initialized: false };
    assert_eq!(timer.set_alarm(5, 5, 0xee), None);
    assert!(!timer.initialized);
    assert_eq!(
        timer.set_alarm(8, 5, 0xee),
        Some(vec![
            Call::TimerInit { timer: 0x10, expiry: 0xee },
            Call::TimerStart { timer: 0x10, delay: Timeout(4), period: Timeout(-1) },
        ])
    );
    assert_eq!(
        timer.set_alarm(6, 5, 0xee),
        Some(vec![Call::TimerStart { timer: 0x10, delay: Timeout(2), period: Timeout(-1) }])
    );
    assert_eq!(timer.set_alarm(4, 5, 0xee), None);
}

#[test]
fn driver_sets_the_next_alarm() {
    let mut driver = ZephyrTimeDriver {
        rates: TickRates { zephyr_hz: 100, embassy_hz: 1_000 },
        timer: ZTimer { item: 0x10, initialized: true },
    };
    assert_eq!(driver.now(7), 70);
    assert_eq!(driver.schedule_wake(71), 8);
    assert_eq!(driver.schedule_wake_queued(false), AlarmStep::Unchanged);
    assert_eq!(driver.schedule_wake_queued(true), AlarmStep::AskQueue);
    assert_eq!(driver.check_alarm(), AlarmStep::AskQueue);
    assert_eq!(driver.next_expiration(7, 7, 0xee), AlarmStep::AskQueue);
    assert_eq!(
        driver.next_expiration(8, 7, 0xee),
        AlarmStep::Start(vec![Call::TimerStart {
            timer: 0x10,
            delay: Timeout(2),
            period: Timeout(-1),
        }])
    );
}

#[test]
fn executor_sleeps_on_a_semaphore() {
    let mut executor = Executor::new();
    assert_eq!(
        executor.run(0x10),
        vec![
            Call::SemInit { sem: 0x10, initial_count: 0, limit: 1 },
            Call::SemTake { sem: 0x10, timeout: Timeout(-1) },
        ]
    );
    assert_eq!(executor.pender(0x10), vec![Call::SemGive { sem: 0x10 }]);
}

const AT: RtioAddrs = RtioAddrs {
    rtio: 1,
    submit_sem: Some(2),
    consume_sem: None,
    sqe_pool: 3,
    sqe_free_q: 4,
    sqe_pool_items: 5,
    cqe_pool: 6,
    cqe_free_q: 7,
    cqe_pool_items: 8,
    sq: 9,
    cq: 10,
};

fn store(field: RtioField, word: usize) -> Call {
    let item = match field {
        RtioField::SqePoolSize | RtioField::SqePoolFree | RtioField::SqePoolItems => 3,
        RtioField::CqePoolSize | RtioField::CqePoolFree | RtioField::CqePoolItems => 6,
        _ => 1,
    };
    Call::RtioStore { item, field, word }
}

#[test]
fn rtio_is_initialised_on_first_use() {
    let mut rtio: RtioObject<2, 1> = RtioObject::new(AT, vec![20, 21], vec![30]);
    assert_eq!(
        rtio.sqe_acquire(0x40),
        vec![
            Call::SemInit { sem: 2, initial_count: 0, limit: u32::MAX },
            store(RtioField::SubmitSem, 2),
            store(RtioField::SubmitCount, 0),
            store(RtioField::CqCount, 0),
            store(RtioField::Xcqcnt, 0),
            Call::MpscInit { mpsc: 4 },
            store(RtioField::SqePoolSize, 2),
            store(RtioField::SqePoolFree, 2),
            store(RtioField::SqePoolItems, 5),
            Call::MpscPush { mpsc: 4, node: 20 },
            Call::MpscPush { mpsc: 4, node: 21 },
            Call::MpscInit { mpsc: 7 },
            store(RtioField::CqePoolSize, 1),
            store(RtioField::CqePoolFree, 1),
            store(RtioField::CqePoolItems, 8),
            Call::MpscPush { mpsc: 7, node: 30 },
            store(RtioField::SqePool, 3),
            store(RtioField::CqePool, 6),
            Call::MpscInit { mpsc: 9 },
            Call::MpscInit { mpsc: 10 },
            Call::RtioSqeAcquire { rtio: 1 },
        ]
    );
    assert_eq!(rtio.sqe_acquire(0x40), vec![Call::RtioSqeAcquire { rtio: 1 }]);
}

#[test]
fn rtio_consume_semaphore() {
    let at = RtioAddrs { submit_sem: None, consume_sem: Some(11), ..AT };
    let mut rtio: RtioObject<0, 0> = RtioObject::new(at, vec![], vec![]);
    let calls = rtio.cqe_consume(0x40);
    assert_eq!(calls[0], Call::SemInit { sem: 11, initial_count: 0, limit: u32::MAX });
    assert_eq!(calls[1], store(RtioField::ConsumeSem, 11));
    assert_eq!(calls.last(), Some(&Call::RtioCqeConsume { rtio: 1 }));
}

#[test]
fn rtio_operations() {
    let mut rtio: RtioObject<1, 1> = RtioObject::new(AT, vec![20], vec![30]);
    let _ = rtio.sqe_acquire(0x40);
    assert_eq!(RtioObject::<1, 1>::sqe_acquire_done(0), None);
    let mut sqe = RtioObject::<1, 1>::sqe_acquire_done(0x50).unwrap();
    assert_eq!(sqe, Sqe { item: 0x50 });
    assert_eq!(
        sqe.prep_callback(1, 2, 3),
        Call::RtioSqePrepCallback { sqe: 0x50, callback: 1, arg0: 2, userdata: 3 }
    );
    assert_eq!(
        sqe.prep_nop(4, 5),
        Call::RtioSqePrepNop { sqe: 0x50, iodev: 4, userdata: 5 }
    );
    assert_eq!(sqe.or_flags(6), Call::RtioSqeOrFlags { sqe: 0x50, bits: 6 });
    assert_eq!(rtio.submit(0x40, 3), vec![Call::RtioSubmit { rtio: 1, wait: 3 }]);
    assert_eq!(RtioObject::<1, 1>::submit_done(0), Ok(()));
    assert!(RtioObject::<1, 1>::submit_done(-22).is_err());
    assert_eq!(rtio.cqe_consume(0x40), vec![Call::RtioCqeConsume { rtio: 1 }]);
    assert_eq!(rtio.cqe_consume_done(0), None);
    let cqe = rtio.cqe_consume_done(0x60).unwrap();
    assert_eq!(cqe, Cqe { item: 0x60, rtio: 1 });
    assert_eq!(cqe.result(), Call::RtioCqeResult { cqe: 0x60 });
    assert_eq!(cqe.drop(), Call::RtioCqeRelease { rtio: 1, cqe: 0x60 });
}

fn decode(data: &[u8]) -> Result<Received, Error> {
    let mut rx = [0u8; 64];
    let (release, result) = HciRawTransport::recv_done(0x99, data, &mut rx);
    assert_eq!(release, Some(Call::NetBufUnref { buffer: 0x99 }));
    assert_eq!(rx[..data.len()], *data);
    result
}

#[test]
fn packets_are_decoded() {
    let ok = |kind, len| Ok(Received { kind, len });
    let size = Err(Error::Decode(DecodeError::InvalidSize));
    let value = Err(Error::Decode(DecodeError::InvalidValue));
    assert_eq!(decode(&[4, 0x0e, 2, 1, 2]), ok(PacketKind::Event, 5));
    assert_eq!(decode(&[4, 0x0e, 3, 1, 2]), size);
    assert_eq!(decode(&[4, 0x0e]), size);
    assert_eq!(decode(&[3, 1, 0, 2, 8, 9]), ok(PacketKind::SyncData, 6));
    assert_eq!(decode(&[3, 1, 0, 2, 8, 9, 10]), size);
    assert_eq!(decode(&[2, 1, 0, 0, 0]), ok(PacketKind::AclData, 5));
    assert_eq!(decode(&[2, 1, 0, 7, 7]), size);
    assert_eq!(decode(&[2, 1, 0, 2, 0, 8, 9]), ok(PacketKind::AclData, 7));
    assert_eq!(decode(&[2, 1, 0, 0, 2, 8, 9]), size);
    assert_eq!(decode(&[2, 1, 0, 2, 0, 8, 9, 10]), size);
    assert_eq!(decode(&[5, 1, 0x00, 4, 0, 1, 2, 3, 4]), ok(PacketKind::IsoData, 9));
    assert_eq!(decode(&[5, 1, 0x00, 3, 0, 1, 2, 3]), size);
    assert_eq!(decode(&[5, 1, 0x60, 4, 0, 1, 2, 3, 4]), size);
    assert_eq!(
        decode(&[5, 1, 0x60, 8, 0, 1, 2, 3, 4, 5, 6, 7, 8]),
        ok(PacketKind::IsoData, 13)
    );
    assert_eq!(decode(&[5, 1, 0x50, 1, 0, 1]), ok(PacketKind::IsoData, 6));
    assert_eq!(decode(&[5, 1, 0x30, 0, 0]), ok(PacketKind::IsoData, 5));
    assert_eq!(decode(&[5, 1, 0x10, 0, 1, 1]), size);
    assert_eq!(decode(&[5, 1]), size);
    assert_eq!(decode(&[]), size);
    assert_eq!(decode(&[1, 3, 12, 0]), value);
    assert_eq!(decode(&[9, 0, 0]), value);
}

#[test]
fn receiving_needs_room() {
    let mut rx = [7u8; 3];
    let (release, result) = HciRawTransport::recv_done(0x99, &[4, 0x0e, 1, 0], &mut rx);
    assert_eq!(release, Some(Call::NetBufUnref { buffer: 0x99 }));
    assert_eq!(result, Err(Error::BufferTooSmall));
    assert_eq!(rx, [7; 3]);
    let (release, result) = HciRawTransport::recv_done(0, &[], &mut rx);
    assert_eq!(release, None);
    assert_eq!(result, Err(Error::Zephyr(11)));
    assert_eq!(HciRawTransport::try_read_done(result), Ok(None));
    assert_eq!(
        HciRawTransport::try_read_done(Err(Error::BufferTooSmall)),
        Err(Error::BufferTooSmall)
    );
    let packet = Received { kind: PacketKind::Event, len: 5 };
    assert_eq!(HciRawTransport::try_read_done(Ok(packet)), Ok(Some(packet)));
}

#[test]
fn raw_mode_is_enabled_once() {
    let mut transport = HciRawTransport::new(0x10);
    let calls = vec![Call::HciFifoInit { fifo: 0x10 }, Call::BtEnableRaw { fifo: 0x10 }];
    assert_eq!(transport.enable(), Ok(calls));
    assert_eq!(transport.enable(), Err(Error::AlreadyEnabled));
    assert_eq!(transport.enable_done(-5), Err(Error::Zephyr(5)));
    assert!(transport.enable().is_ok());
    assert_eq!(transport.enable_done(0), Ok(()));
    assert_eq!(transport.enable(), Err(Error::AlreadyEnabled));
}

#[test]
fn reading_packets() {
    let transport = HciRawTransport::new(0x10);
    assert_eq!(transport.read(), Call::HciFifoGet { fifo: 0x10, timeout: Timeout(-1) });
    assert_eq!(transport.try_read(), Call::HciFifoGet { fifo: 0x10, timeout: Timeout(0) });
    assert_eq!(transport.recv(Timeout(3)), Call::HciFifoGet { fifo: 0x10, timeout: Timeout(3) });
}

#[test]
fn writing_packets() {
    let transport = HciRawTransport::new(0x10);
    let (buf_type, mut writer) = transport.write(PacketKind::Cmd, 4).ok().unwrap();
    assert_eq!(buf_type, BufType::Cmd);
    assert_eq!(writer.write(&[3, 12]), Ok(2));
    assert_eq!(writer.write(&[0]), Ok(1));
    assert_eq!(writer.len(), 3);
    assert_eq!(
        transport.write_payload(buf_type, writer),
        Call::BtBufGetTx { buf_type: BufType::Cmd, timeout: Timeout(0), bytes: vec![3, 12, 0] }
    );
    assert_eq!(transport.write_buffer(0), Err(Error::Zephyr(12)));
    assert_eq!(transport.write_buffer(0x99), Ok(Call::BtSend { buffer: 0x99 }));
    assert_eq!(transport.write_done(0x99, 0), Ok(()));
    assert_eq!(
        transport.write_done(0x99, -12),
        Err((Call::NetBufUnref { buffer: 0x99 }, Error::Zephyr(12)))
    );
}

#[test]
fn packets_that_cannot_be_written() {
    let transport = HciRawTransport::new(0x10);
    assert_eq!(value_kind(PacketKind::AclData), Ok(BufType::AclOut));
    for kind in [PacketKind::SyncData, PacketKind::Event, PacketKind::IsoData] {
        assert_eq!(transport.write(kind, 1).err(), Some(Error::UnsupportedPacket(kind)));
    }
    assert!(transport.write(PacketKind::Cmd, 257).is_ok());
    assert_eq!(transport.write(PacketKind::Cmd, 258).err(), Some(Error::BufferTooSmall));
}

#[test]
fn writer_takes_all_or_nothing() {
    let mut writer = SliceWriter::new(vec![0; 4]);
    assert_eq!(writer.write(&[1, 2, 3]), Ok(3));
    assert_eq!(writer.write(&[4, 5]), Err(Error::BufferTooSmall));
    assert_eq!(writer.len(), 3);
    assert_eq!(writer.buffer, vec![1, 2, 3, 0]);
    assert_eq!(writer.write(&[4]), Ok(1));
    assert_eq!(writer.write(&[]), Ok(0));
    assert_eq!(writer.flush(), Ok(()));
    assert_eq!(writer.buffer, vec![1, 2, 3, 4]);
}

#[test]
fn writer_leaves_the_rest() {
    let mut writer = SliceWriter::new(vec![9; 4]);
    assert_eq!(writer.write(&[1]), Ok(1));
    assert_eq!(writer.write(&[2, 3]), Ok(2));
    assert_eq!(writer.buffer, vec![1, 2, 3, 9]);
}

#[test]
fn transport_errors() {
    for (error, kind, text) in [
        (Error::Zephyr(5), ErrorKind::Other, "Zephyr(5)"),
        (Error::AlreadyEnabled, ErrorKind::AlreadyExists, "AlreadyEnabled"),
        (Error::BufferTooSmall, ErrorKind::OutOfMemory, "BufferTooSmall"),
        (
            Error::UnsupportedPacket(PacketKind::IsoData),
            ErrorKind::InvalidInput,
            "UnsupportedPacket(IsoData)",
        ),
        (
            Error::Decode(DecodeError::InvalidValue),
            ErrorKind::InvalidInput,
            "Decode(InvalidValue)",
        ),
    ] {
        assert_eq!(error.kind(), kind);
        assert_eq!(error.to_string(), text);
        assert_eq!(format!("{:?}", error), text);
    }
}
