use zephyr::device::uart::irq::{
    IrqCallback, IrqNext, IrqOuterData, ReadStep, SemAddrs, UartIrq, WriteError,
};
use zephyr::device::uart::{LineControl, Uart, UartAsync};
use zephyr::device::Unique;
use zephyr::error::Error;
use zephyr::raw::Call;
use zephyr::time::Timeout;

const AT: SemAddrs = SemAddrs { read: 0x11, write: 0x22 };

#[test]
fn polling_a_port() {
    let mut unique = Unique::new();
    let mut uart = Uart::new(&mut unique, 0x10).unwrap();
    assert!(Uart::new(&mut unique, 0x10).is_none());
    assert_eq!(uart.poll_in(), Call::UartPollIn { device: 0x10 });
    assert_eq!(Uart::poll_in_done(0, b'x'), Ok(Some(b'x')));
    assert_eq!(Uart::poll_in_done(-1, 0), Ok(None));
    assert_eq!(Uart::poll_in_done(-88, 0), Err(Error(88)));
    assert_eq!(uart.poll_out(b'y'), Call::UartPollOut { device: 0x10, out_char: b'y' });
    assert_eq!(
        uart.fifo_fill(vec![1, 2]),
        Call::UartFifoFill { device: 0x10, bytes: vec![1, 2] }
    );
    assert_eq!(Uart::fifo_fill_done(2), Ok(2));
    assert_eq!(Uart::fifo_fill_done(-5), Err(Error(5)));
    assert_eq!(uart.fifo_read(9), Call::UartFifoRead { device: 0x10, size: 9 });
    assert_eq!(Uart::fifo_read_done(9), Ok(9));
}

#[test]
fn line_control() {
    let mut uart = Uart { device: 0x10 };
    assert_eq!(
        uart.line_ctrl_get(LineControl::BaudRate),
        Call::UartLineCtrlGet { device: 0x10, item: LineControl::BaudRate }
    );
    assert_eq!(Uart::line_ctrl_get_done(0, 9600), Ok(9600));
    assert_eq!(Uart::line_ctrl_get_done(-134, 9600), Err(Error(134)));
    assert_eq!(
        uart.line_ctrl_set(LineControl::RTS, 1),
        Call::UartLineCtrlSet { device: 0x10, item: LineControl::RTS, control: 1 }
    );
    assert_eq!(Uart::line_ctrl_set_done(0), Ok(()));
    assert_eq!(Uart::line_ctrl_set_done(-88), Err(Error(88)));
    assert_eq!(
        uart.is_dtr_set(),
        Call::UartLineCtrlGet { device: 0x10, item: LineControl::DTR }
    );
    assert_eq!(Uart::is_dtr_set_done(0, 1), Ok(true));
    assert_eq!(Uart::is_dtr_set_done(0, 0), Ok(false));
    assert_eq!(Uart::is_dtr_set_done(-5, 1), Err(Error(5)));
}

#[test]
fn asynchronous_port() {
    let uart = Uart { device: 0x10 };
    assert_eq!(uart.into_async(0xca), Call::UartCallbackSet { device: 0x10, callback: 0xca });
    assert!(UartAsync::new_done(0).is_ok());
    assert_eq!(UartAsync::new_done(-88).err(), Some(Error(88)));
}

fn port<const WS: usize, const RS: usize>() -> UartIrq<WS, RS> {
    let uart = Uart { device: 0x10 };
    let (setup, call) = uart.into_irq::<WS, RS>(0xca, 0xda);
    assert_eq!(
        call,
        Call::UartIrqCallbackSet { device: 0x10, callback: 0xca, user_data: 0xda }
    );
    let (irq, enable) = UartIrq::new_done(setup, 0).ok().unwrap();
    assert_eq!(enable, Call::UartIrqRxEnable { device: 0x10 });
    irq
}

fn receive<const WS: usize, const RS: usize>(data: &mut IrqOuterData<WS, RS>, bytes: &[u8]) {
    let (mut run, next) = IrqCallback::irq_callback(0x10);
    assert!(matches!(next, IrqNext::FifoRead(_)));
    for byte in bytes {
        let next = run.on_read(data, AT, 1, *byte);
        assert!(matches!(next, IrqNext::FifoRead(_)));
    }
    let _ = run.on_read(data, AT, 0, 0);
}

#[test]
fn interrupt_setup_can_fail() {
    let (setup, _) = Uart { device: 0x10 }.into_irq::<2, 3>(1, 2);
    assert_eq!(UartIrq::new_done(setup, -88).err(), Some(Error(88)));
}

#[test]
fn received_bytes_are_read_in_order() {
    let mut irq = port::<2, 3>();
    assert_eq!(irq.inner().device, 0x10);
    receive(&mut irq.data, b"hello");
    let mut buf = [0u8; 3];
    match irq.try_read(&mut buf, Timeout(7), AT) {
        ReadStep::Done(count, calls) => {
            assert_eq!(count, 3);
            assert_eq!(calls, vec![Call::SemTake { sem: 0x11, timeout: Timeout(0) }]);
        }
        ReadStep::Wait(_) => panic!("nothing to read"),
    }
    assert_eq!(&buf, b"hel");
    let mut buf = [b'-'; 4];
    assert!(matches!(irq.try_read(&mut buf, Timeout(7), AT), ReadStep::Done(2, _)));
    assert_eq!(&buf, b"lo--");
}

#[test]
fn reading_waits_for_bytes() {
    let mut irq = port::<2, 3>();
    let mut buf = [0u8; 3];
    match irq.try_read(&mut buf, Timeout(7), AT) {
        ReadStep::Wait(calls) => assert_eq!(
            calls,
            vec![
                Call::SemInit { sem: 0x11, initial_count: 0, limit: 3 },
                Call::SemTake { sem: 0x11, timeout: Timeout(7) },
            ]
        ),
        ReadStep::Done(..) => panic!("read nothing"),
    }
    let (count, calls) = irq.try_read_again(&mut buf, AT);
    assert_eq!(count, 0);
    assert!(calls.is_empty());
    receive(&mut irq.data, b"z");
    let (count, calls) = irq.try_read_again(&mut buf, AT);
    assert_eq!(count, 1);
    assert_eq!(calls, vec![Call::SemTake { sem: 0x11, timeout: Timeout(0) }]);
    assert_eq!(buf[0], b'z');
}

#[test]
fn full_ring_loses_new_bytes() {
    let mut irq = port::<1, 1>();
    let bytes: Vec<u8> = (0..300).map(|i| (i % 251) as u8).collect();
    receive(&mut irq.data, &bytes);
    let mut buf = [0u8; 300];
    assert!(matches!(irq.try_read(&mut buf, Timeout(0), AT), ReadStep::Done(256, _)));
    assert_eq!(&buf[..256], &bytes[..256]);
    assert_eq!(buf[256..], [0u8; 44]);
}

#[test]
fn handler_gives_the_read_semaphore_once() {
    let mut irq = port::<1, 1>();
    let (mut run, _) = IrqCallback::irq_callback(0x10);
    let _ = run.on_read(&mut irq.data, AT, 1, 1);
    let _ = run.on_read(&mut irq.data, AT, 1, 2);
    match run.on_read(&mut irq.data, AT, 0, 0) {
        IrqNext::Done(calls) => assert_eq!(
            calls,
            vec![
                Call::SemInit { sem: 0x11, initial_count: 0, limit: 1 },
                Call::SemGive { sem: 0x11 },
                Call::UartIrqTxDisable { device: 0x10 },
                Call::UartIrqUpdate { device: 0x10 },
            ]
        ),
        _ => panic!("handler goes on"),
    }
    let (mut run, _) = IrqCallback::irq_callback(0x10);
    match run.on_read(&mut irq.data, AT, 0, 0) {
        IrqNext::Done(calls) => assert_eq!(calls.len(), 2),
        _ => panic!("handler goes on"),
    }
}

#[test]
fn writes_are_sent_in_pieces() {
    let mut irq = port::<2, 1>();
    assert!(!irq.write_is_full());
    assert_eq!(
        irq.write_enqueue(b"abcdef".to_vec(), 1..5).ok().unwrap(),
        Some(Call::UartIrqTxEnable { device: 0x10 })
    );
    assert_eq!(irq.write_enqueue(b"xy".to_vec(), 0..2).ok().unwrap(), None);
    assert!(irq.write_is_full());
    match irq.write_enqueue(b"no".to_vec(), 0..2) {
        Err(WriteError(data)) => {
            assert_eq!(data, b"no");
            assert_eq!(WriteError(data).to_debug_string(), "WriteError(...)");
        }
        Ok(_) => panic!("there is no room"),
    }
    match irq.write_enqueue(b"no".to_vec(), 1..9) {
        Err(WriteError(data)) => assert_eq!(data, b"no"),
        Ok(_) => panic!("there is no room"),
    }
    let mut sent: Vec<u8> = Vec::new();
    let (mut run, _) = IrqCallback::irq_callback(0x10);
    let mut next = run.on_read(&mut irq.data, AT, 0, 0);
    let mut given = 0;
    loop {
        let (calls, fill) = match next {
            IrqNext::FifoFill(calls) => (calls, true),
            IrqNext::Done(calls) => (calls, false),
            IrqNext::FifoRead(_) => panic!("reads again"),
        };
        given += calls.iter().filter(|c| **c == (Call::SemGive { sem: 0x22 })).count();
        if !fill {
            assert_eq!(
                calls[calls.len() - 2..],
                [Call::UartIrqTxDisable { device: 0x10 }, Call::UartIrqUpdate { device: 0x10 }]
            );
            break;
        }
        match calls.last() {
            Some(Call::UartFifoFill { device: 0x10, bytes }) => sent.push(bytes[0]),
            _ => panic!("no data"),
        }
        next = run.on_fill(&mut irq.data, AT, 1);
    }
    assert_eq!(sent, b"bcdexy");
    assert_eq!(given, 2);
    assert!(irq.data.inner.write_requests.is_empty());
    let buffers: Vec<Vec<u8>> =
        irq.data.inner.write_dones.iter().map(|done| done.data.clone()).collect();
    assert_eq!(buffers, vec![b"abcdef".to_vec(), b"xy".to_vec()]);
}

#[test]
fn buffers_come_back_in_order() {
    let mut irq = port::<2, 1>();
    let _ = irq.write_enqueue(b"one".to_vec(), 0..3);
    let _ = irq.write_enqueue(b"two".to_vec(), 0..3);
    let (mut run, _) = IrqCallback::irq_callback(0x10);
    let _ = run.on_read(&mut irq.data, AT, 0, 0);
    let _ = run.on_fill(&mut irq.data, AT, 3);
    let _ = run.on_fill(&mut irq.data, AT, 3);
    assert_eq!(
        irq.write_wait(Timeout(5), AT),
        vec![Call::SemTake { sem: 0x22, timeout: Timeout(5) }]
    );
    assert_eq!(irq.write_wait_done(0).ok().unwrap(), b"one");
    assert!(irq.write_wait_done(-11).is_err());
    assert_eq!(irq.write_wait_done(0).ok().unwrap(), b"two");
    assert!(irq.data.inner.write_dones.is_empty());
}

#[test]
fn empty_writes_complete_at_once() {
    let mut irq = port::<2, 1>();
    let _ = irq.write_enqueue(b"abc".to_vec(), 2..2);
    let (mut run, _) = IrqCallback::irq_callback(0x10);
    match run.on_read(&mut irq.data, AT, 0, 0) {
        IrqNext::Done(calls) => assert_eq!(
            calls,
            vec![
                Call::SemInit { sem: 0x22, initial_count: 0, limit: 2 },
                Call::SemGive { sem: 0x22 },
                Call::UartIrqTxDisable { device: 0x10 },
                Call::UartIrqUpdate { device: 0x10 },
            ]
        ),
        _ => panic!("nothing is left to send"),
    }
    assert_eq!(irq.write_wait_done(0).ok().unwrap(), b"abc");
}

#[test]
fn write_semaphore_counts_waiting_buffers() {
    let mut irq = port::<3, 1>();
    let mut count = 0;
    for round in 0..6u8 {
        let _ = irq.write_enqueue(vec![round], 0..1);
        let (mut run, _) = IrqCallback::irq_callback(0x10);
        let mut next = run.on_read(&mut irq.data, AT, 0, 0);
        loop {
            let (calls, fill) = match next {
                IrqNext::FifoFill(calls) => (calls, true),
                IrqNext::Done(calls) => (calls, false),
                IrqNext::FifoRead(_) => panic!("reads again"),
            };
            count += calls.iter().filter(|c| **c == (Call::SemGive { sem: 0x22 })).count();
            assert_eq!(count, irq.data.inner.write_dones.len());
            if !fill {
                break;
            }
            next = run.on_fill(&mut irq.data, AT, 1);
        }
        if round > 0 {
            assert_eq!(irq.write_wait_done(0).ok().unwrap(), vec![round - 1]);
            count -= 1;
        }
        assert_eq!(count, irq.data.inner.write_dones.len());
    }
    assert_eq!(count, 1);
}
