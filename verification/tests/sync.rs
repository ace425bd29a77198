use zephyr::raw::Call;
use zephyr::sync::channel::{
    bounded, unbounded, Channel, ChannelAddrs, Message, Receiver, RecvError, SendError, SendStep,
    Sender,
};
use zephyr::sync::spinmutex::SpinTryLockError;
use zephyr::sync::{Condvar, Mutex, SpinMutex, TryLockError};
use zephyr::time::Timeout;

const FOREVER: Timeout = Timeout(-1);
const AT: ChannelAddrs = ChannelAddrs { chan: 0x10, free: 0x20 };

#[test]
fn mutex_protects_its_data() {
    let (mut mutex, init) = Mutex::new(5u8, 0x1a);
    assert_eq!(init, Call::MutexInit { mutex: 0x1a });
    assert_eq!(mutex.lock(), Call::MutexLock { mutex: 0x1a, timeout: FOREVER });
    let guard = mutex.lock_done(0).ok().unwrap();
    assert_eq!(*guard.deref(&mutex), 5);
    *guard.deref_mut(&mut mutex) += 1;
    assert_eq!(*guard.deref(&mutex), 6);
    assert_eq!(guard.drop(), Call::MutexUnlock { mutex: 0x1a });
    assert_eq!(mutex.try_lock(), Call::MutexLock { mutex: 0x1a, timeout: Timeout(0) });
    assert!(mutex.try_lock_done(0).is_ok());
    assert_eq!(mutex.try_lock_done(-16).err(), Some(TryLockError::WouldBlock));
    assert_eq!(mutex.to_debug_string(), "Mutex sys::Mutex 0x1a");
}

#[test]
fn condvar_keeps_the_guard() {
    let (mutex, _) = Mutex::new((), 0x1a);
    let guard = mutex.lock_done(0).ok().unwrap();
    let (condvar, init) = Condvar::new(0x2b);
    assert_eq!(init, Call::CondvarInit { condvar: 0x2b });
    let (call, guard) = condvar.wait(guard);
    assert_eq!(call, Call::CondvarWait { condvar: 0x2b, mutex: 0x1a, timeout: FOREVER });
    assert_eq!(guard.ok().unwrap().drop(), Call::MutexUnlock { mutex: 0x1a });
    assert_eq!(condvar.notify_one(), Call::CondvarSignal { condvar: 0x2b });
    assert_eq!(condvar.notify_all(), Call::CondvarBroadcast { condvar: 0x2b });
    assert_eq!(condvar.to_debug_string(), "Condvar sys::Condvar 0x2b");
}

#[test]
fn spin_mutex() {
    let mut mutex = SpinMutex::new(1u8, 0x3c);
    assert_eq!(mutex.lock(), Call::SpinLock { lock: 0x3c });
    let guard = mutex.lock_done(9).ok().unwrap();
    *guard.deref_mut(&mut mutex) = 2;
    assert_eq!(*guard.deref(&mutex), 2);
    assert_eq!(guard.drop(), Call::SpinUnlock { lock: 0x3c, key: 9 });
    assert_eq!(mutex.try_lock(), Call::SpinTryLock { lock: 0x3c });
    assert_eq!(mutex.try_lock_done(0, 4).ok().unwrap().key, 4);
    assert_eq!(mutex.try_lock_done(-16, 0).err(), Some(SpinTryLockError::WouldBlock));
    assert_eq!(mutex.to_debug_string(), "Mutex UnsafeCell { .. }");
}

#[test]
fn unbounded_channel_keeps_order() {
    let (mut chan, sender, receiver) = unbounded::<&str>();
    assert!(chan.is_unbounded());
    match sender.send(&mut chan, "a", 0x101, AT) {
        SendStep::Sent(calls) => assert_eq!(
            calls,
            vec![
                Call::QueueInit { queue: 0x10 },
                Call::QueueAppend { queue: 0x10, data: 0x101 },
            ]
        ),
        SendStep::Wait(..) => panic!("waits"),
    }
    assert!(matches!(sender.try_send(&mut chan, "b", 0x102, AT), SendStep::Sent(_)));
    assert_eq!(
        receiver.recv(&mut chan, AT),
        vec![Call::QueueGet { queue: 0x10, timeout: FOREVER }]
    );
    let (data, calls) = receiver.recv_timeout_done(&mut chan, 0x101, AT).ok().unwrap();
    assert_eq!(data, "a");
    assert!(calls.is_empty());
    let (data, _) = receiver.recv_timeout_done(&mut chan, 0x102, AT).ok().unwrap();
    assert_eq!(data, "b");
    assert!(chan.messages.is_empty());
    assert_eq!(
        receiver.try_recv(&mut chan, AT),
        vec![Call::QueueGet { queue: 0x10, timeout: Timeout(0) }]
    );
    assert_eq!(receiver.recv_timeout_done(&mut chan, 0, AT).err(), Some(RecvError));
}

/// The queues of the kernel.
struct Queues {
    chan: Vec<usize>,
    free: Vec<usize>,
}

impl Queues {
    fn perform(&mut self, calls: Vec<Call>) -> usize {
        let mut answer = 0;
        for call in calls {
            match call {
                Call::QueueInit { .. } => {}
                Call::QueueAppend { queue: 0x10, data } => self.chan.push(data),
                Call::QueueAppend { queue: 0x20, data } => self.free.push(data),
                Call::QueueGet { queue, .. } => {
                    let items = if queue == 0x10 { &mut self.chan } else { &mut self.free };
                    answer = if items.is_empty() { 0 } else { items.remove(0) };
                }
                _ => panic!("unexpected call"),
            }
        }
        answer
    }
}

fn send(q: &mut Queues, chan: &mut Channel<u32>, tx: &Sender, msg: u32) -> Result<(), u32> {
    match tx.try_send(chan, msg, 0, AT) {
        SendStep::Wait(msg, calls) => {
            let buf = q.perform(calls);
            match tx.send_timeout_done(chan, msg, buf, AT) {
                Ok(calls) => {
                    let _ = q.perform(calls);
                    Ok(())
                }
                Err(SendError(msg)) => Err(msg),
            }
        }
        SendStep::Sent(_) => panic!("not bounded"),
    }
}

fn recv(q: &mut Queues, chan: &mut Channel<u32>, rx: &Receiver) -> Option<u32> {
    let calls = rx.try_recv(chan, AT);
    let buf = q.perform(calls);
    match rx.recv_timeout_done(chan, buf, AT) {
        Ok((data, calls)) => {
            let _ = q.perform(calls);
            Some(data)
        }
        Err(RecvError) => None,
    }
}

#[test]
fn bounded_channel_starts_with_free_slots() {
    let (chan, _, _, calls) = bounded::<u8>(vec![0x301, 0x302], 0x20);
    assert!(!chan.is_unbounded());
    assert_eq!(
        calls,
        vec![
            Call::QueueInit { queue: 0x20 },
            Call::QueueAppend { queue: 0x20, data: 0x301 },
            Call::QueueAppend { queue: 0x20, data: 0x302 },
        ]
    );
}

#[test]
fn bounded_channel_keeps_order_and_capacity() {
    let (mut chan, tx, rx, calls) = bounded::<u32>(vec![0x301, 0x302, 0x303], 0x20);
    let mut q = Queues { chan: Vec::new(), free: Vec::new() };
    let _ = q.perform(calls);
    let mut expected = 0;
    let mut next = 0;
    for round in 0..20u32 {
        for _ in 0..(round % 4) + 1 {
            if send(&mut q, &mut chan, &tx, next).is_ok() {
                next += 1;
            } else {
                assert_eq!(chan.messages.len(), 3);
            }
            assert!(q.chan.len() + q.free.len() == 3);
        }
        for _ in 0..(round % 3) + 1 {
            match recv(&mut q, &mut chan, &rx) {
                Some(msg) => {
                    assert_eq!(msg, expected);
                    expected += 1;
                }
                None => assert_eq!(expected, next),
            }
        }
    }
    assert!(next > 20);
}

#[test]
fn full_bounded_channel_gives_the_message_back() {
    let (mut chan, tx, _rx, calls) = bounded::<u32>(vec![0x301], 0x20);
    let mut q = Queues { chan: Vec::new(), free: Vec::new() };
    let _ = q.perform(calls);
    assert_eq!(send(&mut q, &mut chan, &tx, 1), Ok(()));
    assert_eq!(send(&mut q, &mut chan, &tx, 2), Err(2));
    assert_eq!(SendError(2).to_debug_string(), "\"SendError(..)\"");
    match tx.send_timeout(&mut chan, 3, Timeout(8), 0, AT) {
        SendStep::Wait(3, calls) => {
            assert_eq!(calls, vec![Call::QueueGet { queue: 0x20, timeout: Timeout(8) }])
        }
        _ => panic!("not bounded"),
    }
}

#[test]
fn handles_are_counted() {
    let (mut chan, tx, rx) = unbounded::<u8>();
    let other = tx.clone(&mut chan);
    let more = rx.clone(&mut chan);
    assert_eq!((chan.senders, chan.receivers), (2, 2));
    tx.drop(&mut chan);
    rx.drop(&mut chan);
    more.drop(&mut chan);
    assert_eq!((chan.senders, chan.receivers), (1, 0));
    assert_eq!(other.to_debug_string(), "Sender");
    let _ = Message::new(3u8);
}
