use zephyr::device::Unique;
use zephyr::error::{to_result, to_result_errno, to_result_void, Error};
use zephyr::object::{
    Fixed, StaticKernelObject, Wrapped, ZephyrObject, KOBJ_INITIALIZED, KOBJ_INITING,
    KOBJ_UNINITIALIZED,
};
use zephyr::raw::{Call, ThreadArgs};
use zephyr::simpletls::SimpleTls;
use zephyr::sys::queue::{KQueue, Queue};
use zephyr::sys::sync::mutex::{Condvar, KCondvar, KMutex, Mutex, StaticCondvar, StaticMutex};
use zephyr::sys::sync::semaphore::Semaphore;
use zephyr::sys::thread::{
    stack_len, KThread, StaticThread, StaticThreadStack, Thread, ThreadStack,
};
use zephyr::sys::timer::{Callback, KTimer, Timer};
use zephyr::sys::{uptime_get, K_FOREVER, K_NO_WAIT};
use zephyr::text::{append_decimal, append_hex, name_and_addr};
use zephyr::time::{
    checked_cast, now, now_done, sleep, sleep_done, Duration, Forever, Instant, NoWait, Timeout,
};

const FOREVER: Timeout = Timeout(-1);
const NO_WAIT: Timeout = Timeout(0);

#[test]
fn result_of_codes() {
    assert_eq!(to_result(7), Ok(7));
    assert_eq!(to_result(0), Ok(0));
    assert_eq!(to_result(-22), Err(Error(22)));
    assert_eq!(to_result(i32::MIN), Err(Error(0x8000_0000)));
    assert_eq!(to_result_void(3), Ok(()));
    assert_eq!(to_result_void(-1), Err(Error(1)));
    assert_eq!(to_result_errno(-1, 11), Err(Error(11)));
    assert_eq!(to_result_errno(4, 11), Ok(4));
}

#[test]
fn error_text() {
    assert_eq!(Error(0).to_string(), "zephyr error errno:0");
    assert_eq!(Error(138).to_string(), "zephyr error errno:138");
    assert_eq!(Error(138).to_debug_string(), "zephyr error errno:138");
    assert_eq!(Error(u32::MAX).to_string(), "zephyr error errno:4294967295");
}

#[test]
fn numbers_as_text() {
    let mut s = String::from("n=");
    append_decimal(&mut s, 1009);
    assert_eq!(s, "n=1009");
    let mut s = String::new();
    append_hex(&mut s, 0xbeef0);
    assert_eq!(s, "beef0");
    let mut s = String::new();
    append_hex(&mut s, 0);
    assert_eq!(s, "0");
    assert_eq!(name_and_addr("x 0x", 255), "x 0xff");
    for n in [0usize, 1, 9, 10, 15, 16, 4095, usize::MAX] {
        assert_eq!(name_and_addr("", n), format!("{:x}", n));
    }
    for n in [0u32, 9, 10, 99, 100, 12_345, u32::MAX] {
        let mut s = String::new();
        append_decimal(&mut s, n);
        assert_eq!(s, format!("{}", n));
    }
}

#[test]
fn ticks_and_durations() {
    assert_eq!(Duration::from_ticks(12).ticks(), 12);
    assert_eq!(Instant::from_ticks(7).ticks(), 7);
    assert_eq!(Instant::from_ticks(7) + Duration::from_ticks(5), Instant::from_ticks(12));
    assert!(Duration::from_ticks(1) < Duration::from_ticks(2));
    assert_eq!(Duration::millis_at_least(250), Call::MsToTicksCeil { ms: 250 });
    assert_eq!(Duration::secs_at_least(3), Call::SecToTicksCeil { secs: 3 });
    assert_eq!(Duration::at_least_done(9), Duration(9));
    assert_eq!(checked_cast(5), 5);
    assert_eq!(checked_cast(i64::MAX as u64), i64::MAX);
    assert_eq!(checked_cast(i64::MAX as u64 + 1), 0);
}

#[test]
fn duration_timeout_waits_for_it() {
    assert_eq!(Timeout::from(Duration::from_ticks(1)), Timeout(1));
    assert_eq!(Timeout::from(Duration::from_ticks(1000)), Timeout(1000));
    assert_eq!(Timeout::from(Duration::from_ticks(i64::MAX as u64)), Timeout(i64::MAX));
    assert_eq!(Timeout::from(Duration::from_ticks(u64::MAX)), Timeout(0));
}

#[test]
fn instant_timeout_is_absolute() {
    assert_eq!(Timeout::from(Instant::from_ticks(0)), Timeout(-2));
    assert_eq!(Timeout::from(Instant::from_ticks(100)), Timeout(-102));
    assert_eq!(Timeout::from(Instant::from_ticks(i64::MAX as u64 - 1)), Timeout(i64::MIN));
    assert_eq!(Timeout::from(Instant::from_ticks(i64::MAX as u64)), Timeout(i64::MAX));
}

#[test]
fn special_timeouts_are_distinct() {
    assert_eq!(Timeout::from(Forever), Timeout(K_FOREVER));
    assert_eq!(Timeout::from(NoWait), Timeout(K_NO_WAIT));
    let all = [
        Timeout::from(Forever),
        Timeout::from(NoWait),
        Timeout::from(Duration::from_ticks(3)),
        Timeout::from(Instant::from_ticks(3)),
    ];
    for i in 0..all.len() {
        for j in 0..i {
            assert_ne!(all[i], all[j]);
        }
    }
}

#[test]
fn time_of_day_and_sleep() {
    assert_eq!(now(), Call::UptimeTicks);
    assert_eq!(now_done(77), Instant(77));
    assert_eq!(now_done(-1), Instant(u64::MAX));
    assert_eq!(sleep(Timeout(5)), Call::Sleep { timeout: Timeout(5) });
    assert_eq!(sleep_done(0), Duration(0));
    assert_eq!(sleep_done(4), Duration(4));
    assert_eq!(uptime_get(), Call::UptimeGet);
}

#[test]
fn object_is_initialised_once() {
    let mut object = ZephyrObject::new_raw(KQueue);
    let _: &KQueue = object.get_uninit();
    assert!(!object.moved(0x100));
    assert_eq!(object.get(0x100), vec![Call::QueueInit { queue: 0x100 }]);
    for _ in 0..5 {
        assert!(object.get(0x100).is_empty());
    }
    assert_eq!(object.state, 0x100);
}

#[test]
fn object_must_not_move() {
    let mut object = ZephyrObject::new_raw(KQueue);
    let _ = object.get(0x100);
    assert!(!object.moved(0x100));
    assert!(object.moved(0x200));
}

#[test]
fn static_object_is_taken_once() {
    let mut mutex: StaticMutex = StaticKernelObject::new(KMutex);
    assert_eq!(mutex.init, KOBJ_UNINITIALIZED);
    let (handle, calls) = mutex.init_once(0x40, ()).unwrap();
    assert_eq!(handle, Mutex { item: 0x40 });
    assert_eq!(calls, vec![Call::MutexInit { mutex: 0x40 }]);
    assert_eq!(mutex.init, KOBJ_INITING);
    assert!(mutex.init_once(0x40, ()).is_none());
    mutex.init_done();
    assert_eq!(mutex.init, KOBJ_INITIALIZED);
    assert!(mutex.init_once(0x40, ()).is_none());
}

#[test]
fn static_condvar_handle() {
    let mut condvar: StaticCondvar = StaticKernelObject::new(KCondvar);
    let (handle, calls) = condvar.init_once(0x44, ()).unwrap();
    assert_eq!(handle, Condvar { item: 0x44 });
    assert_eq!(calls, vec![Call::CondvarInit { condvar: 0x44 }]);
}

#[test]
fn fixed_places() {
    let owned = Fixed::new(0x10, Box::new(KTimer));
    assert_eq!(owned.get(), 0x10);
    let moved = vec![owned];
    assert_eq!(moved[0].get(), 0x10);
    let at: Fixed<KTimer> = Fixed::Static(0x20);
    assert_eq!(at.get(), 0x20);
}

#[test]
fn semaphore_count_stops_at_the_limit() {
    let mut sem = Semaphore::new(1, 3);
    let (mut count, mut most) = (0, 0);
    for round in 1..6u32 {
        for call in sem.give(0x70) {
            match call {
                Call::SemInit { sem: 0x70, initial_count, limit } => {
                    (count, most) = (initial_count, limit);
                }
                Call::SemGive { sem: 0x70 } => {
                    if count < most {
                        count += 1;
                    }
                }
                _ => panic!("another call"),
            }
        }
        assert_eq!(count, (1 + round).min(3));
    }
}

#[test]
fn unique_is_first_once() {
    let mut unique = Unique::new();
    assert!(unique.once());
    for _ in 0..10 {
        assert!(!unique.once());
    }
    let mut last = Unique(usize::MAX);
    assert!(!last.once());
    assert_eq!(last.0, 0);
}

#[test]
fn queue_operations() {
    let mut queue = Queue::new();
    assert_eq!(
        queue.send(0x8, 0x99),
        vec![Call::QueueInit { queue: 0x8 }, Call::QueueAppend { queue: 0x8, data: 0x99 }]
    );
    assert_eq!(
        queue.recv(0x8, Timeout(3)),
        vec![Call::QueueGet { queue: 0x8, timeout: Timeout(3) }]
    );
    assert_eq!(queue.remove(0x8, 0x99), vec![Call::QueueRemove { queue: 0x8, data: 0x99 }]);
    let (calls, text) = queue.to_debug_string(0x8);
    assert!(calls.is_empty());
    assert_eq!(text, "sys::Queue 0x8");
}

#[test]
fn semaphore_operations() {
    let mut sem = Semaphore::new(2, 5);
    assert_eq!(
        sem.take(0x8, NO_WAIT),
        vec![
            Call::SemInit { sem: 0x8, initial_count: 2, limit: 5 },
            Call::SemTake { sem: 0x8, timeout: NO_WAIT },
        ]
    );
    assert_eq!(sem.give(0x8), vec![Call::SemGive { sem: 0x8 }]);
    assert_eq!(sem.reset(0x8), vec![Call::SemReset { sem: 0x8 }]);
    assert_eq!(sem.count_get(0x8), vec![Call::SemCountGet { sem: 0x8 }]);
    assert_eq!(Semaphore::count_get_done(4), 4);
    assert_eq!(Semaphore::take_done(0), Ok(()));
    assert_eq!(Semaphore::take_done(-11), Err(Error(11)));
    assert_eq!(sem.to_debug_string(), "sys::Semaphore");
}

#[test]
fn mutex_and_condvar_operations() {
    let mutex = Mutex { item: 0x1a };
    assert_eq!(mutex.lock(Timeout(9)), Call::MutexLock { mutex: 0x1a, timeout: Timeout(9) });
    assert_eq!(Mutex::lock_done(-16), Err(Error(16)));
    assert_eq!(mutex.unlock(), Call::MutexUnlock { mutex: 0x1a });
    assert_eq!(Mutex::unlock_done(0), Ok(()));
    assert_eq!(mutex.to_debug_string(), "sys::Mutex 0x1a");
    let condvar = Condvar { item: 0x2b };
    assert_eq!(
        condvar.wait(&mutex),
        Call::CondvarWait { condvar: 0x2b, mutex: 0x1a, timeout: FOREVER }
    );
    assert_eq!(condvar.notify_one(), Call::CondvarSignal { condvar: 0x2b });
    assert_eq!(condvar.notify_all(), Call::CondvarBroadcast { condvar: 0x2b });
    assert_eq!(condvar.to_debug_string(), "sys::Condvar 0x2b");
}

#[test]
fn stack_lengths_are_rounded_up() {
    assert_eq!(stack_len(0, 8), 0);
    assert_eq!(stack_len(1, 8), 8);
    assert_eq!(stack_len(8, 8), 8);
    assert_eq!(stack_len(1000, 32), 1024);
    assert_eq!(stack_len(7, 1), 7);
    assert_eq!(zephyr::thread::stack_len(1025, 1024), 2048);
    for size in 0..100 {
        for align in 1..20 {
            let len = stack_len(size, align);
            assert!(len % align == 0 && len >= size && len < size + align);
        }
    }
}

#[test]
fn static_stacks_and_threads() {
    let mut stacks =
        StaticKernelObject::<StaticThreadStack>::new_from_array(&vec![0x1000, 0x2000], 0x800);
    assert_eq!(stacks.len(), 2);
    let (stack, calls) = stacks[1].init_once(0, ()).unwrap();
    assert_eq!(stack, ThreadStack { base: 0x2000, size: 0x800 });
    assert!(calls.is_empty());
    let single = StaticKernelObject::<StaticThreadStack>::new_from(0x3000, 64);
    assert_eq!(single.get_wrapped(0, ()).0, ThreadStack { base: 0x3000, size: 64 });
    let mut statics: StaticThread = StaticKernelObject::new(KThread);
    let (mut thread, calls) = statics.init_once(0x77, stack).unwrap();
    assert!(calls.is_empty());
    assert_eq!(thread, Thread { raw: 0x77, stack, priority: 0, options: 0 });
    thread.set_priority(-2);
    thread.set_options(4);
    let args = ThreadArgs {
        thread: 0x77,
        stack: 0x2000,
        stack_size: 0x800,
        entry: 0xe0,
        args: (1, 2, 3),
        priority: -2,
        options: 4,
        delay: NO_WAIT,
    };
    assert_eq!(thread.simple_spawn(0xe0, 1, 2, 3), Call::ThreadCreate(args));
    assert_eq!(
        thread.spawn(0xe0, 0xc0),
        Call::ThreadCreate(ThreadArgs { args: (0xc0, 0, 0), ..args })
    );
}

#[test]
fn timer_with_callback() {
    let (mut timer, init) = Timer::<u8>::new(0x50, Box::new(KTimer), 0xee);
    assert_eq!(init, Call::TimerInit { timer: 0x50, expiry: 0xee });
    assert_eq!(
        timer.set_expiry_callback(Callback { call: 0xca, data: 3 }, 0xda),
        vec![
            Call::TimerUserDataSet { timer: 0x50, data: 0 },
            Call::TimerUserDataSet { timer: 0x50, data: 0xda },
        ]
    );
    assert_eq!(timer.expiry.as_ref().unwrap().data, 3);
    assert_eq!(Timer::<u8>::timer_expiry(0xda), Some(0xda));
    assert_eq!(Timer::<u8>::timer_expiry(0), None);
    assert_eq!(
        timer.start(Timeout(1), Timeout(2)),
        Call::TimerStart { timer: 0x50, delay: Timeout(1), period: Timeout(2) }
    );
    assert_eq!(timer.stop(), Call::TimerStop { timer: 0x50 });
    assert_eq!(timer.status_get(), Call::TimerStatusGet { timer: 0x50 });
    assert_eq!(timer.status_sync(), Call::TimerStatusSync { timer: 0x50 });
    assert_eq!(timer.to_debug_string(), "sys::Timer 0x50");
}

#[test]
fn thread_values() {
    let mut tls = SimpleTls::new();
    assert_eq!(SimpleTls::<u32>::get(), Call::CurrentGet);
    for thread in [50usize, 10, 30, 20, 40] {
        tls.insert(thread, thread as u32 * 2);
    }
    for thread in [10usize, 20, 30, 40, 50] {
        assert_eq!(tls.get_done(thread), Some(thread as u32 * 2));
        assert_eq!(tls.get_done(thread + 1), None);
    }
    assert_eq!(tls.get_done(0), None);
}

#[test]
fn thread_keeps_its_last_value() {
    let mut tls = SimpleTls::new();
    tls.insert(7, 1u8);
    tls.insert(8, 2);
    tls.insert(7, 3);
    tls.insert(9, 4);
    assert_eq!(tls.get_done(7), Some(3));
    assert_eq!(tls.get_done(8), Some(2));
    assert_eq!(tls.map.len(), 3);
}
