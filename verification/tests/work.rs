use zephyr::error::Error;
use zephyr::kio::{self, ContextExt};
use zephyr::object::Fixed;
use zephyr::raw::{
    Call, WorkQueueConfig, POLL_TYPE_DATA_AVAILABLE, POLL_TYPE_SEM_AVAILABLE, POLL_TYPE_SIGNAL,
};
use zephyr::simpletls::SimpleTls;
use zephyr::sync::mutex::TryLockError;
use zephyr::sys::thread::ThreadStack;
use zephyr::sys::timer::KTimer;
use zephyr::time::{Duration, Timeout};
use zephyr::timer::{Callback, CallbackTimer, SimpleTimer, StoppedTimer};
use zephyr::work::futures::{sleep, Answer, HandlerNext, Poll, Started, WorkBuilder, WorkData};
use zephyr::work::{
    get_current_workq, KPollSignal, KWorkQueue, Signal, SimpleAction, SubmitResult, Work,
    WorkQueue, WorkQueueBuilder, WorkQueueRef,
};

const FOREVER: Timeout = Timeout(-1);
const NO_WAIT: Timeout = Timeout(0);

fn worker(addr: usize) -> WorkQueue {
    WorkQueue { item: Fixed::new(addr, Box::new(KWorkQueue)) }
}

#[test]
fn work_queue_starts() {
    let mut builder = WorkQueueBuilder::new();
    builder.set_name(0x99).set_no_yield(true).set_essential(true).set_priority(-3);
    let mut queues = SimpleTls::new();
    let (queue, calls) = builder.start(
        ThreadStack { base: 0x1000, size: 0x400 },
        0x70,
        Box::new(KWorkQueue),
        0x71,
        &mut queues,
    );
    assert_eq!(queue.item.get(), 0x70);
    assert_eq!(
        calls,
        vec![
            Call::WorkQueueInit { queue: 0x70 },
            Call::WorkQueueStart {
                queue: 0x70,
                stack: 0x1000,
                stack_size: 0x400,
                priority: -3,
                config: WorkQueueConfig { name: 0x99, no_yield: true, essential: true },
            },
        ]
    );
    assert_eq!(get_current_workq(&queues, 0x71), Some(0x70));
    assert_eq!(get_current_workq(&queues, 0x72), None);
    assert_eq!(queues.get_done(0x71), Some(WorkQueueRef(0x70)));
}

#[test]
fn work_queue_defaults() {
    let builder = WorkQueueBuilder::new();
    assert_eq!(
        builder.config,
        WorkQueueConfig { name: 0, no_yield: false, essential: false }
    );
    assert_eq!(builder.priority, 0);
}

#[test]
fn signals() {
    let (signal, init) = Signal::new(0x80, Box::new(KPollSignal));
    assert_eq!(init, Call::PollSignalInit { signal: 0x80 });
    assert_eq!(signal.reset(), Call::PollSignalReset { signal: 0x80 });
    assert_eq!(signal.check(), Call::PollSignalCheck { signal: 0x80 });
    assert_eq!(Signal::check_done(1, 42), Some(42));
    assert_eq!(Signal::check_done(0, 42), None);
    assert_eq!(signal.raise(7), Call::PollSignalRaise { signal: 0x80, result: 7 });
    assert_eq!(Signal::raise_done(0), Ok(()));
    assert_eq!(Signal::raise_done(-11), Err(Error(11)));
}

struct Count(std::cell::Cell<u32>);

impl SimpleAction for Count {
    fn act(&self) {
        self.0.set(self.0.get() + 1);
    }
}

#[test]
fn simple_work() {
    let (work, init) = Work::new(Count(std::cell::Cell::new(0)), 0x90, 0xfe);
    assert_eq!(init, Call::WorkInit { work: 0x90, handler: 0xfe });
    assert_eq!(work.submit(), Call::WorkSubmit { work: 0x90 });
    assert_eq!(
        work.submit_to_queue(&worker(0x70)),
        Call::WorkSubmitToQueue { queue: 0x70, work: 0x90 }
    );
    work.handler();
    work.handler();
    assert_eq!(work.action().0.get(), 2);
}

#[test]
fn submit_results() {
    assert_eq!(SubmitResult::to_result(0), Ok(SubmitResult::AlreadySubmitted));
    assert_eq!(SubmitResult::to_result(1), Ok(SubmitResult::Enqueued));
    assert_eq!(Work::<Count>::submit_done(2), Ok(SubmitResult::WasRunning));
    assert_eq!(SubmitResult::to_result(-16), Err(Error(16)));
    assert!(!SubmitResult::AlreadySubmitted.enqueued());
    assert!(SubmitResult::Enqueued.enqueued());
    assert!(SubmitResult::WasRunning.enqueued());
    assert_eq!(WorkData::<()>::submit_done(0), Ok(SubmitResult::Enqueued));
}

#[test]
fn answer_is_taken_once() {
    let mut answer = Answer::new();
    assert_eq!(
        answer.place(5u8, 0x10),
        vec![
            Call::SemInit { sem: 0x10, initial_count: 0, limit: 1 },
            Call::SemGive { sem: 0x10 },
        ]
    );
    assert_eq!(answer.take(0x10), vec![Call::SemTake { sem: 0x10, timeout: FOREVER }]);
    assert_eq!(answer.take_done(0), 5);
    assert!(answer.item.is_none());
}

#[test]
fn future_starts_on_its_queue() {
    let mut builder = WorkBuilder::new();
    builder.set_worker(&worker(0x70)).set_name(0x99);
    assert_eq!((builder.queue, builder.name), (Some(0x70), Some(0x99)));
    let mut started: Started<&str, u8> = builder.start("future", 0x20, 0x30);
    assert_eq!(
        started.calls,
        vec![
            Call::WorkPollInit { work: 0x20, handler: 0x30 },
            Call::WorkPollSubmitToQueue {
                queue: 0x70,
                work: 0x20,
                event: None,
                timeout: NO_WAIT,
            },
        ]
    );
    let _ = started.handle.answer.place(9, 0x40);
    assert_eq!(started.handle.join(0x40), vec![Call::SemTake { sem: 0x40, timeout: FOREVER }]);
    assert_eq!(started.handle.join_done(0), 9);
}

#[test]
fn future_starts_on_the_system_queue() {
    let started: Started<(), ()> = WorkBuilder::new().start((), 0x20, 0x30);
    assert_eq!(
        started.calls[1],
        Call::WorkPollSubmit { work: 0x20, event: None, timeout: NO_WAIT }
    );
}

#[test]
fn spawning() {
    let started: Started<u8, ()> = kio::spawn(3, &worker(0x70), 0, 0x20, 0x30);
    assert_eq!(started.data.info.queue, Some(0x70));
    assert_eq!(started.data.future, 3);
    let started: Started<u8, ()> = kio::spawn_local(4, 0, Some(0x71), 0x20, 0x30);
    assert_eq!(started.data.info.queue, Some(0x71));
    assert_eq!(started.calls.len(), 2);
}

#[test]
fn handler_clears_and_resubmits() {
    let (mut data, _) = WorkData::new((), None, 0x20, 0x30);
    data.info.add_semaphore(0x55);
    assert_eq!(
        data.submit(),
        Call::WorkPollSubmit {
            work: 0x20,
            event: Some((POLL_TYPE_SEM_AVAILABLE, 0x55)),
            timeout: NO_WAIT,
        }
    );
    data.handler();
    match data.handler_done::<u8>(Poll::Pending, true) {
        HandlerNext::Resubmit { never_wakes, call } => {
            assert!(never_wakes);
            assert_eq!(
                call,
                Call::WorkPollSubmit { work: 0x20, event: None, timeout: FOREVER }
            );
        }
        _ => panic!("not ready"),
    }
    data.info.add_signal(0x66);
    match data.handler_done::<u8>(Poll::Pending, true) {
        HandlerNext::Resubmit { never_wakes, call } => {
            assert!(!never_wakes);
            assert_eq!(
                call,
                Call::WorkPollSubmit {
                    work: 0x20,
                    event: Some((POLL_TYPE_SIGNAL, 0x66)),
                    timeout: FOREVER,
                }
            );
        }
        _ => panic!("not ready"),
    }
    assert!(matches!(data.handler_done(Poll::Ready(3u8), true), HandlerNext::Place(3)));
    assert!(matches!(data.handler_done(Poll::Ready(3u8), false), HandlerNext::Discard(3)));
    assert!(matches!(
        data.handler_done::<u8>(Poll::Pending, false),
        HandlerNext::Resubmit { .. }
    ));
}

#[test]
fn conditions_with_a_time() {
    let (mut data, _) = WorkData::new((), Some(0x70), 0x20, 0x30);
    data.handler();
    ContextExt::add_queue(&mut data.info, 0x77, Timeout(4));
    assert_eq!(
        data.submit(),
        Call::WorkPollSubmitToQueue {
            queue: 0x70,
            work: 0x20,
            event: Some((POLL_TYPE_DATA_AVAILABLE, 0x77)),
            timeout: Timeout(4),
        }
    );
    data.handler();
    ContextExt::add_semaphore(&mut data.info, 0x78, Timeout(5));
    assert_eq!(data.info.timeout, Timeout(5));
    data.handler();
    ContextExt::add_signal(&mut data.info, 0x79, Timeout(6));
    assert_eq!(data.info.timeout, Timeout(6));
    data.handler();
    data.info.add_timeout(Timeout(7));
    match data.handler_done::<()>(Poll::Pending, true) {
        HandlerNext::Resubmit { never_wakes, .. } => assert!(!never_wakes),
        _ => panic!("not ready"),
    }
}

#[test]
fn sleep_waits_once() {
    let (mut data, _) = WorkData::new((), None, 0x20, 0x30);
    data.handler();
    let mut future = sleep(Duration::from_ticks(12));
    assert!(matches!(future.poll(&mut data.info), Poll::Pending));
    assert_eq!(data.info.timeout, Timeout(12));
    data.handler();
    assert!(matches!(future.poll(&mut data.info), Poll::Ready(())));
    assert_eq!(data.info.timeout, FOREVER);
    let mut none = kio::sleep(Duration::from_ticks(0));
    assert!(matches!(none.poll(&mut data.info), Poll::Ready(())));
}

#[test]
fn yield_at_most_once() {
    let (mut data, _) = WorkData::new((), Some(0x70), 0x20, 0x30);
    data.handler();
    let mut alone = kio::yield_now();
    assert!(matches!(alone.poll(&mut data.info, true), Poll::Ready(())));
    let mut future = kio::yield_now();
    assert!(matches!(future.poll(&mut data.info, false), Poll::Pending));
    assert_eq!(data.info.timeout, NO_WAIT);
    assert!(matches!(future.poll(&mut data.info, false), Poll::Ready(())));
    let (mut system, _) = WorkData::new((), None, 0x20, 0x30);
    let mut future = kio::yield_now();
    assert!(matches!(future.poll(&mut system.info, true), Poll::Pending));
}

#[test]
fn task_mutex() {
    let mut mutex = kio::sync::Mutex::new(5u8);
    assert_eq!(
        mutex.try_lock(0x10),
        vec![
            Call::SemInit { sem: 0x10, initial_count: 1, limit: 1 },
            Call::SemTake { sem: 0x10, timeout: NO_WAIT },
        ]
    );
    let guard = mutex.try_lock_done(0x10, 0).ok().unwrap();
    assert_eq!(mutex.try_lock_done(0x10, -16).err(), Some(TryLockError::WouldBlock));
    assert_eq!(*guard.deref(&mutex), 5);
    *guard.deref_mut(&mut mutex) = 6;
    assert_eq!(guard.drop(&mut mutex), vec![Call::SemGive { sem: 0x10 }]);
    assert_eq!(mutex.lock(0x10), vec![Call::SemTake { sem: 0x10, timeout: FOREVER }]);
    let guard = mutex.lock_done(0x10, 0).ok().unwrap();
    assert_eq!(*guard.deref(&mutex), 6);
    assert_eq!(mutex.to_debug_string(), "Mutex sys::Semaphore");
}

#[test]
fn simple_timer() {
    let (timer, init) = StoppedTimer::new(0x50, Box::new(KTimer));
    assert_eq!(init, Call::TimerInit { timer: 0x50, expiry: 0 });
    assert_eq!(timer.to_debug_string(), "StoppedTimer 0x50");
    let (mut timer, start) = timer.start_simple(Timeout(1), Timeout(2));
    assert_eq!(start, Call::TimerStart { timer: 0x50, delay: Timeout(1), period: Timeout(2) });
    assert_eq!(timer.read_count(), Call::TimerStatusGet { timer: 0x50 });
    assert_eq!(timer.read_count_wait(), Call::TimerStatusSync { timer: 0x50 });
    assert_eq!(
        timer.restart(Timeout(3), Timeout(4)),
        Call::TimerStart { timer: 0x50, delay: Timeout(3), period: Timeout(4) }
    );
    let (stopped, stop) = timer.stop();
    assert_eq!(stop, Call::TimerStop { timer: 0x50 });
    let (again, _) = stopped.start_simple(Timeout(1), Timeout(2));
    assert_eq!(again.drop(), Some(Call::TimerStop { timer: 0x50 }));
    assert_eq!(SimpleTimer { item: None }.drop(), None);
}

#[test]
fn callback_timer() {
    let (timer, _) = StoppedTimer::new(0x50, Box::new(KTimer));
    let callback = Callback { call: 0xca, data: 7u8 };
    let (timer, calls) =
        timer.start_callback(callback, Timeout(1), Timeout(2), 0xee, 0xda);
    assert_eq!(
        calls,
        vec![
            Call::TimerExpirySet { timer: 0x50, expiry: 0xee },
            Call::TimerUserDataSet { timer: 0x50, data: 0xda },
            Call::TimerStart { timer: 0x50, delay: Timeout(1), period: Timeout(2) },
        ]
    );
    assert_eq!(timer.expiry.data, 7);
    assert_eq!(CallbackTimer::<u8>::timer_expiry(0xda), Some(0xda));
    assert_eq!(CallbackTimer::<u8>::timer_expiry(0), None);
    let stop = vec![
        Call::TimerStop { timer: 0x50 },
        Call::TimerExpirySet { timer: 0x50, expiry: 0 },
    ];
    let (stopped, calls) = timer.stop();
    assert_eq!(calls, stop);
    let callback = Callback { call: 0xca, data: 7u8 };
    let (timer, _) = stopped.start_callback(callback, Timeout(1), Timeout(2), 0xee, 0xda);
    assert_eq!(timer.drop(), stop);
}
