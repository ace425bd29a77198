use zephyr::blocking::{
    run, BlockingFuture, Progress, SlotPool, SlotState, Wake, Work, WorkerPool,
};
use zephyr::raw::{Call, ThreadArgs};
use zephyr::thread::{
    Find, InitData, ReadyThread, RunningThread, Thread, ThreadData, ThreadStack, ThreadState,
};
use zephyr::time::Timeout;

type Op = &'static str;

fn submit(pool: &mut SlotPool<Op, u32>, op: Op) -> (BlockingFuture<Op>, usize) {
    let mut future = run(op);
    match future.poll(pool) {
        Progress::Submit(slot) => (future, slot),
        _ => panic!("no slot"),
    }
}

#[test]
fn result_reaches_the_future() {
    let mut pool: SlotPool<Op, u32> = SlotPool::new(2);
    let (mut future, slot) = submit(&mut pool, "op");
    assert_eq!(slot, 0);
    assert_eq!(pool.slots[0].state, SlotState::Queued);
    assert!(matches!(future.poll(&mut pool), Progress::WaitForResult(0)));
    assert!(matches!(pool.run_op(slot), Work::Run("op")));
    assert!(matches!(future.poll(&mut pool), Progress::WaitForResult(0)));
    assert_eq!(pool.run_op_done(slot, 42), Wake::Owner);
    assert_eq!(pool.slots[0].state, SlotState::Done);
    assert!(matches!(future.poll(&mut pool), Progress::Ready(42)));
    assert_eq!(pool.slots[0].state, SlotState::Free);
    assert_eq!(future.drop(), None);
}

#[test]
fn first_free_slot_is_claimed() {
    let mut pool: SlotPool<Op, u32> = SlotPool::new(3);
    assert_eq!(pool.claim(), Some(0));
    assert_eq!(pool.claim(), Some(1));
    pool.release(0);
    assert_eq!(pool.claim(), Some(0));
    assert_eq!(pool.claim(), Some(2));
    assert_eq!(pool.claim(), None);
    assert_eq!(pool.slots[2].state, SlotState::Claimed);
}

#[test]
fn full_pool_makes_futures_wait() {
    let mut pool: SlotPool<Op, u32> = SlotPool::new(1);
    let (mut first, slot) = submit(&mut pool, "first");
    let mut second = run("second");
    assert!(matches!(second.poll(&mut pool), Progress::WaitForSlot));
    assert_eq!(second.op, Some("second"));
    assert!(matches!(pool.run_op(slot), Work::Run("first")));
    let _ = pool.run_op_done(slot, 1);
    assert!(matches!(first.poll(&mut pool), Progress::Ready(1)));
    assert!(matches!(second.poll(&mut pool), Progress::Submit(0)));
}

#[test]
fn cancelled_in_the_queue_never_runs() {
    let mut pool: SlotPool<Op, u32> = SlotPool::new(1);
    let (future, slot) = submit(&mut pool, "op");
    assert_eq!(future.drop(), Some(slot));
    assert!(pool.cancel(slot, true));
    assert_eq!(pool.slots[slot].state, SlotState::Free);
    assert!(pool.slots[slot].shared.is_none());
}

#[test]
fn cancelled_while_running_discards_the_result() {
    let mut pool: SlotPool<Op, u32> = SlotPool::new(1);
    let (_future, slot) = submit(&mut pool, "op");
    assert!(matches!(pool.run_op(slot), Work::Run("op")));
    assert!(!pool.cancel(slot, false));
    assert_eq!(pool.slots[slot].state, SlotState::Orphaned);
    assert_eq!(pool.claim(), None);
    assert_eq!(pool.run_op_done(slot, 5), Wake::Waiters);
    assert_eq!(pool.slots[slot].state, SlotState::Free);
}

#[test]
fn cancelled_before_the_worker_looks() {
    let mut pool: SlotPool<Op, u32> = SlotPool::new(1);
    let (_future, slot) = submit(&mut pool, "op");
    assert!(!pool.cancel(slot, false));
    assert!(matches!(pool.run_op(slot), Work::Released));
    assert_eq!(pool.slots[slot].state, SlotState::Free);
}

#[test]
fn cancelled_after_the_result() {
    let mut pool: SlotPool<Op, u32> = SlotPool::new(1);
    let (_future, slot) = submit(&mut pool, "op");
    let _ = pool.run_op(slot);
    let _ = pool.run_op_done(slot, 5);
    assert!(pool.cancel(slot, false));
    assert_eq!(pool.slots[slot].state, SlotState::Free);
}

#[test]
fn operation_is_given_out_once() {
    let mut pool: SlotPool<Op, u32> = SlotPool::new(1);
    let (_future, slot) = submit(&mut pool, "op");
    assert!(matches!(pool.run_op(slot), Work::Run("op")));
    assert!(matches!(pool.run_op(slot), Work::Released));
}

#[test]
fn workers_start_once() {
    let mut workers = WorkerPool::new(3);
    assert_eq!(workers.start_workers_once(), 3);
    assert_eq!(workers.start_workers_once(), 0);
    assert_eq!(
        workers.worker(0x10),
        vec![
            Call::QueueInit { queue: 0x10 },
            Call::QueueGet { queue: 0x10, timeout: Timeout(-1) },
        ]
    );
    assert_eq!(workers.send(0x10, 0x20), vec![Call::QueueAppend { queue: 0x10, data: 0x20 }]);
    assert_eq!(workers.remove(0x10, 0x20), vec![Call::QueueRemove { queue: 0x10, data: 0x20 }]);
}

fn threads(count: usize) -> Vec<ThreadData<u8>> {
    (0..count).map(|i| ThreadData::new(0x100 + i, 0x200 + i)).collect()
}

#[test]
fn thread_is_acquired_and_started() {
    let mut pool = threads(2);
    let stacks = vec![ThreadStack::<512>::new(0x1000), ThreadStack::<512>::new(0x2000)];
    assert_eq!(stacks[0].size(), 512);
    assert!(matches!(ThreadData::acquire(&mut pool), Find::Found(0)));
    assert_eq!(pool[0].state, ThreadState::Allocated);
    assert!(matches!(ThreadData::acquire(&mut pool), Find::Found(1)));
    let call = ThreadData::acquire_found(&mut pool, &stacks, 1, 9, 0xe0, 5);
    assert_eq!(
        call,
        Call::ThreadCreate(ThreadArgs {
            thread: 0x101,
            stack: 0x2000,
            stack_size: 512,
            entry: 0xe0,
            args: (0x201, 0, 0),
            priority: 5,
            options: 0,
            delay: Timeout(-1),
        })
    );
    assert_eq!(pool[1].init.0, Some(9));
    let (ready, name) = ThreadData::<u8>::acquire_created(1, 0x101, 0xaa);
    assert_eq!(ready, ReadyThread { id: 0x101, index: 1 });
    assert_eq!(name, Call::ThreadNameSet { thread: 0x101, name: 0xaa });
    assert_eq!(ready.set_priority(3), Call::ThreadPrioritySet { thread: 0x101, priority: 3 });
    let (running, wake) = ready.start(&mut pool);
    assert_eq!(running, RunningThread { id: 0x101 });
    assert_eq!(wake, Call::Wakeup { thread: 0x101 });
    assert_eq!(pool[1].state, ThreadState::Running);
    assert_eq!(running.join(), Call::ThreadJoin { thread: 0x101, timeout: Timeout(-1) });
}

#[test]
fn thread_is_reused_after_it_exited() {
    let mut pool = threads(3);
    pool[0].state = ThreadState::Allocated;
    pool[1].state = ThreadState::Running;
    pool[2].state = ThreadState::Running;
    match ThreadData::acquire(&mut pool) {
        Find::Join(1, call) => assert_eq!(
            call,
            Call::ThreadJoin { thread: 0x101, timeout: Timeout(0) }
        ),
        _ => panic!("expected a join"),
    }
    assert!(matches!(ThreadData::find_thread_joined(&mut pool, 1, -16), Find::Join(2, _)));
    assert!(matches!(ThreadData::find_thread_joined(&mut pool, 2, 0), Find::Found(2)));
    assert_eq!(pool[2].state, ThreadState::Allocated);
    assert_eq!(pool[1].state, ThreadState::Running);
}

#[test]
fn exhausted_pool() {
    let mut pool = threads(2);
    pool[0].state = ThreadState::Running;
    pool[1].state = ThreadState::Allocated;
    assert!(matches!(ThreadData::acquire(&mut pool), Find::Join(0, _)));
    assert!(matches!(ThreadData::find_thread_joined(&mut pool, 0, -11), Find::Exhausted));
    assert!(matches!(ThreadData::find_thread(&mut pool, 2), Find::Exhausted));
    let mut none = threads(0);
    assert!(matches!(ThreadData::acquire(&mut none), Find::Exhausted));
}

#[test]
fn thread_started_at_once() {
    let mut data = ThreadData::new(0x10, 0x20);
    let stack = ThreadStack::<64>::new(0x30);
    let call = data.acquire_old(7u16, &stack, 0x40);
    assert_eq!(
        call,
        Call::ThreadCreate(ThreadArgs {
            thread: 0x10,
            stack: 0x30,
            stack_size: 64,
            entry: 0x40,
            args: (0x20, 0, 0),
            priority: 0,
            options: 0,
            delay: Timeout(0),
        })
    );
    assert_eq!(data.state, ThreadState::Allocated);
    assert_eq!(data.init.0, Some(7));
    assert_eq!(InitData::<u8>::new().0, None);
    assert_eq!(Thread::new(4), Thread(4));
}
