//! Static threads and their stacks.
use crate::object::{StaticKernelObject, Wrapped, KOBJ_UNINITIALIZED};
use crate::raw::{Addr, Call, ThreadArgs};
use crate::sys::K_NO_WAIT;
use crate::time::Timeout;
use vstd::prelude::*;

verus! {

/// The least multiple of `align` that is not below `size`.
pub open spec fn next_multiple(size: int, align: int) -> int {
    ((size + align - 1) / align) * align
}

/// The size of a stack, rounded up to the alignment of stacks.
pub fn stack_len(size: usize, align: usize) -> (r: usize)
    requires
        align > 0,
        next_multiple(size as int, align as int) <= usize::MAX,
    ensures
        r == next_multiple(size as int, align as int),
{
    proof {
        lemma_next_multiple(size as int, align as int);
    }
    let rest: usize = size % align;
    if rest == 0 {
        size
    } else {
        size + (align - rest)
    }
}

proof fn lemma_next_multiple(size: int, align: int)
    requires
        align > 0,
        size >= 0,
    ensures
        next_multiple(size, align) == if size % align == 0 {
            size
        } else {
            size + (align - size % align)
        },
{
    let q = size / align;
    let r = size % align;
    assert(size == q * align + r && 0 <= r < align) by {
        vstd::arithmetic::div_mod::lemma_fundamental_div_mod(size, align);
        vstd::arithmetic::div_mod::lemma_mod_bound(size, align);
        vstd::arithmetic::mul::lemma_mul_is_commutative(align, q);
    }
    if r == 0 {
        assert((size + align - 1) / align == q) by {
            vstd::arithmetic::div_mod::lemma_fundamental_div_mod_converse(
                size + align - 1,
                align,
                q,
                align - 1,
            );
        }
    } else {
        assert((size + align - 1) / align == q + 1) by {
            assert((q + 1) * align == q * align + align) by (nonlinear_arith);
            vstd::arithmetic::div_mod::lemma_fundamental_div_mod_converse(
                size + align - 1,
                align,
                q + 1,
                r - 1,
            );
        }
        assert((q + 1) * align == q * align + align) by (nonlinear_arith);
    }
}

/// A stack length is a multiple of the alignment, not below the size that was asked for, and less
/// than one alignment above it.
pub proof fn law_stack_len(size: int, align: int)
    requires
        align > 0,
        size >= 0,
    ensures
        next_multiple(size, align) % align == 0,
        size <= next_multiple(size, align) < size + align,
{
    lemma_next_multiple(size, align);
    vstd::arithmetic::div_mod::lemma_mod_bound(size, align);
    vstd::arithmetic::div_mod::lemma_mod_multiples_basic((size + align - 1) / align, align);
}

/// The stack of a thread.
#[derive(Clone, Copy, Debug, PartialEq, Eq, Structural)]
pub struct ThreadStack {
    /// The lowest address.
    pub base: Addr,
    /// The size in bytes.
    pub size: usize,
}

/// The stack of a static thread.
#[derive(Clone, Copy, Debug, PartialEq, Eq, Structural)]
pub struct StaticThreadStack {
    /// The lowest address.
    pub base: Addr,
    /// The size in bytes.
    pub size: usize,
}

impl Wrapped for StaticKernelObject<StaticThreadStack> {
    type T = ThreadStack;

    type I = ();

    open spec fn wrapped(&self, addr: Addr, args: ()) -> ThreadStack {
        ThreadStack { base: self.value.base, size: self.value.size }
    }

    open spec fn wrapped_calls(&self, addr: Addr, args: ()) -> Seq<Call> {
        Seq::empty()
    }

    fn get_wrapped(&self, addr: Addr, args: ()) -> (r: (ThreadStack, Vec<Call>)) {
        (ThreadStack { base: self.value.base, size: self.value.size }, Vec::new())
    }
}

impl StaticKernelObject<StaticThreadStack> {
    /// The stack of `size` bytes at `base`.
    pub fn new_from(base: Addr, size: usize) -> (r: Self)
        ensures
            r.wf(),
            r.init == KOBJ_UNINITIALIZED,
            r.value == (StaticThreadStack { base, size }),
    {
        StaticKernelObject::new(StaticThreadStack { base, size })
    }

    /// The stacks of `size` bytes each at `bases`.
    pub fn new_from_array(bases: &Vec<Addr>, size: usize) -> (r: Vec<Self>)
        ensures
            r@.len() == bases@.len(),
            forall|i: int|
                0 <= i < bases@.len() ==> (#[trigger] r@[i]) == (StaticKernelObject {
                    value: StaticThreadStack { base: bases@[i], size },
                    init: KOBJ_UNINITIALIZED,
                }),
    {
        let mut r: Vec<Self> = Vec::new();
        let mut i: usize = 0;
        while i < bases.len()
            invariant
                i <= bases@.len(),
                r@.len() == i,
                forall|j: int|
                    0 <= j < i ==> (#[trigger] r@[j]) == (StaticKernelObject {
                        value: StaticThreadStack { base: bases@[j], size },
                        init: KOBJ_UNINITIALIZED,
                    }),
            decreases bases@.len() - i,
        {
            r.push(Self::new_from(bases[i], size));
            i = i + 1;
        }
        r
    }
}

/// The kernel's `k_thread`, which holds nothing of this library.
pub struct KThread;

/// A static thread.
pub type StaticThread = StaticKernelObject<KThread>;

/// A thread that was not started.
#[derive(Clone, Copy, Debug, PartialEq, Eq, Structural)]
pub struct Thread {
    /// The thread object.
    pub raw: Addr,
    /// Its stack.
    pub stack: ThreadStack,
    /// The priority that it starts with.
    pub priority: i32,
    /// The options that it is created with.
    pub options: u32,
}

impl Wrapped for StaticKernelObject<KThread> {
    type T = Thread;

    type I = ThreadStack;

    open spec fn wrapped(&self, addr: Addr, args: ThreadStack) -> Thread {
        Thread { raw: addr, stack: args, priority: 0, options: 0 }
    }

    open spec fn wrapped_calls(&self, addr: Addr, args: ThreadStack) -> Seq<Call> {
        Seq::empty()
    }

    fn get_wrapped(&self, addr: Addr, args: ThreadStack) -> (r: (Thread, Vec<Call>)) {
        (Thread { raw: addr, stack: args, priority: 0, options: 0 }, Vec::new())
    }
}

impl Thread {
    /// The call that creates this thread to run `entry(p1, p2, p3)` at once.
    pub open spec fn create(self, entry: Addr, p1: Addr, p2: Addr, p3: Addr) -> Call {
        Call::ThreadCreate(
            ThreadArgs {
                thread: self.raw,
                stack: self.stack.base,
                stack_size: self.stack.size,
                entry,
                args: (p1, p2, p3),
                priority: self.priority,
                options: self.options,
                delay: Timeout(K_NO_WAIT),
            },
        )
    }

    /// Set the priority that the thread starts with.
    pub fn set_priority(&mut self, priority: i32)
        ensures
            *final(self) == (Thread { priority, ..*old(self) }),
    {
        self.priority = priority;
    }

    /// Set the options that the thread is created with.
    pub fn set_options(&mut self, options: u32)
        ensures
            *final(self) == (Thread { options, ..*old(self) }),
    {
        self.options = options;
    }

    /// Start the thread on a C function with three arguments.
    pub fn simple_spawn(self, child: Addr, p1: Addr, p2: Addr, p3: Addr) -> (call: Call)
        ensures
            call == self.create(child, p1, p2, p3),
    {
        Call::ThreadCreate(
            ThreadArgs {
                thread: self.raw,
                stack: self.stack.base,
                stack_size: self.stack.size,
                entry: child,
                args: (p1, p2, p3),
                priority: self.priority,
                options: self.options,
                delay: Timeout(K_NO_WAIT),
            },
        )
    }

    /// Start the thread on a closure that is at `child`, which `entry` calls.
    pub fn spawn(&self, entry: Addr, child: Addr) -> (call: Call)
        ensures
            call == self.create(entry, child, 0, 0),
    {
        self.simple_spawn(entry, child, 0, 0)
    }
}

/// The length of a stack is the least multiple of the alignment that is not below the size.
pub proof fn law_stack_len_is_least(size: usize, align: usize, len: usize, other: int)
    requires
        align > 0,
        next_multiple(size as int, align as int) <= usize::MAX,
        call_ensures(stack_len, (size, align), len),
    ensures
        len as int % align as int == 0,
        size <= len < size + align,
        size <= other && other % align as int == 0 ==> len <= other,
{
    law_stack_len(size as int, align as int);
    if size <= other && other % align as int == 0 && other < len {
        let a = align as int;
        let m = other / a;
        let n = len as int / a;
        vstd::arithmetic::div_mod::lemma_fundamental_div_mod(other, a);
        vstd::arithmetic::div_mod::lemma_fundamental_div_mod(len as int, a);
        assert(false) by (nonlinear_arith)
            requires
                a > 0,
                a * m == other,
                a * n == len,
                size <= other,
                other < len,
                len < size + a,
        ;
    }
}

/// A static stack is handed out as it is, and a static thread with the stack that it is given; such
/// a thread has no priority and no options set.  Neither needs a call.
pub proof fn law_static_threads(
    base: Addr,
    size: usize,
    stack: &mut StaticKernelObject<StaticThreadStack>,
    at: Addr,
    got: Option<(ThreadStack, Vec<Call>)>,
    thread: &mut StaticKernelObject<KThread>,
    raw: Addr,
    given: ThreadStack,
    made: Option<(Thread, Vec<Call>)>,
)
    requires
        call_ensures(StaticKernelObject::<StaticThreadStack>::new_from, (base, size), *old(stack)),
        call_ensures(StaticKernelObject::<StaticThreadStack>::init_once, (stack, at, ()), got),
        old(thread).init == 0,
        call_ensures(StaticKernelObject::<KThread>::init_once, (thread, raw, given), made),
    ensures
        got matches Some((s, calls)) && s.base == base && s.size == size && calls@.len() == 0,
        made matches Some((t, calls)) && t.raw == raw && t.stack == given && t.priority == 0
            && t.options == 0 && calls@.len() == 0,
{
}

/// A thread is created at once, on its own stack, with the priority and the options that were set
/// last, to run the function and the arguments that are given.
pub proof fn law_thread_is_spawned(
    prioritised: &mut Thread,
    priority: i32,
    optioned: &mut Thread,
    options: u32,
    thread: Thread,
    child: Addr,
    p1: Addr,
    p2: Addr,
    p3: Addr,
    call: Call,
    closure: Call,
)
    requires
        call_ensures(Thread::set_priority, (prioritised, priority), ()),
        *old(optioned) == *final(prioritised),
        call_ensures(Thread::set_options, (optioned, options), ()),
        thread == *final(optioned),
        call_ensures(Thread::simple_spawn, (thread, child, p1, p2, p3), call),
        call_ensures(Thread::spawn, (&thread, child, p1), closure),
    ensures
        call matches Call::ThreadCreate(args) && {
            &&& args.thread == old(prioritised).raw
            &&& args.stack == old(prioritised).stack.base
            &&& args.stack_size == old(prioritised).stack.size
            &&& args.entry == child
            &&& args.args == (p1, p2, p3)
            &&& args.priority == priority
            &&& args.options == options
            &&& args.delay.0 == 0
        },
        closure matches Call::ThreadCreate(args) && {
            &&& args.thread == old(prioritised).raw
            &&& args.stack == old(prioritised).stack.base
            &&& args.stack_size == old(prioritised).stack.size
            &&& args.entry == child
            &&& args.args == (p1, 0usize, 0usize)
            &&& args.priority == priority
            &&& args.options == options
            &&& args.delay.0 == 0
        },
{
}

} // verus!
