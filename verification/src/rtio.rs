//! Real-time I/O contexts.
//!
//! A context has a pool of submission entries and a pool of completion entries.  Operations are put
//! into acquired submission entries and submitted; completions are consumed and released.
use crate::error::{to_result_void, void_result_of, Error};
use crate::object::{ObjectInit, ZephyrObject};
use crate::raw::{Addr, Call, K_SEM_MAX_LIMIT};
use vstd::prelude::*;

verus! {

/// The fields of a context and of its pools that are set when it is initialised.
#[derive(Clone, Copy, Debug, PartialEq, Eq, Structural)]
pub enum RtioField {
    /// `rtio.submit_sem`
    SubmitSem,
    /// `rtio.submit_count`
    SubmitCount,
    /// `rtio.consume_sem`
    ConsumeSem,
    /// `rtio.cq_count`
    CqCount,
    /// `rtio.xcqcnt`
    Xcqcnt,
    /// `rtio.sqe_pool`
    SqePool,
    /// `rtio.cqe_pool`
    CqePool,
    /// `sqe_pool.pool_size`
    SqePoolSize,
    /// `sqe_pool.pool_free`
    SqePoolFree,
    /// `sqe_pool.pool`
    SqePoolItems,
    /// `cqe_pool.pool_size`
    CqePoolSize,
    /// `cqe_pool.pool_free`
    CqePoolFree,
    /// `cqe_pool.pool`
    CqePoolItems,
}

/// Where the parts of a context are.
#[derive(Clone, Copy, Debug, PartialEq, Eq, Structural)]
pub struct RtioAddrs {
    /// The context itself.
    pub rtio: Addr,
    /// The semaphore for submissions, where the kernel is configured to have one.
    pub submit_sem: Option<Addr>,
    /// The semaphore for completions, where the kernel is configured to have one.
    pub consume_sem: Option<Addr>,
    /// The pool of submission entries.
    pub sqe_pool: Addr,
    /// Its queue of free entries.
    pub sqe_free_q: Addr,
    /// Its entries.
    pub sqe_pool_items: Addr,
    /// The pool of completion entries.
    pub cqe_pool: Addr,
    /// Its queue of free entries.
    pub cqe_free_q: Addr,
    /// Its entries.
    pub cqe_pool_items: Addr,
    /// The queue of submissions.
    pub sq: Addr,
    /// The queue of completions.
    pub cq: Addr,
}

/// A context with `SQE_SZ` submission entries and `CQE_SZ` completion entries.
pub struct RtioData<const SQE_SZ: usize, const CQE_SZ: usize> {
    /// Where its parts are.
    pub at: RtioAddrs,
    /// The queue nodes of the submission entries.
    pub sqe_nodes: Vec<Addr>,
    /// The queue nodes of the completion entries.
    pub cqe_nodes: Vec<Addr>,
}

/// The calls that push nodes to a queue one after the other.
pub open spec fn pushes(mpsc: Addr, nodes: Seq<Addr>) -> Seq<Call> {
    nodes.map_values(|node: Addr| Call::MpscPush { mpsc, node })
}

/// A store to a field of the context or of the pool at `item`.
pub open spec fn store(item: Addr, field: RtioField, word: usize) -> Call {
    Call::RtioStore { item, field, word }
}

/// The calls that initialise the semaphore for submissions.
pub open spec fn submit_sem_calls(at: RtioAddrs) -> Seq<Call> {
    match at.submit_sem {
        Some(sem) => seq![
            Call::SemInit { sem, initial_count: 0, limit: K_SEM_MAX_LIMIT },
            store(at.rtio, RtioField::SubmitSem, sem),
            store(at.rtio, RtioField::SubmitCount, 0),
        ],
        None => Seq::empty(),
    }
}

/// The calls that initialise the semaphore for completions.
pub open spec fn consume_sem_calls(at: RtioAddrs) -> Seq<Call> {
    match at.consume_sem {
        Some(sem) => seq![
            Call::SemInit { sem, initial_count: 0, limit: K_SEM_MAX_LIMIT },
            store(at.rtio, RtioField::ConsumeSem, sem),
        ],
        None => Seq::empty(),
    }
}

/// The calls that fill the pool of submission entries.
pub open spec fn sqe_pool_calls(at: RtioAddrs, size: u16, nodes: Seq<Addr>) -> Seq<Call> {
    seq![
        Call::MpscInit { mpsc: at.sqe_free_q },
        store(at.sqe_pool, RtioField::SqePoolSize, size as usize),
        store(at.sqe_pool, RtioField::SqePoolFree, size as usize),
        store(at.sqe_pool, RtioField::SqePoolItems, at.sqe_pool_items),
    ] + pushes(at.sqe_free_q, nodes)
}

/// The calls that fill the pool of completion entries.
pub open spec fn cqe_pool_calls(at: RtioAddrs, size: u16, nodes: Seq<Addr>) -> Seq<Call> {
    seq![
        Call::MpscInit { mpsc: at.cqe_free_q },
        store(at.cqe_pool, RtioField::CqePoolSize, size as usize),
        store(at.cqe_pool, RtioField::CqePoolFree, size as usize),
        store(at.cqe_pool, RtioField::CqePoolItems, at.cqe_pool_items),
    ] + pushes(at.cqe_free_q, nodes)
}

fn push_all(calls: &mut Vec<Call>, mpsc: Addr, nodes: &Vec<Addr>)
    ensures
        final(calls)@ == old(calls)@ + pushes(mpsc, nodes@),
{
    let mut i: usize = 0;
    assert(calls@ =~= old(calls)@ + pushes(mpsc, nodes@.take(0)));
    while i < nodes.len()
        invariant
            i <= nodes@.len(),
            calls@ == old(calls)@ + pushes(mpsc, nodes@.take(i as int)),
        decreases nodes@.len() - i,
    {
        calls.push(Call::MpscPush { mpsc, node: nodes[i] });
        i = i + 1;
        proof {
            assert(nodes@.take(i as int) =~= nodes@.take(i - 1).push(nodes@[i - 1]));
            assert(calls@ =~= old(calls)@ + pushes(mpsc, nodes@.take(i as int)));
        }
    }
    assert(nodes@.take(nodes@.len() as int) =~= nodes@);
}

fn fill_sqe_pool(calls: &mut Vec<Call>, at: RtioAddrs, size: u16, nodes: &Vec<Addr>)
    ensures
        final(calls)@ == old(calls)@ + sqe_pool_calls(at, size, nodes@),
{
    let item: Addr = at.sqe_pool;
    let word: usize = size as usize;
    calls.push(Call::MpscInit { mpsc: at.sqe_free_q });
    calls.push(Call::RtioStore { item, field: RtioField::SqePoolSize, word });
    calls.push(Call::RtioStore { item, field: RtioField::SqePoolFree, word });
    calls.push(
        Call::RtioStore { item, field: RtioField::SqePoolItems, word: at.sqe_pool_items },
    );
    push_all(calls, at.sqe_free_q, nodes);
    assert(calls@ =~= old(calls)@ + sqe_pool_calls(at, size, nodes@));
}

fn fill_cqe_pool(calls: &mut Vec<Call>, at: RtioAddrs, size: u16, nodes: &Vec<Addr>)
    ensures
        final(calls)@ == old(calls)@ + cqe_pool_calls(at, size, nodes@),
{
    let item: Addr = at.cqe_pool;
    let word: usize = size as usize;
    calls.push(Call::MpscInit { mpsc: at.cqe_free_q });
    calls.push(Call::RtioStore { item, field: RtioField::CqePoolSize, word });
    calls.push(Call::RtioStore { item, field: RtioField::CqePoolFree, word });
    calls.push(
        Call::RtioStore { item, field: RtioField::CqePoolItems, word: at.cqe_pool_items },
    );
    push_all(calls, at.cqe_free_q, nodes);
    assert(calls@ =~= old(calls)@ + cqe_pool_calls(at, size, nodes@));
}

impl<const SQE_SZ: usize, const CQE_SZ: usize> ObjectInit for RtioData<SQE_SZ, CQE_SZ> {
    open spec fn init_calls(&self, addr: Addr) -> Seq<Call> {
        submit_sem_calls(self.at) + consume_sem_calls(self.at) + seq![
            store(self.at.rtio, RtioField::CqCount, 0),
            store(self.at.rtio, RtioField::Xcqcnt, 0),
        ] + sqe_pool_calls(self.at, SQE_SZ as u16, self.sqe_nodes@) + cqe_pool_calls(
            self.at,
            CQE_SZ as u16,
            self.cqe_nodes@,
        ) + seq![
            store(self.at.rtio, RtioField::SqePool, self.at.sqe_pool),
            store(self.at.rtio, RtioField::CqePool, self.at.cqe_pool),
            Call::MpscInit { mpsc: self.at.sq },
            Call::MpscInit { mpsc: self.at.cq },
        ]
    }

    fn init(&self, addr: Addr) -> (calls: Vec<Call>) {
        let at = self.at;
        let rtio: Addr = at.rtio;
        let mut calls: Vec<Call> = Vec::new();
        if let Some(sem) = at.submit_sem {
            calls.push(Call::SemInit { sem, initial_count: 0, limit: K_SEM_MAX_LIMIT });
            calls.push(Call::RtioStore { item: rtio, field: RtioField::SubmitSem, word: sem });
            calls.push(Call::RtioStore { item: rtio, field: RtioField::SubmitCount, word: 0 });
        }
        assert(calls@ =~= submit_sem_calls(at));
        if let Some(sem) = at.consume_sem {
            calls.push(Call::SemInit { sem, initial_count: 0, limit: K_SEM_MAX_LIMIT });
            calls.push(Call::RtioStore { item: rtio, field: RtioField::ConsumeSem, word: sem });
        }
        assert(calls@ =~= submit_sem_calls(at) + consume_sem_calls(at));
        let ghost before = calls@;
        calls.push(Call::RtioStore { item: rtio, field: RtioField::CqCount, word: 0 });
        calls.push(Call::RtioStore { item: rtio, field: RtioField::Xcqcnt, word: 0 });
        let ghost counts = seq![
            store(rtio, RtioField::CqCount, 0),
            store(rtio, RtioField::Xcqcnt, 0),
        ];
        assert(calls@ =~= before + counts);
        #[verifier::truncate]
        let sqe_size: u16 = SQE_SZ as u16;
        #[verifier::truncate]
        let cqe_size: u16 = CQE_SZ as u16;
        fill_sqe_pool(&mut calls, at, sqe_size, &self.sqe_nodes);
        fill_cqe_pool(&mut calls, at, cqe_size, &self.cqe_nodes);
        calls.push(Call::RtioStore { item: rtio, field: RtioField::SqePool, word: at.sqe_pool });
        calls.push(Call::RtioStore { item: rtio, field: RtioField::CqePool, word: at.cqe_pool });
        calls.push(Call::MpscInit { mpsc: at.sq });
        calls.push(Call::MpscInit { mpsc: at.cq });
        assert(calls@ =~= self.init_calls(addr));
        calls
    }
}

/// A context that is initialised when it is first used.
pub struct RtioObject<const SQE_SZ: usize, const CQE_SZ: usize>(
    pub ZephyrObject<RtioData<SQE_SZ, CQE_SZ>>,
);

impl<const SQE_SZ: usize, const CQE_SZ: usize> RtioObject<SQE_SZ, CQE_SZ> {
    /// The pools have the sizes that the type says.
    pub open spec fn wf(self) -> bool {
        self.0.object.sqe_nodes@.len() == SQE_SZ && self.0.object.cqe_nodes@.len() == CQE_SZ
    }

    /// A context whose parts are at `at`, with the queue nodes of its entries.
    pub fn new(at: RtioAddrs, sqe_nodes: Vec<Addr>, cqe_nodes: Vec<Addr>) -> (r: Self)
        requires
            sqe_nodes@.len() == SQE_SZ,
            cqe_nodes@.len() == CQE_SZ,
        ensures
            r.wf(),
            r.0.state == 0,
            r.0.object == (RtioData::<SQE_SZ, CQE_SZ> { at, sqe_nodes, cqe_nodes }),
    {
        RtioObject(ZephyrObject::new_raw(RtioData { at, sqe_nodes, cqe_nodes }))
    }

    /// Acquire a submission entry of the context, which is at `addr`.
    pub fn sqe_acquire(&mut self, addr: Addr) -> (calls: Vec<Call>)
        requires
            old(self).wf(),
            old(self).0.usable(addr),
        ensures
            final(self).wf(),
            final(self).0 == old(self).0.after_get(addr),
            calls@ == old(self).0.get_calls(addr).push(
                Call::RtioSqeAcquire { rtio: old(self).0.object.at.rtio },
            ),
    {
        let mut calls = self.0.get(addr);
        calls.push(Call::RtioSqeAcquire { rtio: self.0.object.at.rtio });
        calls
    }

    /// The submission entry, or `None` if none was free.
    pub fn sqe_acquire_done(ptr: Addr) -> (r: Option<Sqe>)
        ensures
            r == (if ptr == 0 {
                None
            } else {
                Some(Sqe { item: ptr })
            }),
    {
        if ptr == 0 {
            None
        } else {
            Some(Sqe { item: ptr })
        }
    }

    /// Submit the acquired entries, and wait for `wait` completions, which the kernel takes as 32
    /// bits.
    pub fn submit(&mut self, addr: Addr, wait: usize) -> (calls: Vec<Call>)
        requires
            old(self).wf(),
            old(self).0.usable(addr),
        ensures
            final(self).wf(),
            final(self).0 == old(self).0.after_get(addr),
            calls@ == old(self).0.get_calls(addr).push(
                Call::RtioSubmit { rtio: old(self).0.object.at.rtio, wait: wait as u32 },
            ),
    {
        let mut calls = self.0.get(addr);
        #[verifier::truncate]
        let wait: u32 = wait as u32;
        calls.push(Call::RtioSubmit { rtio: self.0.object.at.rtio, wait });
        calls
    }

    /// Whether the entries were submitted.
    pub fn submit_done(code: i32) -> (r: Result<(), Error>)
        ensures
            r == void_result_of(code),
    {
        to_result_void(code)
    }

    /// Take a completion of the context, which is at `addr`.
    pub fn cqe_consume(&mut self, addr: Addr) -> (calls: Vec<Call>)
        requires
            old(self).wf(),
            old(self).0.usable(addr),
        ensures
            final(self).wf(),
            final(self).0 == old(self).0.after_get(addr),
            calls@ == old(self).0.get_calls(addr).push(
                Call::RtioCqeConsume { rtio: old(self).0.object.at.rtio },
            ),
    {
        let mut calls = self.0.get(addr);
        calls.push(Call::RtioCqeConsume { rtio: self.0.object.at.rtio });
        calls
    }

    /// The completion, or `None` if there was none.
    pub fn cqe_consume_done(&self, ptr: Addr) -> (r: Option<Cqe>)
        ensures
            r == (if ptr == 0 {
                None
            } else {
                Some(Cqe { item: ptr, rtio: self.0.object.at.rtio })
            }),
    {
        if ptr == 0 {
            None
        } else {
            Some(Cqe { item: ptr, rtio: self.0.object.at.rtio })
        }
    }
}

/// A submission entry.
#[derive(Clone, Copy, Debug, PartialEq, Eq, Structural)]
pub struct Sqe {
    /// The kernel's entry.
    pub item: Addr,
}

impl Sqe {
    /// Make the entry call a function.
    pub fn prep_callback(&mut self, callback: Addr, arg0: Addr, userdata: Addr) -> (call: Call)
        ensures
            *final(self) == *old(self),
            call == (Call::RtioSqePrepCallback { sqe: old(self).item, callback, arg0, userdata }),
    {
        Call::RtioSqePrepCallback { sqe: self.item, callback, arg0, userdata }
    }

    /// Make the entry do nothing.
    pub fn prep_nop(&mut self, dev: Addr, userdata: Addr) -> (call: Call)
        ensures
            *final(self) == *old(self),
            call == (Call::RtioSqePrepNop { sqe: old(self).item, iodev: dev, userdata }),
    {
        Call::RtioSqePrepNop { sqe: self.item, iodev: dev, userdata }
    }

    /// Set flags of the entry.
    pub fn or_flags(&mut self, flags: u16) -> (call: Call)
        ensures
            *final(self) == *old(self),
            call == (Call::RtioSqeOrFlags { sqe: old(self).item, bits: flags }),
    {
        Call::RtioSqeOrFlags { sqe: self.item, bits: flags }
    }
}

/// A completion.
#[derive(Clone, Copy, Debug, PartialEq, Eq, Structural)]
pub struct Cqe {
    /// The kernel's entry.
    pub item: Addr,
    /// The context.
    pub rtio: Addr,
}

impl Cqe {
    /// Ask for the result of the operation.
    pub fn result(&self) -> (call: Call)
        ensures
            call == (Call::RtioCqeResult { cqe: self.item }),
    {
        Call::RtioCqeResult { cqe: self.item }
    }

    /// Release the completion.
    pub fn drop(self) -> (call: Call)
        ensures
            call == (Call::RtioCqeRelease { rtio: self.rtio, cqe: self.item }),
    {
        Call::RtioCqeRelease { rtio: self.rtio, cqe: self.item }
    }
}

/// How often calls push to a queue.
pub open spec fn times_pushed(calls: Seq<Call>, mpsc: Addr) -> nat
    decreases calls.len(),
{
    if calls.len() == 0 {
        0
    } else {
        times_pushed(calls.drop_last(), mpsc) + match calls.last() {
            Call::MpscPush { mpsc: m, node: _ } => if m == mpsc {
                1nat
            } else {
                0
            },
            _ => 0,
        }
    }
}

proof fn lemma_times_pushed_concat(a: Seq<Call>, b: Seq<Call>, mpsc: Addr)
    ensures
        times_pushed(a + b, mpsc) == times_pushed(a, mpsc) + times_pushed(b, mpsc),
    decreases b.len(),
{
    if b.len() == 0 {
        assert(a + b =~= a);
    } else {
        assert((a + b).drop_last() =~= a + b.drop_last());
        lemma_times_pushed_concat(a, b.drop_last(), mpsc);
    }
}

proof fn lemma_times_pushed_pushes(queue: Addr, nodes: Seq<Addr>, mpsc: Addr)
    ensures
        times_pushed(pushes(queue, nodes), mpsc) == if queue == mpsc {
            nodes.len()
        } else {
            0
        },
    decreases nodes.len(),
{
    if nodes.len() > 0 {
        assert(pushes(queue, nodes).drop_last() =~= pushes(queue, nodes.drop_last()));
        lemma_times_pushed_pushes(queue, nodes.drop_last(), mpsc);
    }
}

proof fn lemma_no_pushes(calls: Seq<Call>, mpsc: Addr)
    requires
        forall|i: int| 0 <= i < calls.len() ==> !((#[trigger] calls[i]) is MpscPush),
    ensures
        times_pushed(calls, mpsc) == 0,
    decreases calls.len(),
{
    if calls.len() > 0 {
        assert forall|i: int| 0 <= i < calls.drop_last().len() implies !((
        #[trigger] calls.drop_last()[i]) is MpscPush) by {
            assert(calls.drop_last()[i] == calls[i]);
        }
        assert(!(calls[calls.len() - 1] is MpscPush));
        lemma_no_pushes(calls.drop_last(), mpsc);
    }
}

/// A new context has all entries of both pools in their free queues: as many are pushed as the
/// pools have and as they are told to have free.
pub proof fn law_pools_start_full<const SQE_SZ: usize, const CQE_SZ: usize>(
    o: RtioObject<SQE_SZ, CQE_SZ>,
    addr: Addr,
)
    requires
        o.wf(),
        o.0.state == 0,
        SQE_SZ <= u16::MAX,
        CQE_SZ <= u16::MAX,
        o.0.object.at.sqe_free_q != o.0.object.at.cqe_free_q,
    ensures
        ({
            let at = o.0.object.at;
            let calls = o.0.get_calls(addr);
            &&& times_pushed(calls, at.sqe_free_q) == SQE_SZ
            &&& times_pushed(calls, at.cqe_free_q) == CQE_SZ
            &&& calls.contains(store(at.sqe_pool, RtioField::SqePoolFree, SQE_SZ))
            &&& calls.contains(store(at.cqe_pool, RtioField::CqePoolFree, CQE_SZ))
        }),
{
    let d = o.0.object;
    let at = d.at;
    let a = submit_sem_calls(at);
    let b = consume_sem_calls(at);
    let c = seq![store(at.rtio, RtioField::CqCount, 0), store(at.rtio, RtioField::Xcqcnt, 0)];
    let s = sqe_pool_calls(at, SQE_SZ as u16, d.sqe_nodes@);
    let q = cqe_pool_calls(at, CQE_SZ as u16, d.cqe_nodes@);
    let e = seq![
        store(at.rtio, RtioField::SqePool, at.sqe_pool),
        store(at.rtio, RtioField::CqePool, at.cqe_pool),
        Call::MpscInit { mpsc: at.sq },
        Call::MpscInit { mpsc: at.cq },
    ];
    let calls = a + b + c + s + q + e;
    assert(calls == o.0.get_calls(addr));
    lemma_pool_pushes(
        at,
        a,
        b,
        c,
        s,
        q,
        e,
        d.sqe_nodes@,
        d.cqe_nodes@,
        at.sqe_free_q,
        SQE_SZ as u16,
        CQE_SZ as u16,
    );
    lemma_pool_pushes(
        at,
        a,
        b,
        c,
        s,
        q,
        e,
        d.sqe_nodes@,
        d.cqe_nodes@,
        at.cqe_free_q,
        SQE_SZ as u16,
        CQE_SZ as u16,
    );
    let i = (a + b + c).len() + 2;
    assert(s[2] == store(at.sqe_pool, RtioField::SqePoolFree, SQE_SZ));
    assert(calls[i as int] == s[2]);
    let j = (a + b + c + s).len() + 2;
    assert(q[2] == store(at.cqe_pool, RtioField::CqePoolFree, CQE_SZ));
    assert(calls[j as int] == q[2]);
}

proof fn lemma_pool_pushes(
    at: RtioAddrs,
    a: Seq<Call>,
    b: Seq<Call>,
    c: Seq<Call>,
    s: Seq<Call>,
    q: Seq<Call>,
    e: Seq<Call>,
    sqe_nodes: Seq<Addr>,
    cqe_nodes: Seq<Addr>,
    mpsc: Addr,
    sqe_size: u16,
    cqe_size: u16,
)
    requires
        a == submit_sem_calls(at),
        b == consume_sem_calls(at),
        c == seq![store(at.rtio, RtioField::CqCount, 0), store(at.rtio, RtioField::Xcqcnt, 0)],
        s == sqe_pool_calls(at, sqe_size, sqe_nodes),
        q == cqe_pool_calls(at, cqe_size, cqe_nodes),
        e == seq![
            store(at.rtio, RtioField::SqePool, at.sqe_pool),
            store(at.rtio, RtioField::CqePool, at.cqe_pool),
            Call::MpscInit { mpsc: at.sq },
            Call::MpscInit { mpsc: at.cq },
        ],
    ensures
        times_pushed(a + b + c + s + q + e, mpsc) == (if at.sqe_free_q == mpsc {
            sqe_nodes.len()
        } else {
            0
        }) + (if at.cqe_free_q == mpsc {
            cqe_nodes.len()
        } else {
            0
        }),
{
    lemma_no_pushes(a, mpsc);
    lemma_no_pushes(b, mpsc);
    lemma_no_pushes(c, mpsc);
    lemma_no_pushes(e, mpsc);
    let s0 = s.take(4);
    let q0 = q.take(4);
    lemma_no_pushes(s0, mpsc);
    lemma_no_pushes(q0, mpsc);
    assert(s =~= s0 + pushes(at.sqe_free_q, sqe_nodes));
    assert(q =~= q0 + pushes(at.cqe_free_q, cqe_nodes));
    lemma_times_pushed_pushes(at.sqe_free_q, sqe_nodes, mpsc);
    lemma_times_pushed_pushes(at.cqe_free_q, cqe_nodes, mpsc);
    lemma_times_pushed_concat(s0, pushes(at.sqe_free_q, sqe_nodes), mpsc);
    lemma_times_pushed_concat(q0, pushes(at.cqe_free_q, cqe_nodes), mpsc);
    lemma_times_pushed_concat(a, b, mpsc);
    lemma_times_pushed_concat(a + b, c, mpsc);
    lemma_times_pushed_concat(a + b + c, s, mpsc);
    lemma_times_pushed_concat(a + b + c + s, q, mpsc);
    lemma_times_pushed_concat(a + b + c + s + q, e, mpsc);
}

/// Initialising a context sets every field once, to what it has to be: the counts to zero, the
/// sizes and the free entries of the pools to the numbers of their entries, in 16 bits, and the
/// pointers to the parts.  The fields of the semaphores are set only where there are semaphores.
pub proof fn law_fields_are_set<const SQE_SZ: usize, const CQE_SZ: usize>(
    data: RtioData<SQE_SZ, CQE_SZ>,
    addr: Addr,
    calls: Vec<Call>,
    i: int,
)
    requires
        call_ensures(<RtioData<SQE_SZ, CQE_SZ> as ObjectInit>::init, (&data, addr), calls),
        0 <= i < calls@.len(),
    ensures
        calls@[i] matches Call::RtioStore { item, field, word } ==> match field {
            RtioField::SubmitSem => item == data.at.rtio && data.at.submit_sem == Some(word),
            RtioField::SubmitCount => item == data.at.rtio && data.at.submit_sem is Some && word
                == 0,
            RtioField::ConsumeSem => item == data.at.rtio && data.at.consume_sem == Some(word),
            RtioField::CqCount => item == data.at.rtio && word == 0,
            RtioField::Xcqcnt => item == data.at.rtio && word == 0,
            RtioField::SqePool => item == data.at.rtio && word == data.at.sqe_pool,
            RtioField::CqePool => item == data.at.rtio && word == data.at.cqe_pool,
            RtioField::SqePoolSize => item == data.at.sqe_pool && word == SQE_SZ % 0x1_0000,
            RtioField::SqePoolFree => item == data.at.sqe_pool && word == SQE_SZ % 0x1_0000,
            RtioField::SqePoolItems => item == data.at.sqe_pool && word == data.at.sqe_pool_items,
            RtioField::CqePoolSize => item == data.at.cqe_pool && word == CQE_SZ % 0x1_0000,
            RtioField::CqePoolFree => item == data.at.cqe_pool && word == CQE_SZ % 0x1_0000,
            RtioField::CqePoolItems => item == data.at.cqe_pool && word == data.at.cqe_pool_items,
        },
        calls@[i] matches Call::SemInit { sem, initial_count, limit } ==> {
            &&& data.at.submit_sem == Some(sem) || data.at.consume_sem == Some(sem)
            &&& initial_count == 0
            &&& limit == 0xffff_ffff
        },
        calls@[i] matches Call::MpscPush { mpsc, node } ==> {
            ||| mpsc == data.at.sqe_free_q && data.sqe_nodes@.contains(node)
            ||| mpsc == data.at.cqe_free_q && data.cqe_nodes@.contains(node)
        },
        calls@[i] matches Call::MpscInit { mpsc } ==> mpsc == data.at.sqe_free_q || mpsc
            == data.at.cqe_free_q || mpsc == data.at.sq || mpsc == data.at.cq,
        calls@[i] is RtioStore || calls@[i] is SemInit || calls@[i] is MpscPush || calls@[i]
            is MpscInit,
{
    let at = data.at;
    let sqe_size = SQE_SZ;
    let cqe_size = CQE_SZ;
    assert(sqe_size as u16 == sqe_size % 0x1_0000) by (bit_vector);
    assert(cqe_size as u16 == cqe_size % 0x1_0000) by (bit_vector);
    let a = submit_sem_calls(at);
    let b = consume_sem_calls(at);
    let c = seq![store(at.rtio, RtioField::CqCount, 0), store(at.rtio, RtioField::Xcqcnt, 0)];
    let s = sqe_pool_calls(at, SQE_SZ as u16, data.sqe_nodes@);
    let q = cqe_pool_calls(at, CQE_SZ as u16, data.cqe_nodes@);
    let ab = a + b;
    let abc = ab + c;
    let abcs = abc + s;
    let abcsq = abcs + q;
    if i < a.len() {
        assert(calls@[i] == a[i]);
    } else if i < ab.len() {
        assert(calls@[i] == b[i - a.len()]);
    } else if i < abc.len() {
        assert(calls@[i] == c[i - ab.len()]);
    } else if i < abcs.len() {
        let k = i - abc.len();
        assert(calls@[i] == s[k]);
        if k >= 4 {
            assert(s[k] == (Call::MpscPush { mpsc: at.sqe_free_q, node: data.sqe_nodes@[k - 4] }));
        }
    } else if i < abcsq.len() {
        let k = i - abcs.len();
        assert(calls@[i] == q[k]);
        if k >= 4 {
            assert(q[k] == (Call::MpscPush { mpsc: at.cqe_free_q, node: data.cqe_nodes@[k - 4] }));
        }
    }
}

/// Initialising a context leaves nothing out: the semaphores that there are, the counts, the pools
/// with all of their entries in their free queues, which are initialised before, and the queues of
/// submissions and completions.
pub proof fn law_nothing_is_left_out<const SQE_SZ: usize, const CQE_SZ: usize>(
    data: RtioData<SQE_SZ, CQE_SZ>,
    addr: Addr,
    calls: Vec<Call>,
)
    requires
        call_ensures(<RtioData<SQE_SZ, CQE_SZ> as ObjectInit>::init, (&data, addr), calls),
    ensures
        ({
            let at = data.at;
            let sets = |field: RtioField|
                exists|i: int|
                    0 <= i < calls@.len() && ((#[trigger] calls@[i]) matches Call::RtioStore {
                        field: f,
                        ..
                    } && f == field);
            &&& at.submit_sem matches Some(sem) ==> calls@.contains(
                Call::SemInit { sem, initial_count: 0, limit: 0xffff_ffff },
            ) && sets(RtioField::SubmitSem) && sets(RtioField::SubmitCount)
            &&& at.consume_sem matches Some(sem) ==> calls@.contains(
                Call::SemInit { sem, initial_count: 0, limit: 0xffff_ffff },
            ) && sets(RtioField::ConsumeSem)
            &&& sets(RtioField::CqCount) && sets(RtioField::Xcqcnt)
            &&& sets(RtioField::SqePool) && sets(RtioField::CqePool)
            &&& sets(RtioField::SqePoolSize) && sets(RtioField::SqePoolFree)
            &&& sets(RtioField::SqePoolItems)
            &&& sets(RtioField::CqePoolSize) && sets(RtioField::CqePoolFree)
            &&& sets(RtioField::CqePoolItems)
            &&& calls@.contains(Call::MpscInit { mpsc: at.sq })
            &&& calls@.contains(Call::MpscInit { mpsc: at.cq })
            &&& exists|k: int|
                0 <= k <= calls@.len() - data.sqe_nodes@.len() && #[trigger] calls@.subrange(
                    k,
                    k + data.sqe_nodes@.len(),
                ) == data.sqe_nodes@.map_values(
                    |node: Addr| Call::MpscPush { mpsc: at.sqe_free_q, node },
                ) && calls@.take(k).contains(Call::MpscInit { mpsc: at.sqe_free_q })
            &&& exists|k: int|
                0 <= k <= calls@.len() - data.cqe_nodes@.len() && #[trigger] calls@.subrange(
                    k,
                    k + data.cqe_nodes@.len(),
                ) == data.cqe_nodes@.map_values(
                    |node: Addr| Call::MpscPush { mpsc: at.cqe_free_q, node },
                ) && calls@.take(k).contains(Call::MpscInit { mpsc: at.cqe_free_q })
        }),
{
    let at = data.at;
    let a = submit_sem_calls(at);
    let b = consume_sem_calls(at);
    let c = seq![store(at.rtio, RtioField::CqCount, 0), store(at.rtio, RtioField::Xcqcnt, 0)];
    let s = sqe_pool_calls(at, SQE_SZ as u16, data.sqe_nodes@);
    let q = cqe_pool_calls(at, CQE_SZ as u16, data.cqe_nodes@);
    let ab = a + b;
    let abc = ab + c;
    let abcs = abc + s;
    let abcsq = abcs + q;
    if at.submit_sem is Some {
        assert(calls@[0] == a[0] && calls@[1] == a[1] && calls@[2] == a[2]);
    }
    if at.consume_sem is Some {
        assert(calls@[a.len() as int] == b[0] && calls@[a.len() as int + 1] == b[1]);
    }
    assert(calls@[ab.len() as int] == c[0] && calls@[ab.len() as int + 1] == c[1]);
    let n = abc.len() as int;
    assert(calls@[n] == s[0] && calls@[n + 1] == s[1] && calls@[n + 2] == s[2]);
    assert(calls@[n + 3] == s[3]);
    let m = abcs.len() as int;
    assert(calls@[m] == q[0] && calls@[m + 1] == q[1] && calls@[m + 2] == q[2]);
    assert(calls@[m + 3] == q[3]);
    let l = abcsq.len() as int;
    assert(calls@[l] is RtioStore && calls@[l + 1] is RtioStore);
    assert(calls@[l + 2] == (Call::MpscInit { mpsc: at.sq }));
    assert(calls@[l + 3] == (Call::MpscInit { mpsc: at.cq }));
    assert(calls@.subrange(n + 4, n + 4 + data.sqe_nodes@.len()) =~= data.sqe_nodes@.map_values(
        |node: Addr| Call::MpscPush { mpsc: at.sqe_free_q, node },
    ));
    assert(calls@.take(n + 4)[n] == s[0]);
    assert(calls@.subrange(m + 4, m + 4 + data.cqe_nodes@.len()) =~= data.cqe_nodes@.map_values(
        |node: Addr| Call::MpscPush { mpsc: at.cqe_free_q, node },
    ));
    assert(calls@.take(m + 4)[m] == q[0]);
}

/// Every operation of a context is one call on it, after its initialisation where it was not used
/// yet.  The number of completions that a submission waits for is handed on in 32 bits.
pub proof fn law_operations_are_calls<const SQE_SZ: usize, const CQE_SZ: usize>(
    o: &mut RtioObject<SQE_SZ, CQE_SZ>,
    addr: Addr,
    wait: usize,
    init: Vec<Call>,
    calls: Vec<Call>,
)
    requires
        addr != 0,
        old(o).0.state == 0 || old(o).0.state == addr,
        old(o).0.object.sqe_nodes@.len() == SQE_SZ,
        old(o).0.object.cqe_nodes@.len() == CQE_SZ,
        if old(o).0.state == 0 {
            call_ensures(
                <RtioData<SQE_SZ, CQE_SZ> as ObjectInit>::init,
                (&old(o).0.object, addr),
                init,
            )
        } else {
            init@ == Seq::<Call>::empty()
        },
    ensures
        ({
            let rtio = old(o).0.object.at.rtio;
            let used = final(o).0.state == addr && final(o).0.object == old(o).0.object;
            &&& call_ensures(RtioObject::<SQE_SZ, CQE_SZ>::sqe_acquire, (o, addr), calls) ==> used
                && calls@ == init@.push(Call::RtioSqeAcquire { rtio })
            &&& call_ensures(RtioObject::<SQE_SZ, CQE_SZ>::cqe_consume, (o, addr), calls) ==> used
                && calls@ == init@.push(Call::RtioCqeConsume { rtio })
            &&& call_ensures(RtioObject::<SQE_SZ, CQE_SZ>::submit, (o, addr, wait), calls) ==> used
                && calls@.drop_last() == init@ && (calls@.last() matches Call::RtioSubmit {
                rtio: at,
                wait: n,
            } && at == rtio && n == wait as int % 0x1_0000_0000)
        }),
{
    let wide = wait as u64;
    assert(wide as u32 == wide % 0x1_0000_0000) by (bit_vector);
    if call_ensures(RtioObject::<SQE_SZ, CQE_SZ>::submit, (o, addr, wait), calls) {
        assert(calls@.drop_last() =~= init@);
    }
}

/// An entry or a completion that the kernel gave is the one that is used, and of a completion also
/// its context; zero stands for none.  What became of a submission is the kernel's answer.
pub proof fn law_entries_are_kernels<const SQE_SZ: usize, const CQE_SZ: usize>(
    o: RtioObject<SQE_SZ, CQE_SZ>,
    ptr: Addr,
    sqe: Option<Sqe>,
    cqe: Option<Cqe>,
    code: i32,
    submitted: Result<(), Error>,
    result: Call,
    release: Call,
)
    requires
        call_ensures(RtioObject::<SQE_SZ, CQE_SZ>::sqe_acquire_done, (ptr,), sqe),
        call_ensures(RtioObject::<SQE_SZ, CQE_SZ>::cqe_consume_done, (&o, ptr), cqe),
        call_ensures(RtioObject::<SQE_SZ, CQE_SZ>::submit_done, (code,), submitted),
        cqe matches Some(c) ==> call_ensures(Cqe::result, (&c,), result) && call_ensures(
            Cqe::drop,
            (c,),
            release,
        ),
    ensures
        ptr == 0 ==> sqe is None && cqe is None,
        ptr != 0 ==> (sqe matches Some(e) && e.item == ptr),
        ptr != 0 ==> cqe is Some && result == (Call::RtioCqeResult { cqe: ptr }) && release
            == (Call::RtioCqeRelease { rtio: o.0.object.at.rtio, cqe: ptr }),
        code >= 0 ==> submitted is Ok,
        code < 0 ==> (submitted matches Err(e) && e.0 == -code),
{
}

} // verus!
