//! Timers.
//!
//! A timer starts as a [`StoppedTimer`].  It is started as a [`SimpleTimer`], which counts how
//! often it expires, or as a [`CallbackTimer`], which calls a function each time.  Stopping either
//! gives the stopped timer back.
use crate::object::{Fixed, StaticKernelObject, Wrapped};
use crate::raw::{Addr, Call};
use crate::sys::timer::KTimer;
use crate::text::{hex, name_and_addr};
use crate::time::Timeout;
use vstd::prelude::*;

verus! {

/// A timer that does not run.
pub struct StoppedTimer {
    /// The kernel's timer.
    pub item: Fixed<KTimer>,
}

impl StoppedTimer {
    /// A timer on the heap at `addr`.
    pub fn new(addr: Addr, item: Box<KTimer>) -> (r: (StoppedTimer, Call))
        ensures
            r.0.item == Fixed::Owned(addr, item),
            r.1 == (Call::TimerInit { timer: addr, expiry: 0 }),
    {
        (StoppedTimer { item: Fixed::new(addr, item) }, Call::TimerInit { timer: addr, expiry: 0 })
    }

    /// Start the timer, to expire after `delay` and then every `period`.
    pub fn start_simple(self, delay: Timeout, period: Timeout) -> (r: (SimpleTimer, Call))
        ensures
            r.0.item == Some(self.item),
            r.1 == (Call::TimerStart { timer: self.item.addr(), delay, period }),
    {
        let timer: Addr = self.item.get();
        (SimpleTimer { item: Some(self.item) }, Call::TimerStart { timer, delay, period })
    }

    /// Start the timer, to run a callback after `delay` and then every `period`.  The callback is
    /// kept at `data`; `expiry` is the C function that runs [`CallbackTimer::timer_expiry`].
    pub fn start_callback<T>(
        self,
        callback: Callback<T>,
        delay: Timeout,
        period: Timeout,
        expiry: Addr,
        data: Addr,
    ) -> (r: (CallbackTimer<T>, Vec<Call>))
        ensures
            r.0.item == Some(self.item),
            r.0.expiry == callback,
            r.1@ == seq![
                Call::TimerExpirySet { timer: self.item.addr(), expiry },
                Call::TimerUserDataSet { timer: self.item.addr(), data },
                Call::TimerStart { timer: self.item.addr(), delay, period },
            ],
    {
        CallbackTimer::new(self, callback, delay, period, expiry, data)
    }

    /// The timer as text.
    pub fn to_debug_string(&self) -> (r: String)
        ensures
            r@ == "StoppedTimer 0x"@ + hex(self.item.addr() as nat),
    {
        name_and_addr("StoppedTimer 0x", self.item.get())
    }
}

/// A static timer.
pub type StaticStoppedTimer = StaticKernelObject<KTimer>;

impl Wrapped for StaticKernelObject<KTimer> {
    type T = StoppedTimer;

    type I = ();

    open spec fn wrapped(&self, addr: Addr, args: ()) -> StoppedTimer {
        StoppedTimer { item: Fixed::Static(addr) }
    }

    open spec fn wrapped_calls(&self, addr: Addr, args: ()) -> Seq<Call> {
        seq![Call::TimerInit { timer: addr, expiry: 0 }]
    }

    fn get_wrapped(&self, addr: Addr, args: ()) -> (r: (StoppedTimer, Vec<Call>)) {
        (
            StoppedTimer { item: Fixed::Static(addr) },
            vec![Call::TimerInit { timer: addr, expiry: 0 }],
        )
    }
}

/// A timer that counts how often it expires.
pub struct SimpleTimer {
    /// The kernel's timer, until it is stopped.
    pub item: Option<Fixed<KTimer>>,
}

impl SimpleTimer {
    /// Ask how often the timer expired since this was last asked.
    pub fn read_count(&mut self) -> (call: Call)
        requires
            old(self).item is Some,
        ensures
            *final(self) == *old(self),
            call == (Call::TimerStatusGet { timer: old(self).item->0.addr() }),
    {
        Call::TimerStatusGet { timer: self.item_ptr() }
    }

    /// The same, after waiting for the timer to expire at least once.
    pub fn read_count_wait(&mut self) -> (call: Call)
        requires
            old(self).item is Some,
        ensures
            *final(self) == *old(self),
            call == (Call::TimerStatusSync { timer: old(self).item->0.addr() }),
    {
        Call::TimerStatusSync { timer: self.item_ptr() }
    }

    /// Start the timer anew.
    pub fn restart(&mut self, delay: Timeout, period: Timeout) -> (call: Call)
        requires
            old(self).item is Some,
        ensures
            *final(self) == *old(self),
            call == (Call::TimerStart { timer: old(self).item->0.addr(), delay, period }),
    {
        Call::TimerStart { timer: self.item_ptr(), delay, period }
    }

    fn item_ptr(&self) -> (addr: Addr)
        requires
            self.item is Some,
        ensures
            addr == self.item->0.addr(),
    {
        match &self.item {
            Some(item) => item.get(),
            None => 0,
        }
    }

    /// Stop the timer.
    pub fn stop(self) -> (r: (StoppedTimer, Call))
        requires
            self.item is Some,
        ensures
            r.0.item == self.item->0,
            r.1 == (Call::TimerStop { timer: self.item->0.addr() }),
    {
        let item = self.item.unwrap();
        let call = Call::TimerStop { timer: item.get() };
        (StoppedTimer { item }, call)
    }

    /// The timer is dropped: the call that stops it, unless it was stopped.
    pub fn drop(self) -> (call: Option<Call>)
        ensures
            call == (match self.item {
                Some(item) => Some(Call::TimerStop { timer: item.addr() }),
                None => None,
            }),
    {
        match &self.item {
            Some(item) => Some(Call::TimerStop { timer: item.get() }),
            None => None,
        }
    }
}

/// What a timer calls when it expires: a function, and the data that it gets.
pub struct Callback<T> {
    /// The function.
    pub call: Addr,
    /// The data.
    pub data: T,
}

/// A timer that calls a function each time it expires.
pub struct CallbackTimer<T> {
    /// The kernel's timer, until it is stopped.
    pub item: Option<Fixed<KTimer>>,
    /// What it calls.
    pub expiry: Callback<T>,
}

impl<T> CallbackTimer<T> {
    fn new(
        item: StoppedTimer,
        callback: Callback<T>,
        delay: Timeout,
        period: Timeout,
        expiry: Addr,
        data: Addr,
    ) -> (r: (CallbackTimer<T>, Vec<Call>))
        ensures
            r.0.item == Some(item.item),
            r.0.expiry == callback,
            r.1@ == seq![
                Call::TimerExpirySet { timer: item.item.addr(), expiry },
                Call::TimerUserDataSet { timer: item.item.addr(), data },
                Call::TimerStart { timer: item.item.addr(), delay, period },
            ],
    {
        let timer: Addr = item.item.get();
        (
            CallbackTimer { item: Some(item.item), expiry: callback },
            vec![
                Call::TimerExpirySet { timer, expiry },
                Call::TimerUserDataSet { timer, data },
                Call::TimerStart { timer, delay, period },
            ],
        )
    }

    /// The timer expired: the callback to run, whose address is the timer's user data.
    pub fn timer_expiry(data: Addr) -> (r: Option<Addr>)
        ensures
            r == (if data == 0 {
                None
            } else {
                Some(data)
            }),
    {
        if data == 0 {
            None
        } else {
            Some(data)
        }
    }

    /// Stop the timer, after which it calls nothing.
    pub fn stop(self) -> (r: (StoppedTimer, Vec<Call>))
        requires
            self.item is Some,
        ensures
            r.0.item == self.item->0,
            r.1@ == seq![
                Call::TimerStop { timer: self.item->0.addr() },
                Call::TimerExpirySet { timer: self.item->0.addr(), expiry: 0 },
            ],
    {
        let item = self.item.unwrap();
        let timer: Addr = item.get();
        (
            StoppedTimer { item },
            vec![Call::TimerStop { timer }, Call::TimerExpirySet { timer, expiry: 0 }],
        )
    }

    /// The timer is dropped: the calls that stop it, unless it was stopped.
    pub fn drop(self) -> (calls: Vec<Call>)
        ensures
            calls@ == (match self.item {
                Some(item) => seq![
                    Call::TimerStop { timer: item.addr() },
                    Call::TimerExpirySet { timer: item.addr(), expiry: 0 },
                ],
                None => Seq::empty(),
            }),
    {
        match &self.item {
            Some(item) => {
                let timer: Addr = item.get();
                vec![Call::TimerStop { timer }, Call::TimerExpirySet { timer, expiry: 0 }]
            },
            None => Vec::new(),
        }
    }
}

/// A timer is started, restarted, asked and stopped where it was made, with the times that are
/// given; and stopping it gives that timer back.
pub proof fn law_simple_timer_goes_round(
    stopped: StoppedTimer,
    at: Addr,
    delay: Timeout,
    period: Timeout,
    started: (SimpleTimer, Call),
    using: &mut SimpleTimer,
    count: Call,
    end: (StoppedTimer, Call),
    dropped: Option<Call>,
)
    requires
        call_ensures(Fixed::<KTimer>::get, (&stopped.item,), at),
        call_ensures(StoppedTimer::start_simple, (stopped, delay, period), started),
        *old(using) == started.0,
        call_ensures(SimpleTimer::stop, (started.0,), end),
        call_ensures(SimpleTimer::drop, (started.0,), dropped),
    ensures
        started.1 == (Call::TimerStart { timer: at, delay, period }),
        end.0 == stopped,
        end.1 == (Call::TimerStop { timer: at }),
        dropped == Some(Call::TimerStop { timer: at }),
        call_ensures(SimpleTimer::read_count, (using,), count) ==> count == (Call::TimerStatusGet {
            timer: at,
        }) && *final(using) == *old(using),
        call_ensures(SimpleTimer::read_count_wait, (using,), count) ==> count
            == (Call::TimerStatusSync { timer: at }) && *final(using) == *old(using),
        call_ensures(SimpleTimer::restart, (using, delay, period), count) ==> count
            == (Call::TimerStart { timer: at, delay, period }) && *final(using) == *old(using),
{
}

/// A timer with a callback has that before it starts, and has none after it was stopped, so that it
/// calls nothing that is gone.  The callback that it runs is the one at its user data.
pub proof fn law_callback_timer_goes_round<T>(
    stopped: StoppedTimer,
    at: Addr,
    callback: Callback<T>,
    delay: Timeout,
    period: Timeout,
    expiry: Addr,
    data: Addr,
    started: (CallbackTimer<T>, Vec<Call>),
    end: (StoppedTimer, Vec<Call>),
    dropped: Vec<Call>,
    run: Option<Addr>,
)
    requires
        call_ensures(Fixed::<KTimer>::get, (&stopped.item,), at),
        call_ensures(
            StoppedTimer::start_callback::<T>,
            (stopped, callback, delay, period, expiry, data),
            started,
        ),
        call_ensures(CallbackTimer::<T>::stop, (started.0,), end),
        call_ensures(CallbackTimer::<T>::drop, (started.0,), dropped),
        call_ensures(CallbackTimer::<T>::timer_expiry, (data,), run),
    ensures
        started.0.expiry == callback,
        started.1@ == seq![
            Call::TimerExpirySet { timer: at, expiry },
            Call::TimerUserDataSet { timer: at, data },
            Call::TimerStart { timer: at, delay, period },
        ],
        end.0 == stopped,
        end.1@ == seq![
            Call::TimerStop { timer: at },
            Call::TimerExpirySet { timer: at, expiry: 0 },
        ],
        dropped@ == end.1@,
        data != 0 ==> run == Some(data),
        data == 0 ==> run is None,
{
}

/// A new timer and a static one are initialised without a callback, where they are.
pub proof fn law_new_timers(
    addr: Addr,
    item: Box<KTimer>,
    made: (StoppedTimer, Call),
    fixed: &mut StaticKernelObject<KTimer>,
    got: Option<(StoppedTimer, Vec<Call>)>,
)
    requires
        call_ensures(StoppedTimer::new, (addr, item), made),
        old(fixed).init == 0,
        call_ensures(StaticKernelObject::<KTimer>::init_once, (fixed, addr, ()), got),
    ensures
        made.0.item == Fixed::Owned(addr, item),
        made.1 == (Call::TimerInit { timer: addr, expiry: 0 }),
        got matches Some((timer, calls)) && timer.item == Fixed::<KTimer>::Static(addr) && calls@
            == seq![Call::TimerInit { timer: addr, expiry: 0 }],
{
}

} // verus!
