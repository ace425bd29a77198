//! Timers with a callback that owns its data.
use crate::object::Fixed;
use crate::raw::{Addr, Call};
use crate::text::{hex, name_and_addr};
use crate::time::Timeout;
use vstd::prelude::*;

verus! {

/// The kernel's `k_timer`, which holds nothing of this library.
pub struct KTimer;

/// What a timer calls when it expires: a function, and the data that it gets.
pub struct Callback<T> {
    /// The function.
    pub call: Addr,
    /// The data.
    pub data: T,
}

/// A timer.
pub struct Timer<T> {
    /// The kernel's timer.
    pub inner: Fixed<KTimer>,
    /// What the timer calls when it expires.
    pub expiry: Option<Callback<T>>,
}

impl<T> Timer<T> {
    /// A timer on the heap at `addr`, which does not run and calls nothing.  `expiry` is the C
    /// function that runs [`Timer::timer_expiry`].
    pub fn new(addr: Addr, item: Box<KTimer>, expiry: Addr) -> (r: (Timer<T>, Call))
        ensures
            r.0.inner.addr() == addr,
            r.0.expiry is None,
            r.1 == (Call::TimerInit { timer: addr, expiry }),
    {
        (
            Timer { inner: Fixed::new(addr, item), expiry: None },
            Call::TimerInit { timer: addr, expiry },
        )
    }

    /// Set what the timer calls when it expires, which is kept at `data`.  The timer calls nothing
    /// while that is being changed.
    pub fn set_expiry_callback(&mut self, expiry: Callback<T>, data: Addr) -> (calls: Vec<Call>)
        ensures
            final(self).inner == old(self).inner,
            final(self).expiry == Some(expiry),
            calls@ == seq![
                Call::TimerUserDataSet { timer: old(self).inner.addr(), data: 0 },
                Call::TimerUserDataSet { timer: old(self).inner.addr(), data },
            ],
    {
        let timer: Addr = self.inner.get();
        self.expiry = Some(expiry);
        vec![
            Call::TimerUserDataSet { timer, data: 0 },
            Call::TimerUserDataSet { timer, data },
        ]
    }

    /// The timer expired: the callback to run, whose address is the timer's user data.
    pub fn timer_expiry(data: Addr) -> (r: Option<Addr>)
        ensures
            r == (if data == 0 {
                None
            } else {
                Some(data)
            }),
    {
        if data == 0 {
            None
        } else {
            Some(data)
        }
    }

    /// Start the timer, to expire after `delay` and then every `period`.
    pub fn start(&mut self, delay: Timeout, period: Timeout) -> (call: Call)
        ensures
            *final(self) == *old(self),
            call == (Call::TimerStart { timer: old(self).inner.addr(), delay, period }),
    {
        Call::TimerStart { timer: self.inner.get(), delay, period }
    }

    /// Stop the timer.  This also has to be done when it is dropped.
    pub fn stop(&mut self) -> (call: Call)
        ensures
            *final(self) == *old(self),
            call == (Call::TimerStop { timer: old(self).inner.addr() }),
    {
        Call::TimerStop { timer: self.inner.get() }
    }

    /// Ask how often the timer expired since this was last asked.
    pub fn status_get(&mut self) -> (call: Call)
        ensures
            *final(self) == *old(self),
            call == (Call::TimerStatusGet { timer: old(self).inner.addr() }),
    {
        Call::TimerStatusGet { timer: self.inner.get() }
    }

    /// The same, after waiting for the timer to expire at least once.
    pub fn status_sync(&mut self) -> (call: Call)
        ensures
            *final(self) == *old(self),
            call == (Call::TimerStatusSync { timer: old(self).inner.addr() }),
    {
        Call::TimerStatusSync { timer: self.inner.get() }
    }

    /// The timer as text.
    pub fn to_debug_string(&self) -> (r: String)
        ensures
            r@ == "sys::Timer 0x"@ + hex(self.inner.addr() as nat),
    {
        name_and_addr("sys::Timer 0x", self.inner.get())
    }
}

/// A timer is used where it was made: it calls nothing until a callback is set, which is taken away
/// before another takes its place, and is started with the times that are given.
pub proof fn law_timer_is_used<T>(
    addr: Addr,
    item: Box<KTimer>,
    expiry: Addr,
    made: (Timer<T>, Call),
    timer: &mut Timer<T>,
    callback: Callback<T>,
    data: Addr,
    calls: Vec<Call>,
    delay: Timeout,
    period: Timeout,
    call: Call,
    run: Option<Addr>,
)
    requires
        call_ensures(Timer::<T>::new, (addr, item, expiry), made),
        *old(timer) == made.0,
        call_ensures(Timer::<T>::timer_expiry, (data,), run),
    ensures
        made.1 == (Call::TimerInit { timer: addr, expiry }),
        made.0.expiry is None,
        call_ensures(Timer::<T>::set_expiry_callback, (timer, callback, data), calls) ==> calls@
            == seq![
            Call::TimerUserDataSet { timer: addr, data: 0 },
            Call::TimerUserDataSet { timer: addr, data },
        ] && final(timer).expiry == Some(callback) && final(timer).inner == old(timer).inner,
        call_ensures(Timer::<T>::start, (timer, delay, period), call) ==> call
            == (Call::TimerStart { timer: addr, delay, period }) && *final(timer) == *old(timer),
        call_ensures(Timer::<T>::stop, (timer,), call) ==> call == (Call::TimerStop {
            timer: addr,
        }) && *final(timer) == *old(timer),
        call_ensures(Timer::<T>::status_get, (timer,), call) ==> call == (Call::TimerStatusGet {
            timer: addr,
        }) && *final(timer) == *old(timer),
        call_ensures(Timer::<T>::status_sync, (timer,), call) ==> call == (Call::TimerStatusSync {
            timer: addr,
        }) && *final(timer) == *old(timer),
        data != 0 ==> run == Some(data),
        data == 0 ==> run is None,
{
}

} // verus!
