//! The time driver of embassy.
//!
//! Embassy and the kernel may count time in different ticks.  The driver converts between the two,
//! and sets a timer of the kernel for the next task that waits for a time.
use crate::raw::{Addr, Call};
use crate::sys::K_FOREVER;
use crate::time::{Timeout, Wait};
use vstd::arithmetic::div_mod::{
    lemma_fundamental_div_mod, lemma_fundamental_div_mod_converse, lemma_mod_bound,
};
use vstd::prelude::*;

verus! {

/// The number of ticks in a second.
#[derive(Clone, Copy, Debug, PartialEq, Eq, Structural)]
pub struct TickRates {
    /// Of the kernel.
    pub zephyr_hz: u64,
    /// Of embassy.
    pub embassy_hz: u64,
}

/// `a` divided by `b`, rounded up.
pub open spec fn div_ceil(a: int, b: int) -> int {
    if a % b == 0 {
        a / b
    } else {
        a / b + 1
    }
}

impl TickRates {
    /// Neither rate is zero.
    pub open spec fn wf(self) -> bool {
        self.zephyr_hz > 0 && self.embassy_hz > 0
    }

    /// The time in ticks of embassy, rounded down.
    pub open spec fn embassy_ticks(self, ticks: int) -> int {
        ticks * self.embassy_hz / (self.zephyr_hz as int)
    }

    /// The time in ticks of the kernel, rounded up.
    pub open spec fn zephyr_ticks(self, ticks: int) -> int {
        div_ceil(ticks * self.zephyr_hz, self.embassy_hz as int)
    }

    /// Convert ticks of the kernel to ticks of embassy, rounding down, in 64 bits.
    pub fn zephyr_to_embassy(&self, ticks: u64) -> (r: u64)
        requires
            self.wf(),
        ensures
            r == self.embassy_ticks(ticks as int) as u64,
    {
        proof {
            lemma_same_rate(*self, ticks as int);
            lemma_product_fits(ticks, self.embassy_hz);
        }
        if self.zephyr_hz == self.embassy_hz {
            return ticks;
        }
        let prod: u128 = ticks as u128 * self.embassy_hz as u128;
        let quotient: u128 = prod / self.zephyr_hz as u128;
        #[verifier::truncate]
        let r: u64 = quotient as u64;
        r
    }

    /// Convert ticks of embassy to ticks of the kernel, rounding up, in 64 bits.
    pub fn embassy_to_zephyr(&self, ticks: u64) -> (r: u64)
        requires
            self.wf(),
        ensures
            r == self.zephyr_ticks(ticks as int) as u64,
    {
        proof {
            lemma_same_rate(*self, ticks as int);
            lemma_product_fits(ticks, self.zephyr_hz);
        }
        if self.zephyr_hz == self.embassy_hz {
            return ticks;
        }
        let prod: u128 = ticks as u128 * self.zephyr_hz as u128;
        let hz: u128 = self.embassy_hz as u128;
        let rest: u128 = prod % hz;
        proof {
            assert(prod / hz <= prod) by (nonlinear_arith)
                requires
                    hz > 0,
            ;
        }
        let quotient: u128 = if rest == 0 {
            prod / hz
        } else {
            prod / hz + 1
        };
        #[verifier::truncate]
        let r: u64 = quotient as u64;
        r
    }

    /// The current time in ticks of embassy, from the kernel's.
    pub fn now(&self, zephyr_now: u64) -> (r: u64)
        requires
            self.wf(),
        ensures
            r == self.embassy_ticks(zephyr_now as int) as u64,
    {
        self.zephyr_to_embassy(zephyr_now)
    }

    /// When a task that is to be woken at `at` is to be woken, in ticks of the kernel.
    pub fn schedule_wake(&self, at: u64) -> (r: u64)
        requires
            self.wf(),
        ensures
            r == self.zephyr_ticks(at as int) as u64,
    {
        self.embassy_to_zephyr(at)
    }
}

proof fn lemma_product_fits(a: u64, b: u64)
    ensures
        0 <= a * b <= 0xffff_ffff_ffff_ffff * 0xffff_ffff_ffff_ffff,
        0xffff_ffff_ffff_ffff * 0xffff_ffff_ffff_ffff < u128::MAX,
{
    assert(0 <= a * b <= 0xffff_ffff_ffff_ffff * 0xffff_ffff_ffff_ffff) by (nonlinear_arith)
        requires
            0 <= a <= 0xffff_ffff_ffff_ffff,
            0 <= b <= 0xffff_ffff_ffff_ffff,
    ;
}

proof fn lemma_same_rate(rates: TickRates, ticks: int)
    requires
        rates.wf(),
    ensures
        rates.zephyr_hz == rates.embassy_hz ==> rates.embassy_ticks(ticks) == ticks
            && rates.zephyr_ticks(ticks) == ticks,
{
    if rates.zephyr_hz == rates.embassy_hz {
        let hz = rates.zephyr_hz as int;
        vstd::arithmetic::div_mod::lemma_div_multiples_vanish(ticks, hz);
        vstd::arithmetic::mul::lemma_mul_is_commutative(ticks, hz);
        vstd::arithmetic::div_mod::lemma_mod_multiples_basic(ticks, hz);
    }
}

/// The kernel's timer of the driver.
#[derive(Clone, Copy, Debug, PartialEq, Eq, Structural)]
pub struct ZTimer {
    /// The address of the kernel's timer.
    pub item: Addr,
    /// Whether the kernel knows of it.
    pub initialized: bool,
}

impl ZTimer {
    /// The ticks that the timer is started with, for an alarm at `next`: one more than the
    /// distance, as the kernel takes one off, in 64 bits.
    pub open spec fn delta(next: u64, now: u64) -> i64 {
        ((next - now + 1) as u64) as i64
    }

    /// Set the alarm for `next`.  That fails where `next` is not in the future: then the tasks that
    /// are due have to be woken, and the alarm set for the next one.  `tick` is the C function that
    /// the timer calls.
    pub fn set_alarm(&mut self, next: u64, now: u64, tick: Addr) -> (r: Option<Vec<Call>>)
        requires
            next - now < u64::MAX,
        ensures
            final(self).item == old(self).item,
            final(self).initialized == (old(self).initialized || next > now),
            r is Some <==> next > now,
            r matches Some(calls) ==> calls@ == (if old(self).initialized {
                Seq::<Call>::empty()
            } else {
                seq![Call::TimerInit { timer: old(self).item, expiry: tick }]
            }).push(
                Call::TimerStart {
                    timer: old(self).item,
                    delay: Timeout(Self::delta(next, now)),
                    period: Timeout(K_FOREVER),
                },
            ),
    {
        if next <= now {
            return None;
        }
        let mut calls: Vec<Call> = Vec::new();
        if !self.initialized {
            calls.push(Call::TimerInit { timer: self.item, expiry: tick });
            self.initialized = true;
        }
        let ticks: u64 = next - now + 1;
        #[verifier::truncate]
        let delta: i64 = ticks as i64;
        calls.push(
            Call::TimerStart {
                timer: self.item,
                delay: Timeout(delta),
                period: Timeout(K_FOREVER),
            },
        );
        assert(calls@ =~= (if old(self).initialized {
            Seq::<Call>::empty()
        } else {
            seq![Call::TimerInit { timer: old(self).item, expiry: tick }]
        }).push(
            Call::TimerStart {
                timer: old(self).item,
                delay: Timeout(Self::delta(next, now)),
                period: Timeout(K_FOREVER),
            },
        ));
        Some(calls)
    }
}

/// The driver, apart from its queue of tasks that wait for a time.
#[derive(Clone, Copy, Debug, PartialEq, Eq, Structural)]
pub struct ZephyrTimeDriver {
    /// The rates between which it converts.
    pub rates: TickRates,
    /// Its timer.
    pub timer: ZTimer,
}

/// How setting the alarm goes on.
#[derive(Debug, PartialEq, Eq)]
pub enum AlarmStep {
    /// The alarm stays as it is.
    Unchanged,
    /// Ask the queue for the next time at which a task is to be woken, which wakes the tasks that
    /// are due; then comes [`ZephyrTimeDriver::next_expiration`].
    AskQueue,
    /// Make these calls, which set the alarm.
    Start(Vec<Call>),
}

impl ZephyrTimeDriver {
    /// The current time in ticks of embassy, from the kernel's.
    pub fn now(&self, zephyr_now: u64) -> (r: u64)
        requires
            self.rates.wf(),
        ensures
            r == self.rates.embassy_ticks(zephyr_now as int) as u64,
    {
        self.rates.now(zephyr_now)
    }

    /// A task is to be woken at `at`: the time under which it is put into the queue.
    pub fn schedule_wake(&self, at: u64) -> (r: u64)
        requires
            self.rates.wf(),
        ensures
            r == self.rates.zephyr_ticks(at as int) as u64,
    {
        self.rates.schedule_wake(at)
    }

    /// The task was put into the queue; `earlier` says whether it changed when the next one is to
    /// be woken.
    pub fn schedule_wake_queued(&self, earlier: bool) -> (r: AlarmStep)
        ensures
            r == (if earlier {
                AlarmStep::AskQueue
            } else {
                AlarmStep::Unchanged
            }),
    {
        if earlier {
            AlarmStep::AskQueue
        } else {
            AlarmStep::Unchanged
        }
    }

    /// The timer expired.
    pub fn check_alarm(&self) -> (r: AlarmStep)
        ensures
            r == AlarmStep::AskQueue,
    {
        AlarmStep::AskQueue
    }

    /// The next task is to be woken at `next`: the alarm is set for it.  Where that is not in the
    /// future any more, the queue is asked again.
    pub fn next_expiration(&mut self, next: u64, now: u64, tick: Addr) -> (r: AlarmStep)
        requires
            next - now < u64::MAX,
        ensures
            final(self).rates == old(self).rates,
            final(self).timer.item == old(self).timer.item,
            final(self).timer.initialized == (old(self).timer.initialized || next > now),
            next <= now ==> r == AlarmStep::AskQueue,
            next > now ==> (r matches AlarmStep::Start(calls) && calls@ == (if old(
                self,
            ).timer.initialized {
                Seq::<Call>::empty()
            } else {
                seq![Call::TimerInit { timer: old(self).timer.item, expiry: tick }]
            }).push(
                Call::TimerStart {
                    timer: old(self).timer.item,
                    delay: Timeout(ZTimer::delta(next, now)),
                    period: Timeout(K_FOREVER),
                },
            )),
    {
        match self.timer.set_alarm(next, now, tick) {
            Some(calls) => AlarmStep::Start(calls),
            None => AlarmStep::AskQueue,
        }
    }
}

/// An alarm that is less than 2^63 - 1 ticks away waits for one tick more than its distance, so
/// never for less than that.
pub proof fn law_alarm_not_early(next: u64, now: u64)
    requires
        now < next,
        next - now < i64::MAX,
    ensures
        Timeout(ZTimer::delta(next, now)).meaning() == Wait::For(next - now + 1),
{
}

/// A time of embassy, converted to the kernel's ticks and back, is never before the time itself:
/// nothing is woken early.
pub proof fn law_wake_not_early(rates: TickRates, ticks: int)
    requires
        rates.wf(),
        ticks >= 0,
    ensures
        rates.embassy_ticks(rates.zephyr_ticks(ticks)) >= ticks,
{
    let e = rates.embassy_hz as int;
    let z = rates.zephyr_hz as int;
    let a = ticks * z;
    let q = div_ceil(a, e);
    lemma_div_ceil(a, e);
    assert(q * e >= ticks * z);
    vstd::arithmetic::div_mod::lemma_div_is_ordered(ticks * z, q * e, z);
    vstd::arithmetic::div_mod::lemma_div_multiples_vanish(ticks, z);
    vstd::arithmetic::mul::lemma_mul_is_commutative(ticks, z);
}

/// A time of the kernel, converted to embassy's ticks and back, is never after the time itself, and
/// differs from it by less than the length of one tick of embassy.
pub proof fn law_now_not_late(rates: TickRates, ticks: int)
    requires
        rates.wf(),
        ticks >= 0,
    ensures
        rates.zephyr_ticks(rates.embassy_ticks(ticks)) <= ticks,
        ticks * rates.embassy_hz < (rates.embassy_ticks(ticks) + 1) * rates.zephyr_hz,
{
    let e = rates.embassy_hz as int;
    let z = rates.zephyr_hz as int;
    let t = rates.embassy_ticks(ticks);
    lemma_fundamental_div_mod(ticks * e, z);
    lemma_mod_bound(ticks * e, z);
    vstd::arithmetic::mul::lemma_mul_is_commutative(z, t);
    assert(t * z <= ticks * e);
    assert((t + 1) * z == t * z + z) by (nonlinear_arith);
    lemma_div_ceil(t * z, e);
    let q = div_ceil(t * z, e);
    assert(q <= ticks) by (nonlinear_arith)
        requires
            (q - 1) * e < t * z,
            t * z <= ticks * e,
            e > 0,
    ;
}

/// The conversions keep the order of times.
pub proof fn law_conversions_keep_order(rates: TickRates, a: int, b: int)
    requires
        rates.wf(),
        0 <= a <= b,
    ensures
        rates.embassy_ticks(a) <= rates.embassy_ticks(b),
        rates.zephyr_ticks(a) <= rates.zephyr_ticks(b),
{
    let e = rates.embassy_hz as int;
    let z = rates.zephyr_hz as int;
    vstd::arithmetic::mul::lemma_mul_inequality(a, b, e);
    vstd::arithmetic::div_mod::lemma_div_is_ordered(a * e, b * e, z);
    vstd::arithmetic::mul::lemma_mul_inequality(a, b, z);
    lemma_div_ceil(a * z, e);
    lemma_div_ceil(b * z, e);
    let p = div_ceil(a * z, e);
    let q = div_ceil(b * z, e);
    assert(p <= q) by (nonlinear_arith)
        requires
            (p - 1) * e < a * z,
            a * z <= b * z,
            b * z <= q * e,
            e > 0,
    ;
}

proof fn lemma_div_ceil(a: int, b: int)
    requires
        b > 0,
        a >= 0,
    ensures
        div_ceil(a, b) * b >= a,
        (div_ceil(a, b) - 1) * b < a,
{
    lemma_fundamental_div_mod(a, b);
    lemma_mod_bound(a, b);
    let q = a / b;
    let r = a % b;
    assert(b * q == q * b) by (nonlinear_arith);
    assert((q + 1) * b == q * b + b) by (nonlinear_arith);
    assert((q - 1) * b == q * b - b) by (nonlinear_arith);
}

/// A time of the kernel becomes the last tick of embassy that is not after it, in 64 bits.
pub proof fn law_now_is_last_tick(rates: TickRates, ticks: u64, r: u64)
    requires
        rates.zephyr_hz > 0,
        rates.embassy_hz > 0,
        call_ensures(TickRates::zephyr_to_embassy, (&rates, ticks), r) || call_ensures(
            TickRates::now,
            (&rates, ticks),
            r,
        ),
    ensures
        forall|q: int|
            #![trigger q * rates.zephyr_hz]
            q * rates.zephyr_hz <= ticks * rates.embassy_hz < (q + 1) * rates.zephyr_hz ==> r == q
                % 0x1_0000_0000_0000_0000,
{
    let e = rates.embassy_hz as int;
    let z = rates.zephyr_hz as int;
    assert forall|q: int|
        #![trigger q * rates.zephyr_hz]
        q * rates.zephyr_hz <= ticks * rates.embassy_hz < (q + 1) * rates.zephyr_hz implies r == q
        % 0x1_0000_0000_0000_0000 by {
        assert((q + 1) * z == q * z + z) by (nonlinear_arith);
        lemma_fundamental_div_mod_converse(ticks * e, z, q, ticks * e - q * z);
        lemma_product_fits(ticks, rates.embassy_hz);
        lemma_quotient_fits(ticks * e, z);
        lemma_low_bits(q);
    }
}

/// A time of embassy becomes the first tick of the kernel that is not before it, in 64 bits.
pub proof fn law_wake_is_first_tick(rates: TickRates, ticks: u64, r: u64)
    requires
        rates.zephyr_hz > 0,
        rates.embassy_hz > 0,
        call_ensures(TickRates::embassy_to_zephyr, (&rates, ticks), r) || call_ensures(
            TickRates::schedule_wake,
            (&rates, ticks),
            r,
        ),
    ensures
        forall|q: int|
            #![trigger q * rates.embassy_hz]
            (q - 1) * rates.embassy_hz < ticks * rates.zephyr_hz <= q * rates.embassy_hz ==> r == q
                % 0x1_0000_0000_0000_0000,
{
    let e = rates.embassy_hz as int;
    let z = rates.zephyr_hz as int;
    let a = ticks * z;
    lemma_product_fits(ticks, rates.zephyr_hz);
    lemma_div_ceil(a, e);
    let c = div_ceil(a, e);
    lemma_quotient_fits(a, e);
    assert forall|q: int|
        #![trigger q * rates.embassy_hz]
        (q - 1) * rates.embassy_hz < ticks * rates.zephyr_hz <= q * rates.embassy_hz implies r == q
        % 0x1_0000_0000_0000_0000 by {
        assert(q == c) by (nonlinear_arith)
            requires
                (q - 1) * e < a,
                a <= q * e,
                (c - 1) * e < a,
                a <= c * e,
                e > 0,
        ;
        lemma_low_bits(q);
    }
}

/// The driver's own conversions are those of its rates.
pub proof fn law_driver_converts(driver: ZephyrTimeDriver, ticks: u64, now: u64, wake: u64)
    requires
        driver.rates.zephyr_hz > 0,
        driver.rates.embassy_hz > 0,
        call_ensures(ZephyrTimeDriver::now, (&driver, ticks), now),
        call_ensures(ZephyrTimeDriver::schedule_wake, (&driver, ticks), wake),
    ensures
        forall|q: int|
            #![trigger q * driver.rates.zephyr_hz]
            q * driver.rates.zephyr_hz <= ticks * driver.rates.embassy_hz < (q + 1)
                * driver.rates.zephyr_hz ==> now == q % 0x1_0000_0000_0000_0000,
        forall|q: int|
            #![trigger q * driver.rates.embassy_hz]
            (q - 1) * driver.rates.embassy_hz < ticks * driver.rates.zephyr_hz <= q
                * driver.rates.embassy_hz ==> wake == q % 0x1_0000_0000_0000_0000,
{
    let rates = driver.rates;
    let e = rates.embassy_hz as int;
    let z = rates.zephyr_hz as int;
    assert forall|q: int|
        #![trigger q * rates.zephyr_hz]
        q * rates.zephyr_hz <= ticks * rates.embassy_hz < (q + 1) * rates.zephyr_hz implies now == q
        % 0x1_0000_0000_0000_0000 by {
        assert((q + 1) * z == q * z + z) by (nonlinear_arith);
        lemma_fundamental_div_mod_converse(ticks * e, z, q, ticks * e - q * z);
        lemma_product_fits(ticks, rates.embassy_hz);
        lemma_quotient_fits(ticks * e, z);
        lemma_low_bits(q);
    }
    let a = ticks * z;
    lemma_product_fits(ticks, rates.zephyr_hz);
    lemma_div_ceil(a, e);
    let c = div_ceil(a, e);
    lemma_quotient_fits(a, e);
    assert forall|q: int|
        #![trigger q * rates.embassy_hz]
        (q - 1) * rates.embassy_hz < ticks * rates.zephyr_hz <= q * rates.embassy_hz implies wake
        == q % 0x1_0000_0000_0000_0000 by {
        assert(q == c) by (nonlinear_arith)
            requires
                (q - 1) * e < a,
                a <= q * e,
                (c - 1) * e < a,
                a <= c * e,
                e > 0,
        ;
        lemma_low_bits(q);
    }
}

proof fn lemma_quotient_fits(a: int, b: int)
    requires
        0 <= a < u128::MAX,
        b > 0,
    ensures
        0 <= a / b < u128::MAX,
        0 <= div_ceil(a, b) <= u128::MAX,
{
    assert(0 <= a / b <= a) by (nonlinear_arith)
        requires
            a >= 0,
            b > 0,
    ;
}

proof fn lemma_low_bits(q: int)
    requires
        0 <= q <= u128::MAX,
    ensures
        q as u64 == q % 0x1_0000_0000_0000_0000,
{
    let n = q as u128;
    assert(n as u64 == n % 0x1_0000_0000_0000_0000u128) by (bit_vector);
}

/// An alarm is set for a time in the future, and only for that: the timer is started, once, for one
/// tick more than its distance, in 64 bits, after it was initialised where it was not before.
pub proof fn law_alarm_is_set(
    timer: &mut ZTimer,
    next: u64,
    now: u64,
    tick: Addr,
    r: Option<Vec<Call>>,
)
    requires
        next - now < u64::MAX,
        call_ensures(ZTimer::set_alarm, (timer, next, now, tick), r),
    ensures
        final(timer).item == old(timer).item,
        next <= now ==> r is None && *final(timer) == *old(timer),
        next > now ==> final(timer).initialized,
        next > now ==> (r matches Some(calls) && {
            let start = calls@.len() - 1;
            &&& calls@.len() == if old(timer).initialized {
                1nat
            } else {
                2
            }
            &&& !old(timer).initialized ==> calls@[0] == (Call::TimerInit {
                timer: old(timer).item,
                expiry: tick,
            })
            &&& calls@[start] matches Call::TimerStart { timer: at, delay, period }
            &&& at == old(timer).item
            &&& period.0 == -1
            &&& delay.0 == if next - now < 0x7fff_ffff_ffff_ffff {
                next - now + 1
            } else {
                next - now + 1 - 0x1_0000_0000_0000_0000
            }
        }),
{
    if next > now {
        lemma_signed((next - now + 1) as u64);
    }
}

proof fn lemma_signed(n: u64)
    ensures
        n as i64 == if n <= 0x7fff_ffff_ffff_ffff {
            n as int
        } else {
            n - 0x1_0000_0000_0000_0000
        },
{
    assert(n > 0x7fff_ffff_ffff_ffff ==> n as i64 == n - 0x1_0000_0000_0000_0000)
        by (bit_vector);
}

/// The alarm of the driver is that of its timer.  Where the next time is not in the future any
/// more, the queue is asked again, as it is after the timer expired, and after a task came first in
/// the queue.
pub proof fn law_driver_sets_alarm(
    driver: &mut ZephyrTimeDriver,
    next: u64,
    now: u64,
    tick: Addr,
    step: AlarmStep,
    before: ZephyrTimeDriver,
    expired: AlarmStep,
    earlier: bool,
    queued: AlarmStep,
)
    requires
        next - now < u64::MAX,
        call_ensures(ZephyrTimeDriver::next_expiration, (driver, next, now, tick), step),
        call_ensures(ZephyrTimeDriver::check_alarm, (&before,), expired),
        call_ensures(ZephyrTimeDriver::schedule_wake_queued, (&before, earlier), queued),
    ensures
        final(driver).rates == old(driver).rates,
        final(driver).timer.item == old(driver).timer.item,
        next <= now ==> step is AskQueue && *final(driver) == *old(driver),
        next > now ==> final(driver).timer.initialized,
        next > now ==> (step matches AlarmStep::Start(calls) && {
            let start = calls@.len() - 1;
            &&& calls@.len() == if old(driver).timer.initialized {
                1nat
            } else {
                2
            }
            &&& !old(driver).timer.initialized ==> calls@[0] == (Call::TimerInit {
                timer: old(driver).timer.item,
                expiry: tick,
            })
            &&& calls@[start] matches Call::TimerStart { timer: at, delay, period }
            &&& at == old(driver).timer.item
            &&& period.0 == -1
            &&& delay.0 == if next - now < 0x7fff_ffff_ffff_ffff {
                next - now + 1
            } else {
                next - now + 1 - 0x1_0000_0000_0000_0000
            }
        }),
        expired is AskQueue,
        earlier ==> queued is AskQueue,
        !earlier ==> queued is Unchanged,
{
    if next > now {
        lemma_signed((next - now + 1) as u64);
    }
}

} // verus!
