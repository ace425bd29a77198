//! Time types in units of kernel ticks.
//!
//! A [`Duration`] is a span of time, an [`Instant`] a point in time counted from the start of the
//! system.  Either becomes a [`Timeout`], as do [`Forever`] and [`NoWait`].
//!
//! A timeout is one signed number of ticks, whose range says what it means:
//!
//! - `0`: do not wait;
//! - `1 ..`: wait for that many ticks from now;
//! - `-1`: wait forever;
//! - `.. -2`: wait until an absolute time, `-2` being the start of the system.
use crate::raw::Call;
use crate::sys::{K_FOREVER, K_NO_WAIT};
use vstd::prelude::*;

verus! {

/// A count of kernel ticks.
pub type Tick = u64;

/// A span of time.
#[derive(Clone, Copy, Debug, PartialEq, Eq, PartialOrd, Ord, Structural)]
pub struct Duration(pub Tick);

/// A point in time.
#[derive(Clone, Copy, Debug, PartialEq, Eq, PartialOrd, Ord, Structural)]
pub struct Instant(pub Tick);

/// A kernel timeout.
#[derive(Clone, Copy, Debug, PartialEq, Eq, Structural)]
pub struct Timeout(pub i64);

/// A wait without end.
pub struct Forever;

/// A wait of no time at all.
pub struct NoWait;

/// What a timeout asks the kernel to do.
pub enum Wait {
    /// Do not wait.
    No,
    /// Wait for a number of ticks.
    For(int),
    /// Wait until an absolute time.
    Until(int),
    /// Wait without a limit.
    Forever,
}

impl Timeout {
    /// What this timeout asks the kernel to do.
    pub open spec fn meaning(self) -> Wait {
        if self.0 == 0 {
            Wait::No
        } else if self.0 > 0 {
            Wait::For(self.0 as int)
        } else if self.0 == -1 {
            Wait::Forever
        } else {
            Wait::Until(-2 - self.0)
        }
    }
}

/// The signed tick count for an unsigned one: the same number, or zero where it does not fit.
pub open spec fn signed_ticks(ticks: Tick) -> i64 {
    if ticks <= i64::MAX {
        ticks as i64
    } else {
        0
    }
}

/// Convert an unsigned tick count to a signed one.
pub fn checked_cast(ticks: Tick) -> (r: i64)
    ensures
        r == signed_ticks(ticks),
{
    if ticks <= i64::MAX as u64 {
        ticks as i64
    } else {
        0
    }
}

impl Duration {
    /// The duration of a number of ticks.
    pub fn from_ticks(ticks: Tick) -> (d: Duration)
        ensures
            d.0 == ticks,
    {
        Duration(ticks)
    }

    /// The number of ticks of this duration.
    pub fn ticks(self) -> (ticks: Tick)
        ensures
            ticks == self.0,
    {
        self.0
    }

    /// Ask how many ticks a duration of at least `millis` milliseconds has.
    pub fn millis_at_least(millis: Tick) -> (call: Call)
        ensures
            call == (Call::MsToTicksCeil { ms: millis }),
    {
        Call::MsToTicksCeil { ms: millis }
    }

    /// The duration of the number of ticks that was asked for.
    pub fn at_least_done(ticks: u64) -> (d: Duration)
        ensures
            d.0 == ticks,
    {
        Duration(ticks)
    }

    /// Ask how many ticks a duration of at least `secs` seconds has.
    pub fn secs_at_least(secs: Tick) -> (call: Call)
        ensures
            call == (Call::SecToTicksCeil { secs }),
    {
        Call::SecToTicksCeil { secs }
    }
}

impl Instant {
    /// The instant a number of ticks after the start of the system.
    pub fn from_ticks(ticks: Tick) -> (i: Instant)
        ensures
            i.0 == ticks,
    {
        Instant(ticks)
    }

    /// The number of ticks from the start of the system to this instant.
    pub fn ticks(self) -> (ticks: Tick)
        ensures
            ticks == self.0,
    {
        self.0
    }
}

impl vstd::std_specs::ops::AddSpecImpl<Duration> for Instant {
    open spec fn obeys_add_spec() -> bool {
        true
    }

    open spec fn add_req(self, duration: Duration) -> bool {
        self.0 + duration.0 <= u64::MAX
    }

    open spec fn add_spec(self, duration: Duration) -> Instant {
        Instant((self.0 + duration.0) as u64)
    }
}

impl core::ops::Add<Duration> for Instant {
    type Output = Instant;

    fn add(self, duration: Duration) -> (r: Instant) {
        Instant(self.0 + duration.0)
    }
}

impl vstd::std_specs::convert::FromSpecImpl<Duration> for Timeout {
    open spec fn obeys_from_spec() -> bool {
        true
    }

    open spec fn from_spec(value: Duration) -> Timeout {
        Timeout(signed_ticks(value.0))
    }
}

impl From<Duration> for Timeout {
    /// A wait for `value` from now.  A span too long for a signed tick count becomes no wait.
    fn from(value: Duration) -> (r: Timeout) {
        Timeout(checked_cast(value.ticks()))
    }
}

impl vstd::std_specs::convert::FromSpecImpl<Instant> for Timeout {
    open spec fn obeys_from_spec() -> bool {
        true
    }

    open spec fn from_spec(value: Instant) -> Timeout {
        if signed_ticks(value.0) == i64::MAX {
            Timeout(i64::MAX)
        } else {
            Timeout((-2 - signed_ticks(value.0)) as i64)
        }
    }
}

impl From<Instant> for Timeout {
    /// A wait until `value`.  Of the instants that a signed tick count can hold, the last one has
    /// no absolute timeout; its number wraps around.
    fn from(value: Instant) -> (r: Timeout) {
        let ticks: i64 = checked_cast(value.ticks());
        if ticks == i64::MAX {
            Timeout(i64::MAX)
        } else {
            Timeout(-2 - ticks)
        }
    }
}

impl vstd::std_specs::convert::FromSpecImpl<Forever> for Timeout {
    open spec fn obeys_from_spec() -> bool {
        true
    }

    open spec fn from_spec(value: Forever) -> Timeout {
        Timeout(K_FOREVER)
    }
}

impl From<Forever> for Timeout {
    fn from(value: Forever) -> (r: Timeout) {
        Timeout(K_FOREVER)
    }
}

impl vstd::std_specs::convert::FromSpecImpl<NoWait> for Timeout {
    open spec fn obeys_from_spec() -> bool {
        true
    }

    open spec fn from_spec(value: NoWait) -> Timeout {
        Timeout(K_NO_WAIT)
    }
}

impl From<NoWait> for Timeout {
    fn from(value: NoWait) -> (r: Timeout) {
        Timeout(K_NO_WAIT)
    }
}

/// Ask for the current time.
pub fn now() -> (call: Call)
    ensures
        call == Call::UptimeTicks,
{
    Call::UptimeTicks
}

/// The current time, from the kernel's tick counter.
pub fn now_done(ticks: i64) -> (now: Instant)
    ensures
        now.0 == ticks as u64,
{
    Instant::from_ticks(
        #[verifier::truncate]
        (ticks as u64),
    )
}

/// Ask the kernel to put the current thread to sleep.
pub fn sleep(timeout: Timeout) -> (call: Call)
    ensures
        call == (Call::Sleep { timeout }),
{
    Call::Sleep { timeout }
}

/// The time that was left when the sleep ended.
pub fn sleep_done(rest: i32) -> (left: Duration)
    ensures
        left.0 == rest as u64,
{
    Duration::from_ticks(
        #[verifier::truncate]
        (rest as u64),
    )
}

/// A timeout made of a duration waits for that duration.
pub proof fn law_duration_waits(d: Duration)
    requires
        0 < d.0 <= i64::MAX,
    ensures
        <Timeout as vstd::std_specs::convert::FromSpec<Duration>>::from_spec(d).meaning()
            == Wait::For(d.0 as int),
{
}

/// A timeout made of an instant waits until that instant.
pub proof fn law_instant_waits(i: Instant)
    requires
        i.0 < i64::MAX,
    ensures
        <Timeout as vstd::std_specs::convert::FromSpec<Instant>>::from_spec(i).meaning()
            == Wait::Until(i.0 as int),
{
}

/// The timeouts made of durations, of instants, of `Forever` and of `NoWait` are all different.
pub proof fn law_timeouts_distinct(d: Duration, i: Instant, f: Forever, n: NoWait)
    requires
        0 < d.0 <= i64::MAX,
        i.0 < i64::MAX,
    ensures
        ({
            let td = <Timeout as vstd::std_specs::convert::FromSpec<Duration>>::from_spec(d);
            let ti = <Timeout as vstd::std_specs::convert::FromSpec<Instant>>::from_spec(i);
            let tf = <Timeout as vstd::std_specs::convert::FromSpec<Forever>>::from_spec(f);
            let tn = <Timeout as vstd::std_specs::convert::FromSpec<NoWait>>::from_spec(n);
            &&& tf.meaning() == Wait::Forever
            &&& tn.meaning() == Wait::No
            &&& td != ti && td != tf && td != tn && ti != tf && ti != tn && tf != tn
        }),
{
}

/// A duration that a signed tick count can hold becomes its number of ticks, and a longer one no
/// wait at all.
pub proof fn law_duration_becomes_ticks(d: Duration, timeout: Timeout)
    requires
        call_ensures(<Timeout as From<Duration>>::from, (d,), timeout),
    ensures
        d.0 <= 0x7fff_ffff_ffff_ffff ==> timeout.0 == d.0,
        d.0 > 0x7fff_ffff_ffff_ffff ==> timeout.0 == 0,
{
}

/// An instant becomes a number below -1, one less for every tick.  The last instant that a signed
/// tick count can hold wraps around, and a later one is taken for the start of the system.
pub proof fn law_instant_becomes_ticks(i: Instant, timeout: Timeout)
    requires
        call_ensures(<Timeout as From<Instant>>::from, (i,), timeout),
    ensures
        i.0 < 0x7fff_ffff_ffff_ffff ==> timeout.0 + i.0 == -2,
        i.0 == 0x7fff_ffff_ffff_ffff ==> timeout.0 == 0x7fff_ffff_ffff_ffff,
        i.0 > 0x7fff_ffff_ffff_ffff ==> timeout.0 == -2,
{
}

/// The waits without a time are the numbers that the kernel has for them.
pub proof fn law_fixed_waits(f: Forever, n: NoWait, forever: Timeout, no_wait: Timeout)
    requires
        call_ensures(<Timeout as From<Forever>>::from, (f,), forever),
        call_ensures(<Timeout as From<NoWait>>::from, (n,), no_wait),
    ensures
        forever.0 == -1,
        no_wait.0 == 0,
{
}

/// An instant that is moved on by a duration is as many ticks later as the duration has.
pub proof fn law_instant_moves_on(i: Instant, d: Duration, later: Instant)
    requires
        i.0 + d.0 <= u64::MAX,
        call_ensures(<Instant as core::ops::Add<Duration>>::add, (i, d), later),
    ensures
        later.0 - i.0 == d.0,
{
}

/// A count of ticks from the kernel is the time and the rest of a sleep, unless it is negative;
/// that wraps around.
pub proof fn law_kernel_ticks(ticks: i64, now: Instant, rest: i32, left: Duration)
    requires
        call_ensures(now_done, (ticks,), now),
        call_ensures(sleep_done, (rest,), left),
    ensures
        now.0 == if ticks >= 0 {
            ticks as int
        } else {
            ticks + 0x1_0000_0000_0000_0000
        },
        left.0 == if rest >= 0 {
            rest as int
        } else {
            rest + 0x1_0000_0000_0000_0000
        },
{
    assert(ticks < 0 ==> ticks as u64 == ticks + 0x1_0000_0000_0000_0000) by (bit_vector);
    assert(rest < 0 ==> rest as u64 == rest + 0x1_0000_0000_0000_0000) by (bit_vector);
}

/// A span of milliseconds or of seconds is handed to the kernel as it is, and what the kernel makes
/// of it is the duration.
pub proof fn law_span_is_asked_for(
    span: Tick,
    millis: Call,
    secs: Call,
    ticks: u64,
    duration: Duration,
)
    requires
        call_ensures(Duration::millis_at_least, (span,), millis),
        call_ensures(Duration::secs_at_least, (span,), secs),
        call_ensures(Duration::at_least_done, (ticks,), duration),
    ensures
        millis == (Call::MsToTicksCeil { ms: span }),
        secs == (Call::SecToTicksCeil { secs: span }),
        duration.0 == ticks,
{
}

} // verus!
