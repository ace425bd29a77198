//! Gpio controllers and pins.
//!
//! A task can wait for the level of a pin.  It arms the interrupt of the pin; the interrupt handler
//! disarms it again, notes that the pin fired and wakes the task.  [`GpioStatic`] holds the notes
//! of one controller, which has up to 32 pins.
use crate::device::Unique;
use crate::raw::{Addr, Call, GpioDtSpec, GpioInterrupt};
use vstd::prelude::*;

verus! {

/// The largest number of pins of a controller.
pub const MAX_PINS: u8 = 32;

/// Whether a mask contains a pin.
pub open spec fn has_pin(mask: u32, pin: u32) -> bool {
    (mask >> pin) & 1u32 == 1u32
}

/// The pins below `limit` that a mask contains, in ascending order.
pub open spec fn pins_below(mask: u32, limit: nat) -> Seq<u8>
    decreases limit,
{
    if limit == 0 {
        Seq::empty()
    } else if has_pin(mask, (limit - 1) as u32) {
        pins_below(mask, (limit - 1) as nat).push((limit - 1) as u8)
    } else {
        pins_below(mask, (limit - 1) as nat)
    }
}

/// Whether `after` is `before` with a pin removed.
pub open spec fn pin_removed(before: u32, after: u32, pin: u32) -> bool {
    forall|i: u32|
        0 <= i < 32 ==> (#[trigger] has_pin(after, i) <==> has_pin(before, i) && i != pin)
}

/// Whether `after` is `before` with a pin added.
pub open spec fn pin_added(before: u32, after: u32, pin: u32) -> bool {
    forall|i: u32|
        0 <= i < 32 ==> (#[trigger] has_pin(after, i) <==> has_pin(before, i) || i == pin)
}

/// Whether `after` is `before` with all pins of `pins` added.
pub open spec fn pins_added(before: u32, after: u32, pins: u32) -> bool {
    forall|i: u32|
        0 <= i < 32 ==> (#[trigger] has_pin(after, i) <==> has_pin(before, i) || has_pin(pins, i))
}

/// Whether `after` is `before` with all pins of `pins` removed.
pub open spec fn pins_removed(before: u32, after: u32, pins: u32) -> bool {
    forall|i: u32|
        0 <= i < 32 ==> (#[trigger] has_pin(after, i) <==> has_pin(before, i) && !has_pin(pins, i))
}

fn insert_pin(mask: u32, pin: u8) -> (r: u32)
    requires
        pin < MAX_PINS,
    ensures
        pin_added(mask, r, pin as u32),
{
    let p: u32 = pin as u32;
    let r: u32 = mask | (1u32 << p);
    assert forall|i: u32| 0 <= i < 32 implies (#[trigger] has_pin(r, i) <==> has_pin(mask, i) || i
        == p) by {
        assert(((mask | (1u32 << p)) >> i) & 1u32 == 1u32 <==> ((mask >> i) & 1u32 == 1u32 || i
            == p)) by (bit_vector)
            requires
                i < 32,
                p < 32,
        ;
    }
    r
}

fn remove_pin(mask: u32, pin: u8) -> (r: u32)
    requires
        pin < MAX_PINS,
    ensures
        pin_removed(mask, r, pin as u32),
{
    let p: u32 = pin as u32;
    let r: u32 = mask & !(1u32 << p);
    assert forall|i: u32| 0 <= i < 32 implies (#[trigger] has_pin(r, i) <==> has_pin(mask, i) && i
        != p) by {
        assert(((mask & !(1u32 << p)) >> i) & 1u32 == 1u32 <==> ((mask >> i) & 1u32 == 1u32 && i
            != p)) by (bit_vector)
            requires
                i < 32,
                p < 32,
        ;
    }
    r
}

fn contains_pin(mask: u32, pin: u8) -> (r: bool)
    requires
        pin < MAX_PINS,
    ensures
        r == has_pin(mask, pin as u32),
{
    let p: u32 = pin as u32;
    (mask >> p) & 1u32 == 1u32
}

/// What the waiting tasks and the interrupt handler of a controller share.
#[derive(Clone, Copy, Debug, PartialEq, Eq, Structural)]
pub struct GpioStatic {
    /// The pins that fired, and whose task did not notice yet.
    pub fired: u32,
    /// Whether the interrupt handler was installed.
    pub installed: bool,
    /// The pins that the interrupt handler is called for.
    pub pin_mask: u32,
}

/// The calls that disarm pins of a port.
pub open spec fn disarm(port: Addr, pins: Seq<u8>) -> Seq<Call> {
    pins.map_values(
        |pin: u8|
            Call::GpioPinInterruptConfigure { port, pin, mode: GpioInterrupt::DisableOnly },
    )
}

impl GpioStatic {
    /// No handler, and no pins.
    pub fn new() -> (r: GpioStatic)
        ensures
            r == (GpioStatic { fired: 0, installed: false, pin_mask: 0 }),
    {
        GpioStatic { fired: 0, installed: false, pin_mask: 0 }
    }

    /// Install the interrupt handler on a port, unless that was done.  `callback` is where the
    /// kernel keeps its data, `handler` the C function that runs [`GpioStatic::callback_handler`].
    pub fn fast_install(&mut self, port: Addr, callback: Addr, handler: Addr) -> (calls: Vec<Call>)
        ensures
            *final(self) == (GpioStatic { installed: true, ..*old(self) }),
            calls@ == install_calls(*old(self), port, callback, handler),
    {
        if self.installed {
            return Vec::new();
        }
        self.installed = true;
        vec![
            Call::GpioInitCallback { callback, handler },
            Call::GpioAddCallback { port, callback },
        ]
    }

    /// Have the interrupt handler called for a pin, whose waker was registered before.
    pub fn register(&mut self, pin: u8)
        requires
            pin < MAX_PINS,
        ensures
            pin_added(old(self).pin_mask, final(self).pin_mask, pin as u32),
            final(self).fired == old(self).fired,
            final(self).installed == old(self).installed,
    {
        self.pin_mask = insert_pin(self.pin_mask, pin);
    }

    /// The interrupt handler: each of `pins` is disarmed and noted as fired.  The result is the
    /// calls, and the pins, in ascending order, whose tasks have to be woken after them.
    pub fn callback_handler(&mut self, port: Addr, pins: u32) -> (r: (Vec<Call>, Vec<u8>))
        ensures
            r.1@ == pins_below(pins, 32),
            r.0@ == disarm(port, pins_below(pins, 32)),
            pins_added(old(self).fired, final(self).fired, pins),
            pins_removed(old(self).pin_mask, final(self).pin_mask, pins),
            final(self).installed == old(self).installed,
    {
        let mut rest: u32 = pins;
        let mut calls: Vec<Call> = Vec::new();
        let mut wake: Vec<u8> = Vec::new();
        let ghost mut next: nat = 0;
        assert(disarm(port, pins_below(pins, 0)) =~= Seq::empty());
        while rest > 0
            invariant
                next <= 32,
                forall|i: u32|
                    0 <= i < 32 ==> (#[trigger] has_pin(rest, i) <==> has_pin(pins, i) && i
                        >= next),
                forall|i: u32|
                    0 <= i < 32 ==> (#[trigger] has_pin(self.fired, i) <==> has_pin(
                        old(self).fired,
                        i,
                    ) || (has_pin(pins, i) && i < next)),
                forall|i: u32|
                    0 <= i < 32 ==> (#[trigger] has_pin(self.pin_mask, i) <==> has_pin(
                        old(self).pin_mask,
                        i,
                    ) && !(has_pin(pins, i) && i < next)),
                self.installed == old(self).installed,
                wake@ == pins_below(pins, next),
                calls@ == disarm(port, pins_below(pins, next)),
            decreases 32 - next,
        {
            let low: u32 = rest.trailing_zeros();
            assert(low < 32);
            assert(has_pin(rest, low));
            assert forall|i: u32| next <= i < low implies !has_pin(pins, i) by {
                assert((rest >> i) & 1u32 == 0u32);
                assert(!has_pin(rest, i));
            }
            let pin: u8 = low as u8;
            let ghost before = rest;
            rest = remove_pin(rest, pin);
            calls.push(
                Call::GpioPinInterruptConfigure { port, pin, mode: GpioInterrupt::DisableOnly },
            );
            self.pin_mask = remove_pin(self.pin_mask, pin);
            self.fired = insert_pin(self.fired, pin);
            wake.push(pin);
            proof {
                lemma_pins_below_skip(pins, next, low as nat);
                let seen = pins_below(pins, next);
                assert(pins_below(pins, (low + 1) as nat) == seen.push(pin));
                assert(disarm(port, seen.push(pin)) =~= disarm(port, seen).push(
                    Call::GpioPinInterruptConfigure {
                        port,
                        pin,
                        mode: GpioInterrupt::DisableOnly,
                    },
                ));
                assert forall|i: u32| 0 <= i < 32 implies (#[trigger] has_pin(rest, i) <==> has_pin(
                    pins,
                    i,
                ) && i >= low + 1) by {
                    assert(has_pin(before, i) <==> has_pin(pins, i) && i >= next);
                }
                next = (low + 1) as nat;
            }
        }
        proof {
            assert forall|i: u32| next <= i < 32 implies !has_pin(pins, i) by {
                assert((0u32 >> i) & 1u32 == 0u32) by (bit_vector);
                assert(!has_pin(rest, i));
            }
            lemma_pins_below_skip(pins, next, 32);
        }
        (calls, wake)
    }

    /// Whether a pin fired.  The note is cleared.
    pub fn has_fired(&mut self, pin: u8) -> (r: bool)
        requires
            pin < MAX_PINS,
        ensures
            r == has_pin(old(self).fired, pin as u32),
            pin_removed(old(self).fired, final(self).fired, pin as u32),
            final(self).installed == old(self).installed,
            final(self).pin_mask == old(self).pin_mask,
    {
        let fired = contains_pin(self.fired, pin);
        self.fired = remove_pin(self.fired, pin);
        fired
    }
}

/// The calls that install the interrupt handler.
pub open spec fn install_calls(
    data: GpioStatic,
    port: Addr,
    callback: Addr,
    handler: Addr,
) -> Seq<Call> {
    if data.installed {
        Seq::empty()
    } else {
        seq![
            Call::GpioInitCallback { callback, handler },
            Call::GpioAddCallback { port, callback },
        ]
    }
}

proof fn lemma_pins_below_skip(mask: u32, from: nat, to: nat)
    requires
        from <= to <= 32,
        forall|i: u32| from <= i < to ==> !has_pin(mask, i),
    ensures
        pins_below(mask, to) == pins_below(mask, from),
    decreases to,
{
    if from < to {
        assert(!has_pin(mask, (to - 1) as u32));
        lemma_pins_below_skip(mask, from, (to - 1) as nat);
    }
}

/// The right to use gpios, of which there is one.
pub struct GpioToken {}

impl GpioToken {
    /// The right to use gpios, the first time.
    pub fn get_instance(unique: &mut Unique) -> (r: Option<GpioToken>)
        ensures
            r is Some <==> old(unique).0 == 0,
            *final(unique) == old(unique).after_once(),
    {
        if !unique.once() {
            return None;
        }
        Some(GpioToken {  })
    }
}

/// A gpio controller.
#[derive(Clone, Copy, Debug, PartialEq, Eq, Structural)]
pub struct Gpio {
    /// The device.
    pub device: Addr,
}

impl Gpio {
    /// The controller at `device`, the first time.
    pub fn new(unique: &mut Unique, device: Addr) -> (r: Option<Gpio>)
        ensures
            r == (if old(unique).0 == 0 {
                Some(Gpio { device })
            } else {
                None
            }),
            *final(unique) == old(unique).after_once(),
    {
        if !unique.once() {
            return None;
        }
        Some(Gpio { device })
    }

    /// Ask whether the device is ready.
    pub fn is_ready(&self) -> (call: Call)
        ensures
            call == (Call::DeviceIsReady { device: self.device }),
    {
        Call::DeviceIsReady { device: self.device }
    }
}

/// A pin of a gpio controller.
#[derive(Clone, Copy, Debug, PartialEq, Eq, Structural)]
pub struct GpioPin {
    /// The pin, as the device tree describes it.
    pub pin: GpioDtSpec,
}

impl GpioPin {
    /// The pin, the first time.
    pub fn new(unique: &mut Unique, device: Addr, pin: u32, dt_flags: u32) -> (r: Option<GpioPin>)
        ensures
            r == (if old(unique).0 == 0 {
                Some(
                    GpioPin {
                        pin: GpioDtSpec { port: device, pin: pin as u8, dt_flags: dt_flags as u16 },
                    },
                )
            } else {
                None
            }),
            *final(unique) == old(unique).after_once(),
    {
        if !unique.once() {
            return None;
        }
        Some(
            GpioPin {
                pin: GpioDtSpec {
                    port: device,
                    pin: #[verifier::truncate]
                    (pin as u8),
                    dt_flags: #[verifier::truncate]
                    (dt_flags as u16),
                },
            },
        )
    }

    /// Ask whether the device is ready.
    pub fn is_ready(&self) -> (call: Call)
        ensures
            call == (Call::DeviceIsReady { device: self.pin.port }),
    {
        self.get_gpio().is_ready()
    }

    /// The controller of the pin.
    pub fn get_gpio(&self) -> (r: Gpio)
        ensures
            r.device == self.pin.port,
    {
        Gpio { device: self.pin.port }
    }

    /// Configure the pin, with flags in addition to those of the device tree.
    pub fn configure(&mut self, token: &mut GpioToken, extra_flags: u32) -> (call: Call)
        ensures
            *final(self) == *old(self),
            call == (Call::GpioPinConfigure {
                port: old(self).pin.port,
                pin: old(self).pin.pin,
                flags: old(self).pin.dt_flags as u32 | extra_flags,
            }),
    {
        Call::GpioPinConfigure {
            port: self.pin.port,
            pin: self.pin.pin,
            flags: self.pin.dt_flags as u32 | extra_flags,
        }
    }

    /// Change the level of the pin.
    pub fn toggle_pin(&mut self, token: &mut GpioToken) -> (call: Call)
        ensures
            *final(self) == *old(self),
            call == (Call::GpioPinToggle { spec: old(self).pin }),
    {
        Call::GpioPinToggle { spec: self.pin }
    }

    /// Set the level of the pin.
    pub fn set(&mut self, token: &mut GpioToken, value: bool) -> (call: Call)
        ensures
            *final(self) == *old(self),
            call == (Call::GpioPinSet {
                spec: old(self).pin,
                level: if value {
                    1
                } else {
                    0
                },
            }),
    {
        Call::GpioPinSet {
            spec: self.pin,
            level: if value {
                1
            } else {
                0
            },
        }
    }

    /// Ask for the level of the pin.
    pub fn get(&mut self, token: &mut GpioToken) -> (call: Call)
        ensures
            *final(self) == *old(self),
            call == (Call::GpioPinGet { spec: old(self).pin }),
    {
        Call::GpioPinGet { spec: self.pin }
    }

    /// The level of the pin.
    pub fn get_done(code: i32) -> (r: bool)
        requires
            code == 0 || code == 1,
        ensures
            r == (code == 1),
    {
        code == 1
    }

    /// Wait for the pin to be high.
    pub fn wait_for_high(&mut self, token: &mut GpioToken) -> (r: GpioWait)
        ensures
            *final(self) == *old(self),
            r == (GpioWait { pin: *old(self), level: 1 }),
    {
        GpioWait { pin: *self, level: 1 }
    }

    /// Wait for the pin to be low.
    pub fn wait_for_low(&mut self, token: &mut GpioToken) -> (r: GpioWait)
        ensures
            *final(self) == *old(self),
            r == (GpioWait { pin: *old(self), level: 0 }),
    {
        GpioWait { pin: *self, level: 0 }
    }
}

/// A wait for the level of a pin.
#[derive(Clone, Copy, Debug, PartialEq, Eq, Structural)]
pub struct GpioWait {
    /// The pin.
    pub pin: GpioPin,
    /// The level, one or zero.
    pub level: u8,
}

/// How the poll of a wait goes on.
pub enum WaitStep {
    /// The pin fired.
    Ready,
    /// Register the waker of the task for the pin, then make these calls, which arm the pin; then
    /// comes [`GpioWait::poll_armed`].
    Arm(Vec<Call>),
}

impl GpioWait {
    /// The interrupt that is waited for.
    pub open spec fn mode(self) -> GpioInterrupt {
        if self.level == 0 {
            GpioInterrupt::LevelLow
        } else {
            GpioInterrupt::LevelHigh
        }
    }

    /// Poll: install the handler if need be, and see whether the pin fired.  If not, the pin is
    /// armed. The first part of the result are the calls that install the handler.
    pub fn poll(&self, data: &mut GpioStatic, callback: Addr, handler: Addr) -> (r: (
        Vec<Call>,
        WaitStep,
    ))
        requires
            self.pin.pin.pin < MAX_PINS,
            self.level <= 1,
        ensures
            final(data).installed,
            r.0@ == install_calls(*old(data), self.pin.pin.port, callback, handler),
            pin_removed(old(data).fired, final(data).fired, self.pin.pin.pin as u32),
            if has_pin(old(data).fired, self.pin.pin.pin as u32) {
                &&& r.1 == WaitStep::Ready
                &&& final(data).pin_mask == old(data).pin_mask
            } else {
                &&& r.1 matches WaitStep::Arm(calls) && calls@ == seq![
                    Call::GpioPinInterruptConfigureDt { spec: self.pin.pin, mode: self.mode() },
                ]
                &&& pin_added(
                    old(data).pin_mask,
                    final(data).pin_mask,
                    self.pin.pin.pin as u32,
                )
            },
    {
        let install = data.fast_install(self.pin.pin.port, callback, handler);
        if data.has_fired(self.pin.pin.pin) {
            return (install, WaitStep::Ready);
        }
        data.register(self.pin.pin.pin);
        let mode = if self.level == 0 {
            GpioInterrupt::LevelLow
        } else {
            GpioInterrupt::LevelHigh
        };
        (
            install,
            WaitStep::Arm(
                vec![Call::GpioPinInterruptConfigureDt { spec: self.pin.pin, mode }],
            ),
        )
    }

    /// The pin is armed: whether it fired since, so that the wait is at its end.
    pub fn poll_armed(&self, data: &mut GpioStatic) -> (ready: bool)
        requires
            self.pin.pin.pin < MAX_PINS,
        ensures
            ready == has_pin(old(data).fired, self.pin.pin.pin as u32),
            pin_removed(old(data).fired, final(data).fired, self.pin.pin.pin as u32),
            final(data).installed == old(data).installed,
            final(data).pin_mask == old(data).pin_mask,
    {
        data.has_fired(self.pin.pin.pin)
    }
}

/// An interrupt is not missed: a pin that fired at any time since it was last noticed is noticed,
/// and then it is noticed once.  Other pins are not affected by that.
pub proof fn law_fired_noticed_once(
    before: u32,
    fired: u32,
    noticed: u32,
    pins: u32,
    pin: u32,
    other: u32,
)
    requires
        pin < 32,
        other < 32,
        other != pin,
        has_pin(pins, pin),
        pins_added(before, fired, pins),
        pin_removed(fired, noticed, pin),
    ensures
        has_pin(fired, pin),
        !has_pin(noticed, pin),
        has_pin(noticed, other) <==> has_pin(before, other) || has_pin(pins, other),
{
}

/// The handler disarms exactly the pins that it is called with, each once.
pub proof fn law_handler_disarms_pins(pins: u32, pin: u8)
    requires
        pin < MAX_PINS,
    ensures
        pins_below(pins, 32).contains(pin) <==> has_pin(pins, pin as u32),
        pins_below(pins, 32).no_duplicates(),
{
    lemma_pins_below(pins, 32);
    if pins_below(pins, 32).contains(pin) {
        let i = choose|i: int|
            0 <= i < pins_below(pins, 32).len() && pins_below(pins, 32)[i] == pin;
        assert(has_pin(pins, pins_below(pins, 32)[i] as u32));
    }
    if has_pin(pins, pin as u32) {
        lemma_pins_below_contains(pins, 32, pin);
    }
}

proof fn lemma_pins_below(mask: u32, limit: nat)
    requires
        limit <= 32,
    ensures
        forall|i: int|
            0 <= i < pins_below(mask, limit).len() ==> (#[trigger] pins_below(mask, limit)[i])
                < limit && has_pin(mask, pins_below(mask, limit)[i] as u32),
        pins_below(mask, limit).no_duplicates(),
    decreases limit,
{
    if limit > 0 {
        lemma_pins_below(mask, (limit - 1) as nat);
    }
}

proof fn lemma_pins_below_contains(mask: u32, limit: nat, pin: u8)
    requires
        limit <= 32,
        pin < limit,
        has_pin(mask, pin as u32),
    ensures
        pins_below(mask, limit).contains(pin),
    decreases limit,
{
    let all = pins_below(mask, limit);
    if pin == limit - 1 {
        assert(all[all.len() - 1] == pin);
    } else {
        lemma_pins_below_contains(mask, (limit - 1) as nat, pin);
        let rest = pins_below(mask, (limit - 1) as nat);
        let i = choose|i: int| 0 <= i < rest.len() && rest[i] == pin;
        assert(all[i] == pin);
    }
}

/// Waiting for a pin to be high arms the interrupt for a high level, waiting for it to be low the
/// one for a low level, on that pin; the interrupt handler is installed before, the first time.
pub proof fn law_wait_arms_level(
    high: &mut GpioPin,
    low: &mut GpioPin,
    token: &mut GpioToken,
    other: &mut GpioToken,
    for_high: GpioWait,
    for_low: GpioWait,
    data: &mut GpioStatic,
    more: &mut GpioStatic,
    callback: Addr,
    handler: Addr,
    a: (Vec<Call>, WaitStep),
    b: (Vec<Call>, WaitStep),
)
    requires
        call_ensures(GpioPin::wait_for_high, (high, token), for_high),
        call_ensures(GpioPin::wait_for_low, (low, other), for_low),
        call_ensures(GpioWait::poll, (&for_high, data, callback, handler), a),
        call_ensures(GpioWait::poll, (&for_low, more, callback, handler), b),
        old(high).pin.pin < 32 && old(low).pin.pin < 32,
    ensures
        final(high).pin == old(high).pin && final(low).pin == old(low).pin,
        a.1 is Ready <==> (old(data).fired >> (old(high).pin.pin as u32)) & 1u32 == 1u32,
        b.1 is Ready <==> (old(more).fired >> (old(low).pin.pin as u32)) & 1u32 == 1u32,
        a.1 matches WaitStep::Arm(calls) ==> calls@ == seq![
            Call::GpioPinInterruptConfigureDt {
                spec: old(high).pin,
                mode: GpioInterrupt::LevelHigh,
            },
        ] && (final(data).pin_mask >> (old(high).pin.pin as u32)) & 1u32 == 1u32,
        b.1 matches WaitStep::Arm(calls) ==> calls@ == seq![
            Call::GpioPinInterruptConfigureDt {
                spec: old(low).pin,
                mode: GpioInterrupt::LevelLow,
            },
        ] && (final(more).pin_mask >> (old(low).pin.pin as u32)) & 1u32 == 1u32,
        (final(data).fired >> (old(high).pin.pin as u32)) & 1u32 != 1u32,
        final(data).installed && final(more).installed,
        old(data).installed ==> a.0@.len() == 0,
        !old(data).installed ==> a.0@ == seq![
            Call::GpioInitCallback { callback, handler },
            Call::GpioAddCallback { port: old(high).pin.port, callback },
        ],
{
    assert(has_pin(final(data).fired, old(high).pin.pin as u32) <==> false);
    if a.1 is Arm {
        assert(has_pin(final(data).pin_mask, old(high).pin.pin as u32));
    }
    if b.1 is Arm {
        assert(has_pin(final(more).pin_mask, old(low).pin.pin as u32));
    }
}

/// The interrupt handler disarms and wakes exactly the pins whose bits are set, each once and in
/// ascending order, notes them as fired, and is not called for them again; other pins stay as they
/// are.
pub proof fn law_handler_handles_set_bits(
    data: &mut GpioStatic,
    port: Addr,
    pins: u32,
    r: (Vec<Call>, Vec<u8>),
    pin: u32,
)
    requires
        call_ensures(GpioStatic::callback_handler, (data, port, pins), r),
        pin < 32,
    ensures
        r.1@.contains(pin as u8) <==> (pins >> pin) & 1u32 == 1u32,
        r.1@.no_duplicates(),
        forall|i: int, j: int|
            0 <= i < j < r.1@.len() ==> (#[trigger] r.1@[i]) < (#[trigger] r.1@[j]),
        r.0@.len() == r.1@.len(),
        forall|i: int|
            0 <= i < r.1@.len() ==> #[trigger] r.0@[i] == (Call::GpioPinInterruptConfigure {
                port,
                pin: r.1@[i],
                mode: GpioInterrupt::DisableOnly,
            }),
        (final(data).fired >> pin) & 1u32 == 1u32 <==> (old(data).fired >> pin) & 1u32 == 1u32 || (
        pins >> pin) & 1u32 == 1u32,
        (final(data).pin_mask >> pin) & 1u32 == 1u32 <==> (old(data).pin_mask >> pin) & 1u32 == 1u32
            && (pins >> pin) & 1u32 != 1u32,
        final(data).installed == old(data).installed,
{
    law_handler_disarms_pins(pins, pin as u8);
    lemma_pins_ascend(pins, 32);
    assert(has_pin(final(data).fired, pin) <==> has_pin(old(data).fired, pin) || has_pin(
        pins,
        pin,
    ));
    assert(has_pin(final(data).pin_mask, pin) <==> has_pin(old(data).pin_mask, pin) && !has_pin(
        pins,
        pin,
    ));
}

proof fn lemma_pins_ascend(mask: u32, limit: nat)
    requires
        limit <= 32,
    ensures
        forall|i: int, j: int|
            0 <= i < j < pins_below(mask, limit).len() ==> (#[trigger] pins_below(mask, limit)[i])
                < (#[trigger] pins_below(mask, limit)[j]),
    decreases limit,
{
    if limit > 0 {
        lemma_pins_ascend(mask, (limit - 1) as nat);
        lemma_pins_below(mask, (limit - 1) as nat);
    }
}

/// A pin that fires after it was armed is not missed: the look that follows the arming finds it,
/// and clears the note, so that the next one does not.
pub proof fn law_armed_pin_is_not_missed(
    wait: GpioWait,
    handling: &mut GpioStatic,
    port: Addr,
    pins: u32,
    r: (Vec<Call>, Vec<u8>),
    looking: &mut GpioStatic,
    ready: bool,
    again: &mut GpioStatic,
    still: bool,
)
    requires
        wait.pin.pin.pin < 32,
        (pins >> (wait.pin.pin.pin as u32)) & 1u32 == 1u32,
        call_ensures(GpioStatic::callback_handler, (handling, port, pins), r),
        call_ensures(GpioWait::poll_armed, (&wait, looking), ready),
        call_ensures(GpioWait::poll_armed, (&wait, again), still),
        *old(looking) == *final(handling),
        *old(again) == *final(looking),
    ensures
        ready,
        !still,
{
    let pin = wait.pin.pin.pin as u32;
    assert(has_pin(final(handling).fired, pin) <==> has_pin(old(handling).fired, pin) || has_pin(
        pins,
        pin,
    ));
    assert(has_pin(final(looking).fired, pin) <==> false);
}

/// A pin is configured with the flags of the device tree and the extra ones, set to one or zero,
/// and read as high where the answer is one.
pub proof fn law_pin_is_set_and_read(
    configured: &mut GpioPin,
    set: &mut GpioPin,
    read: &mut GpioPin,
    t: &mut GpioToken,
    u: &mut GpioToken,
    v: &mut GpioToken,
    flags: u32,
    value: bool,
    a: Call,
    b: Call,
    c: Call,
    code: i32,
    level: bool,
)
    requires
        call_ensures(GpioPin::configure, (configured, t, flags), a),
        call_ensures(GpioPin::set, (set, u, value), b),
        call_ensures(GpioPin::get, (read, v), c),
        call_ensures(GpioPin::get_done, (code,), level),
    ensures
        a == (Call::GpioPinConfigure {
            port: old(configured).pin.port,
            pin: old(configured).pin.pin,
            flags: old(configured).pin.dt_flags as u32 | flags,
        }),
        value ==> b == (Call::GpioPinSet { spec: old(set).pin, level: 1 }),
        !value ==> b == (Call::GpioPinSet { spec: old(set).pin, level: 0 }),
        c == (Call::GpioPinGet { spec: old(read).pin }),
        level <==> code == 1,
{
}

} // verus!
