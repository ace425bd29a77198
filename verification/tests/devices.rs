use zephyr::device::flash::{FlashController, FlashPartition};
use zephyr::device::fuel_gauge::{
    FuelGauge, FuelGaugeBufferProp, FuelGaugeProp, FuelGaugeString, PropRead, PropValue,
};
use zephyr::device::gpio::{Gpio, GpioPin, GpioStatic, GpioToken, WaitStep};
use zephyr::device::i2c::target::{I2cTargetConfig, I2cTargetTable, to_byte_code, to_code};
use zephyr::device::i2c::{I2c, I2cTarget, I2cTargetCallbacks, I2cTargetData};
use zephyr::device::led::{Led, LedController};
use zephyr::device::led_strip::{LedRgb, LedStrip};
use zephyr::device::Unique;
use zephyr::error::{to_result_void, Error};
use zephyr::raw::{Call, GpioDtSpec, GpioInterrupt};

#[test]
fn flash_is_handed_out_once() {
    let mut unique = Unique::new();
    let partition = FlashPartition::new(&mut unique, 0x10, 0x8000, 0x4000).unwrap();
    assert_eq!(partition.controller, FlashController { device: 0x10 });
    assert_eq!((partition.offset, partition.size), (0x8000, 0x4000));
    assert!(FlashPartition::new(&mut unique, 0x10, 0x8000, 0x4000).is_none());
    let mut unique = Unique::new();
    assert!(FlashController::new(&mut unique, 1).is_some());
    assert!(FlashController::new(&mut unique, 1).is_none());
}

#[test]
fn led_operations() {
    let mut unique = Unique::new();
    let mut led = Led::new(&mut unique, 0x20, 3).unwrap();
    assert!(Led::new(&mut unique, 0x20, 3).is_none());
    assert_eq!(led.is_ready(), Call::DeviceIsReady { device: 0x20 });
    assert_eq!(led.on(), Call::LedOn { device: 0x20, led: 3 });
    assert_eq!(led.off(), Call::LedOff { device: 0x20, led: 3 });
    assert_eq!(
        led.set_brightness(40),
        Call::LedSetBrightness { device: 0x20, led: 3, brightness: 40 }
    );
    assert_eq!(
        led.blink(100, 200),
        Call::LedBlink { device: 0x20, led: 3, delay_on: 100, delay_off: 200 }
    );
    assert_eq!(Led::done(-22), Err(Error(22)));
    assert_eq!(Led::done(0), Ok(()));
    let mut unique = Unique::new();
    let controller = LedController::new(&mut unique, 0x21).unwrap();
    assert_eq!(controller.is_ready(), Call::DeviceIsReady { device: 0x21 });
    assert!(LedController::new(&mut unique, 0x21).is_none());
}

#[test]
fn led_strip_operations() {
    let mut unique = Unique::new();
    let mut strip = LedStrip::new(&mut unique, 0x30).unwrap();
    assert!(LedStrip::new(&mut unique, 0x30).is_none());
    assert_eq!(strip.is_ready(), Call::DeviceIsReady { device: 0x30 });
    assert_eq!(strip.length(), Call::LedStripLength { device: 0x30 });
    let pixels = vec![LedRgb { r: 1, g: 2, b: 3 }, LedRgb { r: 4, g: 5, b: 6 }];
    assert_eq!(
        strip.update_rgb(pixels.clone()),
        Call::LedStripUpdateRgb { device: 0x30, pixels }
    );
    assert_eq!(LedStrip::update_rgb_done(-5), Err(Error(5)));
}

#[test]
fn gpio_pin_operations() {
    let mut unique = Unique::new();
    let mut token = GpioToken::get_instance(&mut unique).unwrap();
    assert!(GpioToken::get_instance(&mut unique).is_none());
    let mut unique = Unique::new();
    let mut pin = GpioPin::new(&mut unique, 0x40, 13, 0x11).unwrap();
    assert!(GpioPin::new(&mut unique, 0x40, 13, 0x11).is_none());
    let spec = GpioDtSpec { port: 0x40, pin: 13, dt_flags: 0x11 };
    assert_eq!(pin.pin, spec);
    assert_eq!(pin.get_gpio(), Gpio { device: 0x40 });
    assert_eq!(pin.is_ready(), Call::DeviceIsReady { device: 0x40 });
    assert_eq!(
        pin.configure(&mut token, 0x2_0000),
        Call::GpioPinConfigure { port: 0x40, pin: 13, flags: 0x2_0011 }
    );
    assert_eq!(pin.toggle_pin(&mut token), Call::GpioPinToggle { spec });
    assert_eq!(pin.set(&mut token, true), Call::GpioPinSet { spec, level: 1 });
    assert_eq!(pin.set(&mut token, false), Call::GpioPinSet { spec, level: 0 });
    assert_eq!(pin.get(&mut token), Call::GpioPinGet { spec });
    assert!(GpioPin::get_done(1));
    assert!(!GpioPin::get_done(0));
    let mut unique = Unique::new();
    assert_eq!(Gpio::new(&mut unique, 9).unwrap().is_ready(), Call::DeviceIsReady { device: 9 });
    assert!(Gpio::new(&mut unique, 9).is_none());
}

fn pin_and_token(pin: u32) -> (GpioPin, GpioToken) {
    let mut unique = Unique::new();
    let token = GpioToken::get_instance(&mut unique).unwrap();
    let mut unique = Unique::new();
    (GpioPin::new(&mut unique, 0x40, pin, 0).unwrap(), token)
}

#[test]
fn gpio_wait_arms_and_notices() {
    let (mut pin, mut token) = pin_and_token(5);
    let spec = pin.pin;
    let wait = pin.wait_for_high(&mut token);
    let mut data = GpioStatic::new();
    let (install, step) = wait.poll(&mut data, 0xca, 0xba);
    assert_eq!(
        install,
        vec![
            Call::GpioInitCallback { callback: 0xca, handler: 0xba },
            Call::GpioAddCallback { port: 0x40, callback: 0xca },
        ]
    );
    match step {
        WaitStep::Arm(calls) => assert_eq!(
            calls,
            vec![Call::GpioPinInterruptConfigureDt { spec, mode: GpioInterrupt::LevelHigh }]
        ),
        WaitStep::Ready => panic!("ready too early"),
    }
    assert_eq!(data.pin_mask, 1 << 5);
    assert!(!wait.poll_armed(&mut data));
    let (calls, wake) = data.callback_handler(0x40, 1 << 5);
    assert_eq!(
        calls,
        vec![Call::GpioPinInterruptConfigure {
            port: 0x40,
            pin: 5,
            mode: GpioInterrupt::DisableOnly,
        }]
    );
    assert_eq!(wake, vec![5]);
    assert_eq!((data.fired, data.pin_mask), (1 << 5, 0));
    let (install, step) = wait.poll(&mut data, 0xca, 0xba);
    assert!(install.is_empty());
    assert!(matches!(step, WaitStep::Ready));
    assert_eq!(data.fired, 0);
}

#[test]
fn gpio_interrupt_between_arm_and_check() {
    let (mut pin, mut token) = pin_and_token(0);
    let wait = pin.wait_for_low(&mut token);
    let mut data = GpioStatic::new();
    match wait.poll(&mut data, 1, 2).1 {
        WaitStep::Arm(calls) => assert_eq!(
            calls,
            vec![Call::GpioPinInterruptConfigureDt {
                spec: pin.pin,
                mode: GpioInterrupt::LevelLow,
            }]
        ),
        WaitStep::Ready => panic!("ready too early"),
    }
    let _ = data.callback_handler(0x40, 1);
    assert!(wait.poll_armed(&mut data));
    assert!(!wait.poll_armed(&mut data));
}

#[test]
fn gpio_handler_takes_all_pins_in_order() {
    let mut data = GpioStatic::new();
    data.register(31);
    data.register(0);
    data.register(7);
    data.register(9);
    let (calls, wake) = data.callback_handler(0x40, 0x8000_0081);
    assert_eq!(wake, vec![0, 7, 31]);
    assert_eq!(calls.len(), 3);
    assert_eq!(data.pin_mask, 1 << 9);
    assert!(data.has_fired(7));
    assert!(!data.has_fired(7));
    assert!(data.has_fired(31));
    assert_eq!(data.fired, 1);
    let (calls, wake) = data.callback_handler(0x40, 0);
    assert!(calls.is_empty() && wake.is_empty());
    assert_eq!(data.fast_install(1, 2, 3).len(), 2);
    assert!(data.fast_install(1, 2, 3).is_empty());
}

#[test]
fn fuel_gauge_text() {
    let mut buffer = vec![4u8];
    buffer.extend_from_slice(b"Acme and more");
    let text = FuelGaugeString::try_from(&buffer).ok().unwrap();
    assert_eq!(text.as_str(), "Acme");
    assert_eq!(text.as_ref(), "Acme");
    let mut longest = vec![20u8];
    longest.extend_from_slice(b"abcdefghijklmnopqrst");
    assert_eq!(FuelGaugeString::try_from(&longest).ok().unwrap().as_str(), "abcdefghijklmnopqrst");
    assert_eq!(FuelGaugeString::try_from(&[0]).ok().unwrap().as_str(), "");
}

#[test]
fn fuel_gauge_text_errors() {
    assert_eq!(FuelGaugeString::try_from(&[]).err(), Some(Error(22)));
    assert_eq!(FuelGaugeString::try_from(&[21; 30]).err(), Some(Error(22)));
    assert_eq!(FuelGaugeString::try_from(&[3, b'a', b'b']).err(), Some(Error(22)));
    assert_eq!(FuelGaugeString::try_from(&[2, b'a', 0x80]).err(), Some(Error(138)));
    assert_eq!(FuelGaugeString::try_from(&[2, 0xc3, 0xa9]).err(), Some(Error(138)));
    assert_eq!(FuelGaugeString::try_from(&[1, b'a', 0x80]).ok().unwrap().as_str(), "a");
}

#[test]
fn fuel_gauge_buffers() {
    let mut unique = Unique::new();
    let gauge = FuelGauge::new(&mut unique, 0x50).unwrap();
    assert!(FuelGauge::new(&mut unique, 0x50).is_none());
    assert_eq!(gauge.is_ready(), Call::DeviceIsReady { device: 0x50 });
    let ask = |text, size| Call::FuelGaugeGetBufferProp { device: 0x50, text, size };
    assert_eq!(gauge.manufacturer_name(), ask(FuelGaugeBufferProp::ManufacturerName, 21));
    assert_eq!(gauge.device_name(), ask(FuelGaugeBufferProp::DeviceName, 21));
    assert_eq!(gauge.device_chemistry(), ask(FuelGaugeBufferProp::DeviceChemistry, 5));
    assert_eq!(
        FuelGauge::get_buffer_prop_done(0, &[4, b'L', b'i', b'P', b'o']).ok().unwrap().as_str(),
        "LiPo"
    );
    assert_eq!(FuelGauge::get_buffer_prop_done(-134, &[0]).err(), Some(Error(134)));
    assert_eq!(FuelGauge::get_buffer_prop_done(0, &[9]).err(), Some(Error(22)));
}

#[test]
fn fuel_gauge_properties() {
    let gauge = FuelGauge { device: 0x50 };
    let ask = |prop| Call::FuelGaugeGetProp { device: 0x50, prop };
    assert_eq!(gauge.average_current().call, ask(FuelGaugeProp::AvgCurrentUa));
    assert_eq!(gauge.cutoff().call, ask(FuelGaugeProp::Cutoff));
    assert_eq!(gauge.current().call, ask(FuelGaugeProp::CurrentUa));
    assert_eq!(gauge.cycle_count().call, ask(FuelGaugeProp::CycleCount));
    assert_eq!(gauge.connect_state().call, ask(FuelGaugeProp::ConnectState));
    assert_eq!(gauge.flags().call, ask(FuelGaugeProp::Flags));
    assert_eq!(gauge.full_charge_capacity().call, ask(FuelGaugeProp::FullChargeCapacityUah));
    assert_eq!(gauge.present_state().call, ask(FuelGaugeProp::PresentState));
    assert_eq!(gauge.remaining_capacity().call, ask(FuelGaugeProp::RemainingCapacityUah));
    assert_eq!(gauge.runtime_to_empty().call, ask(FuelGaugeProp::RuntimeToEmptyMins));
    assert_eq!(gauge.runtime_to_full().call, ask(FuelGaugeProp::RuntimeToFullMins));
    assert_eq!(gauge.sbs_mfr_access_word().call, ask(FuelGaugeProp::SbsMfrAccessWord));
    assert_eq!(
        gauge.absolute_state_of_charge().call,
        ask(FuelGaugeProp::AbsoluteStateOfChargePct)
    );
    assert_eq!(
        gauge.relative_state_of_charge().call,
        ask(FuelGaugeProp::RelativeStateOfChargePct)
    );
    assert_eq!(gauge.temperature().call, ask(FuelGaugeProp::TemperatureDk));
    assert_eq!(gauge.voltage().call, ask(FuelGaugeProp::VoltageUv));
    assert_eq!(gauge.sbs_mode().call, ask(FuelGaugeProp::SbsMode));
    assert_eq!(gauge.charge_current().call, ask(FuelGaugeProp::ChgCurrentUa));
    assert_eq!(gauge.charge_voltage().call, ask(FuelGaugeProp::ChgVoltageUv));
    assert_eq!(gauge.status().call, ask(FuelGaugeProp::FgStatus));
    assert_eq!(gauge.design_capacity().call, ask(FuelGaugeProp::DesignCap));
    assert_eq!(gauge.design_voltage().call, ask(FuelGaugeProp::DesignVoltMv));
    assert_eq!(gauge.sbs_at_rate().call, ask(FuelGaugeProp::SbsAtRate));
    assert_eq!(gauge.sbs_at_rate_ok().call, ask(FuelGaugeProp::SbsAtRateOk));
    assert_eq!(gauge.current_direction().call, ask(FuelGaugeProp::CurrentDirection));
    assert_eq!(gauge.state_of_charge_alarm().call, ask(FuelGaugeProp::StateOfChargeAlarmPct));
    assert_eq!(gauge.gpio_voltage().call, ask(FuelGaugeProp::GpioVoltageUv));
    assert_eq!(gauge.adc_mode().call, ask(FuelGaugeProp::AdcMode));
    assert_eq!(gauge.cc_config().call, ask(FuelGaugeProp::CcConfig));
    assert_eq!(gauge.state_of_health().call, ask(FuelGaugeProp::StateOfHealth));
    assert_eq!(gauge.thermistor_voltage().call, ask(FuelGaugeProp::ThermVoltageUv));
    assert_eq!(PropRead::done(0, -5i32), Ok(-5));
    assert_eq!(PropRead::done(-134, 1u8), Err(Error(134)));
}

#[test]
fn fuel_gauge_settings() {
    let gauge = FuelGauge { device: 0x50 };
    let set = |prop, value| Call::FuelGaugeSetProp { device: 0x50, prop, value };
    assert_eq!(gauge.set_sbs_mode(7), set(FuelGaugeProp::SbsMode, PropValue::U16(7)));
    assert_eq!(gauge.set_sbs_at_rate(-7), set(FuelGaugeProp::SbsAtRate, PropValue::I16(-7)));
    assert_eq!(
        gauge.set_sbs_remaining_capacity_alarm(9),
        set(FuelGaugeProp::SbsRemainingCapacityAlarm, PropValue::U16(9))
    );
    assert_eq!(
        gauge.set_sbs_remaining_time_alarm(10),
        set(FuelGaugeProp::SbsRemainingTimeAlarmMins, PropValue::U16(10))
    );
    assert_eq!(FuelGauge::set_prop_done(-22), Err(Error(22)));
}

struct Memory {
    byte: u8,
}

impl I2cTargetCallbacks for Memory {
    fn write_received(&self, val: u8) -> Result<(), Error> {
        if val == self.byte {
            Ok(())
        } else {
            Err(Error(5))
        }
    }

    fn read_requested(&self) -> Result<u8, Error> {
        Ok(self.byte)
    }

    fn read_processed(&self) -> Result<u8, Error> {
        Err(Error(11))
    }
}

#[test]
fn i2c_target_trampolines() {
    let target = I2cTargetData::new(0x33, Memory { byte: 0x5a });
    assert_eq!(target.data().byte, 0x5a);
    assert_eq!(target.write_requested_trampoline(), 0);
    assert_eq!(target.write_received_trampoline(0x5a), 0);
    assert_eq!(target.write_received_trampoline(0), -5);
    assert_eq!(target.read_requested_trampoline(), (0, Some(0x5a)));
    assert_eq!(target.read_processed_trampoline(), (-11, None));
    assert_eq!(target.stop_trampoline(), 0);
}

struct Quiet;

impl I2cTargetCallbacks for Quiet {}

#[test]
fn i2c_target_default_answers() {
    assert_eq!(Quiet.write_requested(), Ok(()));
    assert_eq!(Quiet.write_received(7), Ok(()));
    assert_eq!(Quiet.read_requested(), Ok(0));
    assert_eq!(Quiet.read_processed(), Ok(0));
    assert_eq!(Quiet.stop(), Ok(()));
}

#[test]
fn i2c_target_registration() {
    let i2c = I2c { device: 0x60 };
    let mut target = I2cTargetData::new(0x33, Memory { byte: 0 });
    assert_eq!(target.config, I2cTargetConfig { flags: 0, address: 0x33, callbacks: 0 });
    let table = I2cTargetTable {
        write_requested: 1,
        read_requested: 2,
        write_received: 3,
        read_processed: 4,
        stop: 5,
    };
    assert_eq!(
        target.register(&i2c, table, 0x70, 0x80),
        Call::I2cTargetRegister { device: 0x60, target: 0x70 }
    );
    assert_eq!(target.config.callbacks, 0x80);
    assert_eq!(target.cbs, Some(table));
    let handle = I2cTargetData::<Memory>::register_done(&i2c, 0x70, 0).unwrap();
    assert_eq!(handle, I2cTarget { device: 0x60, config: 0x70 });
    assert_eq!(
        I2cTargetData::<Memory>::register_done(&i2c, 0x70, -134),
        Err(Error(134))
    );
    assert_eq!(
        handle.unregister(),
        Call::I2cTargetUnregister { device: 0x60, target: 0x70 }
    );
    assert_eq!(I2cTarget::unregister_done(0), Ok(()));
    assert_eq!(I2cTarget::unregister_done(-22), Err(Error(22)));
}

#[test]
fn error_codes_come_back() {
    for errno in [1u32, 5, 138, i32::MAX as u32] {
        assert_eq!(to_result_void(to_code(Err(Error(errno)))), Err(Error(errno)));
    }
    assert_eq!(to_code(Ok(())), 0);
    assert_eq!(to_code(Err(Error(0x8000_0000))), i32::MIN);
    assert_eq!(to_byte_code(Ok(7)), (0, Some(7)));
    assert_eq!(to_byte_code(Err(Error(7))), (-7, None));
}
