//! Fuel gauges.
//!
//! A fuel gauge has properties, each a value of some type, and a few texts.  A property is asked
//! for with a [`PropRead`], which knows the type of its value.
use crate::device::text::{
    hstring_as_str, hstring_new, hstring_push_str, hstring_text, parse_utf8,
};
use crate::device::Unique;
use crate::error::{to_result_void, void_result_of, Error};
use crate::raw::{Addr, Call, EILSEQ, EINVAL};
use core::marker::PhantomData;
use vstd::prelude::*;

verus! {

/// A property of a fuel gauge.
#[derive(Clone, Copy, Debug, PartialEq, Eq, Structural)]
pub enum FuelGaugeProp {
    /// `FUEL_GAUGE_AVG_CURRENT_UA`
    AvgCurrentUa,
    /// `FUEL_GAUGE_CHARGE_CUTOFF`
    Cutoff,
    /// `FUEL_GAUGE_CURRENT_UA`
    CurrentUa,
    /// `FUEL_GAUGE_CYCLE_COUNT`
    CycleCount,
    /// `FUEL_GAUGE_CONNECT_STATE`
    ConnectState,
    /// `FUEL_GAUGE_FLAGS`
    Flags,
    /// `FUEL_GAUGE_FULL_CHARGE_CAPACITY_UAH`
    FullChargeCapacityUah,
    /// `FUEL_GAUGE_PRESENT_STATE`
    PresentState,
    /// `FUEL_GAUGE_REMAINING_CAPACITY_UAH`
    RemainingCapacityUah,
    /// `FUEL_GAUGE_RUNTIME_TO_EMPTY_MINS`
    RuntimeToEmptyMins,
    /// `FUEL_GAUGE_RUNTIME_TO_FULL_MINS`
    RuntimeToFullMins,
    /// `FUEL_GAUGE_SBS_MFR_ACCESS`
    SbsMfrAccessWord,
    /// `FUEL_GAUGE_ABSOLUTE_STATE_OF_CHARGE_PCT`
    AbsoluteStateOfChargePct,
    /// `FUEL_GAUGE_RELATIVE_STATE_OF_CHARGE_PCT`
    RelativeStateOfChargePct,
    /// `FUEL_GAUGE_TEMPERATURE_DK`
    TemperatureDk,
    /// `FUEL_GAUGE_VOLTAGE_UV`
    VoltageUv,
    /// `FUEL_GAUGE_SBS_MODE`
    SbsMode,
    /// `FUEL_GAUGE_CHARGE_CURRENT_UA`
    ChgCurrentUa,
    /// `FUEL_GAUGE_CHARGE_VOLTAGE_UV`
    ChgVoltageUv,
    /// `FUEL_GAUGE_STATUS`
    FgStatus,
    /// `FUEL_GAUGE_DESIGN_CAPACITY`
    DesignCap,
    /// `FUEL_GAUGE_DESIGN_VOLTAGE_MV`
    DesignVoltMv,
    /// `FUEL_GAUGE_SBS_ATRATE`
    SbsAtRate,
    /// `FUEL_GAUGE_SBS_ATRATE_TIME_TO_FULL_MINS`
    SbsAtRateTimeToFullMins,
    /// `FUEL_GAUGE_SBS_ATRATE_TIME_TO_EMPTY_MINS`
    SbsAtRateTimeToEmptyMins,
    /// `FUEL_GAUGE_SBS_ATRATE_OK`
    SbsAtRateOk,
    /// `FUEL_GAUGE_SBS_REMAINING_CAPACITY_ALARM`
    SbsRemainingCapacityAlarm,
    /// `FUEL_GAUGE_SBS_REMAINING_TIME_ALARM_MINS`
    SbsRemainingTimeAlarmMins,
    /// `FUEL_GAUGE_CURRENT_DIRECTION`
    CurrentDirection,
    /// `FUEL_GAUGE_STATE_OF_CHARGE_ALARM_PCT`
    StateOfChargeAlarmPct,
    /// `FUEL_GAUGE_LOW_VOLTAGE_ALARM_UV`
    LowVoltageAlarmUv,
    /// `FUEL_GAUGE_HIGH_VOLTAGE_ALARM_UV`
    HighVoltageAlarmUv,
    /// `FUEL_GAUGE_LOW_CURRENT_ALARM_UA`
    LowCurrentAlarmUa,
    /// `FUEL_GAUGE_HIGH_CURRENT_ALARM_UA`
    HighCurrentAlarmUa,
    /// `FUEL_GAUGE_LOW_TEMPERATURE_ALARM_DK`
    LowTemperatureAlarmDk,
    /// `FUEL_GAUGE_HIGH_TEMPERATURE_ALARM_DK`
    HighTemperatureAlarmDk,
    /// `FUEL_GAUGE_GPIO_VOLTAGE_UV`
    GpioVoltageUv,
    /// `FUEL_GAUGE_LOW_GPIO_ALARM_UV`
    LowGpioAlarmUv,
    /// `FUEL_GAUGE_HIGH_GPIO_ALARM_UV`
    HighGpioAlarmUv,
    /// `FUEL_GAUGE_ADC_MODE`
    AdcMode,
    /// `FUEL_GAUGE_CC_CONFIG`
    CcConfig,
    /// `FUEL_GAUGE_STATE_OF_HEALTH`
    StateOfHealth,
    /// `FUEL_GAUGE_THERM_VOLTAGE_UV`
    ThermVoltageUv,
}

/// A text of a fuel gauge.
#[derive(Clone, Copy, Debug, PartialEq, Eq, Structural)]
pub enum FuelGaugeBufferProp {
    /// `FUEL_GAUGE_MANUFACTURER_NAME`
    ManufacturerName,
    /// `FUEL_GAUGE_DEVICE_NAME`
    DeviceName,
    /// `FUEL_GAUGE_DEVICE_CHEMISTRY`
    DeviceChemistry,
}

/// The value of a property.
#[derive(Clone, Copy, Debug, PartialEq, Eq, Structural)]
pub enum PropValue {
    /// A signed 32-bit number.
    I32(i32),
    /// An unsigned 32-bit number.
    U32(u32),
    /// A signed 16-bit number.
    I16(i16),
    /// An unsigned 16-bit number.
    U16(u16),
    /// An unsigned 8-bit number.
    U8(u8),
    /// A truth value.
    Bool(bool),
}

/// The longest name of a manufacturer.
pub const FUEL_GAUGE_MANUFACTURER_NAME_SIZE: usize = 20;

/// The longest name of a device.
pub const FUEL_GAUGE_DEVICE_NAME_SIZE: usize = 20;

/// The longest name of a chemistry.
pub const FUEL_GAUGE_DEVICE_CHEMISTRY_SIZE: usize = 4;

/// The longest text.
pub const FUEL_GAUGE_STRING_MAX_SIZE: usize = 20;

/// A text of a fuel gauge.
pub struct FuelGaugeString {
    /// The characters.
    pub inner: heapless::String<20>,
}

/// The text in a buffer: its first byte is the length, and that many bytes of ASCII follow.
pub open spec fn parse(value: Seq<u8>) -> Result<Seq<char>, Error> {
    if value.len() == 0 || value[0] > FUEL_GAUGE_STRING_MAX_SIZE || value.len() < 1 + value[0] {
        Err(Error(EINVAL))
    } else if exists|i: int| 1 <= i < 1 + value[0] && #[trigger] value[i] >= 128 {
        Err(Error(EILSEQ))
    } else {
        Ok(Seq::new(value[0] as nat, |i: int| value[1 + i] as char))
    }
}

impl FuelGaugeString {
    /// The characters.
    pub open spec fn text(self) -> Seq<char> {
        hstring_text(self.inner)
    }

    /// The text.
    pub fn as_str(&self) -> (r: &str)
        ensures
            r@ == self.text(),
    {
        hstring_as_str(&self.inner)
    }

    /// The text.
    pub fn as_ref(&self) -> (r: &str)
        ensures
            r@ == self.text(),
    {
        hstring_as_str(&self.inner)
    }

    /// The text in a buffer.
    pub fn try_from(value: &[u8]) -> (r: Result<FuelGaugeString, Error>)
        ensures
            match parse(value@) {
                Ok(text) => r matches Ok(s) && s.text() == text,
                Err(e) => r matches Err(f) && f == e,
            },
    {
        if value.len() == 0 {
            return Err(Error(EINVAL));
        }
        let len: usize = value[0] as usize;
        if len > FUEL_GAUGE_STRING_MAX_SIZE {
            return Err(Error(EINVAL));
        }
        if value.len() < 1 + len {
            return Err(Error(EINVAL));
        }
        let mut i: usize = 1;
        while i < 1 + len
            invariant
                1 <= i <= 1 + len <= value@.len(),
                len == value@[0],
                len <= FUEL_GAUGE_STRING_MAX_SIZE,
                forall|j: int| 1 <= j < i ==> #[trigger] value@[j] < 128,
            decreases 1 + len - i,
        {
            if value[i] >= 128 {
                assert(value@[i as int] >= 128);
                return Err(Error(EILSEQ));
            }
            i = i + 1;
        }
        let slice = vstd::slice::slice_subrange(value, 1, 1 + len);
        let ghost chars = Seq::new(len as nat, |i: int| value@[1 + i] as char);
        proof {
            lemma_ascii_bytes(slice@, chars);
        }
        match parse_utf8(slice) {
            Some(text) => {
                proof {
                    vstd::utf8::encode_utf8_decode_utf8(text@);
                    vstd::utf8::encode_utf8_decode_utf8(chars);
                }
                let mut inner = hstring_new();
                if !hstring_push_str(&mut inner, text) {
                    return Err(Error(EINVAL));
                }
                assert(hstring_text(inner) =~= chars);
                Ok(FuelGaugeString { inner })
            },
            None => Err(Error(EILSEQ)),
        }
    }
}

proof fn lemma_ascii_bytes(bytes: Seq<u8>, chars: Seq<char>)
    requires
        bytes.len() == chars.len(),
        forall|i: int| 0 <= i < bytes.len() ==> (#[trigger] bytes[i]) < 128 && chars[i]
            == bytes[i] as char,
    ensures
        vstd::utf8::encode_utf8(chars) == bytes,
        vstd::utf8::valid_utf8(bytes),
        vstd::utf8::encode_utf8(Seq::<char>::empty()).len() == 0,
{
    assert forall|i: int| 0 <= i < chars.len() implies '\0' <= #[trigger] chars[i] <= '\u{7f}' by {
        assert(bytes[i] < 128);
    }
    assert(vstd::utf8::is_ascii_chars(chars));
    vstd::utf8::is_ascii_chars_encode_utf8(chars);
    assert(vstd::utf8::encode_utf8(chars) =~= bytes) by {
        assert forall|i: int| 0 <= i < bytes.len() implies vstd::utf8::encode_utf8(chars)[i]
            == bytes[i] by {
            assert(chars[i] == bytes[i] as char);
        }
    }
    vstd::utf8::encode_utf8_valid_utf8(chars);
}

/// A fuel gauge.
#[derive(Clone, Copy, Debug, PartialEq, Eq, Structural)]
pub struct FuelGauge {
    /// The device.
    pub device: Addr,
}

/// A question for a property, whose value has the type `T`.
pub struct PropRead<T> {
    /// The call that asks.
    pub call: Call,
    /// The type of the value.
    pub value: PhantomData<T>,
}

impl<T> PropRead<T> {
    /// The value of the property, from the kernel's answer.
    pub fn done(code: i32, value: T) -> (r: Result<T, Error>)
        ensures
            r == (match void_result_of(code) {
                Ok(()) => Ok::<T, Error>(value),
                Err(e) => Err(e),
            }),
    {
        match to_result_void(code) {
            Ok(()) => Ok(value),
            Err(e) => Err(e),
        }
    }
}

impl FuelGauge {
    /// The gauge at `device`, the first time.
    pub fn new(unique: &mut Unique, device: Addr) -> (r: Option<FuelGauge>)
        ensures
            r == (if old(unique).0 == 0 {
                Some(FuelGauge { device })
            } else {
                None
            }),
            *final(unique) == old(unique).after_once(),
    {
        if !unique.once() {
            None
        } else {
            Some(FuelGauge { device })
        }
    }

    /// Ask for a property.
    pub fn get_prop<T>(&self, prop: FuelGaugeProp) -> (r: PropRead<T>)
        ensures
            r.call == (Call::FuelGaugeGetProp { device: self.device, prop }),
    {
        PropRead {
            call: Call::FuelGaugeGetProp { device: self.device, prop },
            value: PhantomData,
        }
    }

    /// Set a property.
    pub fn set_prop(&self, prop: FuelGaugeProp, value: PropValue) -> (call: Call)
        ensures
            call == (Call::FuelGaugeSetProp { device: self.device, prop, value }),
    {
        Call::FuelGaugeSetProp { device: self.device, prop, value }
    }

    /// Whether a property was set.
    pub fn set_prop_done(code: i32) -> (r: Result<(), Error>)
        ensures
            r == void_result_of(code),
    {
        to_result_void(code)
    }

    /// Ask for a text, in a buffer of `size` bytes.
    pub fn get_buffer_prop(&self, prop: FuelGaugeBufferProp, size: usize) -> (call: Call)
        ensures
            call == (Call::FuelGaugeGetBufferProp { device: self.device, text: prop, size }),
    {
        Call::FuelGaugeGetBufferProp { device: self.device, text: prop, size }
    }

    /// The text in the buffer, from the kernel's answer.
    pub fn get_buffer_prop_done(code: i32, buffer: &[u8]) -> (r: Result<FuelGaugeString, Error>)
        ensures
            match void_result_of(code) {
                Err(e) => r matches Err(f) && f == e,
                Ok(()) => match parse(buffer@) {
                    Ok(text) => r matches Ok(s) && s.text() == text,
                    Err(e) => r matches Err(f) && f == e,
                },
            },
    {
        match to_result_void(code) {
            Ok(()) => FuelGaugeString::try_from(buffer),
            Err(e) => Err(e),
        }
    }

    /// Ask whether the device is ready.
    pub fn is_ready(&self) -> (call: Call)
        ensures
            call == (Call::DeviceIsReady { device: self.device }),
    {
        Call::DeviceIsReady { device: self.device }
    }

    /// Ask for the name of the manufacturer.
    pub fn manufacturer_name(&self) -> (call: Call)
        ensures
            call == (Call::FuelGaugeGetBufferProp {
                device: self.device,
                text: FuelGaugeBufferProp::ManufacturerName,
                size: (FUEL_GAUGE_MANUFACTURER_NAME_SIZE + 1) as usize,
            }),
    {
        self.get_buffer_prop(
            FuelGaugeBufferProp::ManufacturerName,
            FUEL_GAUGE_MANUFACTURER_NAME_SIZE + 1,
        )
    }

    /// Ask for the name of the device.
    pub fn device_name(&self) -> (call: Call)
        ensures
            call == (Call::FuelGaugeGetBufferProp {
                device: self.device,
                text: FuelGaugeBufferProp::DeviceName,
                size: (FUEL_GAUGE_DEVICE_NAME_SIZE + 1) as usize,
            }),
    {
        self.get_buffer_prop(FuelGaugeBufferProp::DeviceName, FUEL_GAUGE_DEVICE_NAME_SIZE + 1)
    }

    /// Ask for the chemistry of the battery.
    pub fn device_chemistry(&self) -> (call: Call)
        ensures
            call == (Call::FuelGaugeGetBufferProp {
                device: self.device,
                text: FuelGaugeBufferProp::DeviceChemistry,
                size: (FUEL_GAUGE_DEVICE_CHEMISTRY_SIZE + 1) as usize,
            }),
    {
        self.get_buffer_prop(
            FuelGaugeBufferProp::DeviceChemistry,
            FUEL_GAUGE_DEVICE_CHEMISTRY_SIZE + 1,
        )
    }

    /// Ask for the average current, in microamperes.
    pub fn average_current(&self) -> (r: PropRead<i32>)
        ensures
            r.call == (Call::FuelGaugeGetProp {
                device: self.device,
                prop: FuelGaugeProp::AvgCurrentUa,
            }),
    {
        self.get_prop(FuelGaugeProp::AvgCurrentUa)
    }

    /// Ask for whether the battery is cut off from charging.
    pub fn cutoff(&self) -> (r: PropRead<bool>)
        ensures
            r.call == (Call::FuelGaugeGetProp {
                device: self.device,
                prop: FuelGaugeProp::Cutoff,
            }),
    {
        self.get_prop(FuelGaugeProp::Cutoff)
    }

    /// Ask for the current in microamperes, which is negative while discharging.
    pub fn current(&self) -> (r: PropRead<i32>)
        ensures
            r.call == (Call::FuelGaugeGetProp {
                device: self.device,
                prop: FuelGaugeProp::CurrentUa,
            }),
    {
        self.get_prop(FuelGaugeProp::CurrentUa)
    }

    /// Ask for the number of charge cycles.
    pub fn cycle_count(&self) -> (r: PropRead<u32>)
        ensures
            r.call == (Call::FuelGaugeGetProp {
                device: self.device,
                prop: FuelGaugeProp::CycleCount,
            }),
    {
        self.get_prop(FuelGaugeProp::CycleCount)
    }

    /// Ask for the connect state.
    pub fn connect_state(&self) -> (r: PropRead<u32>)
        ensures
            r.call == (Call::FuelGaugeGetProp {
                device: self.device,
                prop: FuelGaugeProp::ConnectState,
            }),
    {
        self.get_prop(FuelGaugeProp::ConnectState)
    }

    /// Ask for the general flags.
    pub fn flags(&self) -> (r: PropRead<u32>)
        ensures
            r.call == (Call::FuelGaugeGetProp {
                device: self.device,
                prop: FuelGaugeProp::Flags,
            }),
    {
        self.get_prop(FuelGaugeProp::Flags)
    }

    /// Ask for the capacity when fully charged, in microampere hours.
    pub fn full_charge_capacity(&self) -> (r: PropRead<u32>)
        ensures
            r.call == (Call::FuelGaugeGetProp {
                device: self.device,
                prop: FuelGaugeProp::FullChargeCapacityUah,
            }),
    {
        self.get_prop(FuelGaugeProp::FullChargeCapacityUah)
    }

    /// Ask for whether a battery is present.
    pub fn present_state(&self) -> (r: PropRead<bool>)
        ensures
            r.call == (Call::FuelGaugeGetProp {
                device: self.device,
                prop: FuelGaugeProp::PresentState,
            }),
    {
        self.get_prop(FuelGaugeProp::PresentState)
    }

    /// Ask for the remaining capacity, in microampere hours.
    pub fn remaining_capacity(&self) -> (r: PropRead<u32>)
        ensures
            r.call == (Call::FuelGaugeGetProp {
                device: self.device,
                prop: FuelGaugeProp::RemainingCapacityUah,
            }),
    {
        self.get_prop(FuelGaugeProp::RemainingCapacityUah)
    }

    /// Ask for the remaining run time, in minutes.
    pub fn runtime_to_empty(&self) -> (r: PropRead<u32>)
        ensures
            r.call == (Call::FuelGaugeGetProp {
                device: self.device,
                prop: FuelGaugeProp::RuntimeToEmptyMins,
            }),
    {
        self.get_prop(FuelGaugeProp::RuntimeToEmptyMins)
    }

    /// Ask for the remaining time until the battery is full, in minutes.
    pub fn runtime_to_full(&self) -> (r: PropRead<u32>)
        ensures
            r.call == (Call::FuelGaugeGetProp {
                device: self.device,
                prop: FuelGaugeProp::RuntimeToFullMins,
            }),
    {
        self.get_prop(FuelGaugeProp::RuntimeToFullMins)
    }

    /// Ask for the manufacturer access word.
    pub fn sbs_mfr_access_word(&self) -> (r: PropRead<u16>)
        ensures
            r.call == (Call::FuelGaugeGetProp {
                device: self.device,
                prop: FuelGaugeProp::SbsMfrAccessWord,
            }),
    {
        self.get_prop(FuelGaugeProp::SbsMfrAccessWord)
    }

    /// Ask for the charge, in percent of the design capacity.
    pub fn absolute_state_of_charge(&self) -> (r: PropRead<u8>)
        ensures
            r.call == (Call::FuelGaugeGetProp {
                device: self.device,
                prop: FuelGaugeProp::AbsoluteStateOfChargePct,
            }),
    {
        self.get_prop(FuelGaugeProp::AbsoluteStateOfChargePct)
    }

    /// Ask for the charge, in percent of the full charge capacity.
    pub fn relative_state_of_charge(&self) -> (r: PropRead<u8>)
        ensures
            r.call == (Call::FuelGaugeGetProp {
                device: self.device,
                prop: FuelGaugeProp::RelativeStateOfChargePct,
            }),
    {
        self.get_prop(FuelGaugeProp::RelativeStateOfChargePct)
    }

    /// Ask for the temperature, in tenths of a kelvin.
    pub fn temperature(&self) -> (r: PropRead<u16>)
        ensures
            r.call == (Call::FuelGaugeGetProp {
                device: self.device,
                prop: FuelGaugeProp::TemperatureDk,
            }),
    {
        self.get_prop(FuelGaugeProp::TemperatureDk)
    }

    /// Ask for the voltage, in microvolts.
    pub fn voltage(&self) -> (r: PropRead<i32>)
        ensures
            r.call == (Call::FuelGaugeGetProp {
                device: self.device,
                prop: FuelGaugeProp::VoltageUv,
            }),
    {
        self.get_prop(FuelGaugeProp::VoltageUv)
    }

    /// Ask for the battery mode.
    pub fn sbs_mode(&self) -> (r: PropRead<u16>)
        ensures
            r.call == (Call::FuelGaugeGetProp {
                device: self.device,
                prop: FuelGaugeProp::SbsMode,
            }),
    {
        self.get_prop(FuelGaugeProp::SbsMode)
    }

    /// Set the battery mode.
    pub fn set_sbs_mode(&self, value: u16) -> (call: Call)
        ensures
            call == (Call::FuelGaugeSetProp {
                device: self.device,
                prop: FuelGaugeProp::SbsMode,
                value: PropValue::U16(value),
            }),
    {
        self.set_prop(FuelGaugeProp::SbsMode, PropValue::U16(value))
    }

    /// Ask for the largest charging current that the battery wants, in microamperes.
    pub fn charge_current(&self) -> (r: PropRead<u32>)
        ensures
            r.call == (Call::FuelGaugeGetProp {
                device: self.device,
                prop: FuelGaugeProp::ChgCurrentUa,
            }),
    {
        self.get_prop(FuelGaugeProp::ChgCurrentUa)
    }

    /// Ask for the largest charging voltage that the battery wants, in microvolts.
    pub fn charge_voltage(&self) -> (r: PropRead<u32>)
        ensures
            r.call == (Call::FuelGaugeGetProp {
                device: self.device,
                prop: FuelGaugeProp::ChgVoltageUv,
            }),
    {
        self.get_prop(FuelGaugeProp::ChgVoltageUv)
    }

    /// Ask for the alarm, status and error codes.
    pub fn status(&self) -> (r: PropRead<u16>)
        ensures
            r.call == (Call::FuelGaugeGetProp {
                device: self.device,
                prop: FuelGaugeProp::FgStatus,
            }),
    {
        self.get_prop(FuelGaugeProp::FgStatus)
    }

    /// Ask for the design capacity.
    pub fn design_capacity(&self) -> (r: PropRead<u16>)
        ensures
            r.call == (Call::FuelGaugeGetProp {
                device: self.device,
                prop: FuelGaugeProp::DesignCap,
            }),
    {
        self.get_prop(FuelGaugeProp::DesignCap)
    }

    /// Ask for the design voltage, in millivolts.
    pub fn design_voltage(&self) -> (r: PropRead<u16>)
        ensures
            r.call == (Call::FuelGaugeGetProp {
                device: self.device,
                prop: FuelGaugeProp::DesignVoltMv,
            }),
    {
        self.get_prop(FuelGaugeProp::DesignVoltMv)
    }

    /// Ask for the rate of the rate estimates.
    pub fn sbs_at_rate(&self) -> (r: PropRead<i16>)
        ensures
            r.call == (Call::FuelGaugeGetProp {
                device: self.device,
                prop: FuelGaugeProp::SbsAtRate,
            }),
    {
        self.get_prop(FuelGaugeProp::SbsAtRate)
    }

    /// Set the rate of the rate estimates.
    pub fn set_sbs_at_rate(&self, value: i16) -> (call: Call)
        ensures
            call == (Call::FuelGaugeSetProp {
                device: self.device,
                prop: FuelGaugeProp::SbsAtRate,
                value: PropValue::I16(value),
            }),
    {
        self.set_prop(FuelGaugeProp::SbsAtRate, PropValue::I16(value))
    }

    /// Ask for the time to full at that rate, in minutes.
    pub fn sbs_at_rate_time_to_full(&self) -> (r: PropRead<u16>)
        ensures
            r.call == (Call::FuelGaugeGetProp {
                device: self.device,
                prop: FuelGaugeProp::SbsAtRateTimeToFullMins,
            }),
    {
        self.get_prop(FuelGaugeProp::SbsAtRateTimeToFullMins)
    }

    /// Ask for the time to empty at that rate, in minutes.
    pub fn sbs_at_rate_time_to_empty(&self) -> (r: PropRead<u16>)
        ensures
            r.call == (Call::FuelGaugeGetProp {
                device: self.device,
                prop: FuelGaugeProp::SbsAtRateTimeToEmptyMins,
            }),
    {
        self.get_prop(FuelGaugeProp::SbsAtRateTimeToEmptyMins)
    }

    /// Ask for whether the battery can deliver that rate.
    pub fn sbs_at_rate_ok(&self) -> (r: PropRead<bool>)
        ensures
            r.call == (Call::FuelGaugeGetProp {
                device: self.device,
                prop: FuelGaugeProp::SbsAtRateOk,
            }),
    {
        self.get_prop(FuelGaugeProp::SbsAtRateOk)
    }

    /// Ask for the capacity below which there is an alarm.
    pub fn sbs_remaining_capacity_alarm(&self) -> (r: PropRead<u16>)
        ensures
            r.call == (Call::FuelGaugeGetProp {
                device: self.device,
                prop: FuelGaugeProp::SbsRemainingCapacityAlarm,
            }),
    {
        self.get_prop(FuelGaugeProp::SbsRemainingCapacityAlarm)
    }

    /// Set the capacity below which there is an alarm.
    pub fn set_sbs_remaining_capacity_alarm(&self, value: u16) -> (call: Call)
        ensures
            call == (Call::FuelGaugeSetProp {
                device: self.device,
                prop: FuelGaugeProp::SbsRemainingCapacityAlarm,
                value: PropValue::U16(value),
            }),
    {
        self.set_prop(FuelGaugeProp::SbsRemainingCapacityAlarm, PropValue::U16(value))
    }

    /// Ask for the run time below which there is an alarm, in minutes.
    pub fn sbs_remaining_time_alarm(&self) -> (r: PropRead<u16>)
        ensures
            r.call == (Call::FuelGaugeGetProp {
                device: self.device,
                prop: FuelGaugeProp::SbsRemainingTimeAlarmMins,
            }),
    {
        self.get_prop(FuelGaugeProp::SbsRemainingTimeAlarmMins)
    }

    /// Set the run time below which there is an alarm, in minutes.
    pub fn set_sbs_remaining_time_alarm(&self, value: u16) -> (call: Call)
        ensures
            call == (Call::FuelGaugeSetProp {
                device: self.device,
                prop: FuelGaugeProp::SbsRemainingTimeAlarmMins,
                value: PropValue::U16(value),
            }),
    {
        self.set_prop(FuelGaugeProp::SbsRemainingTimeAlarmMins, PropValue::U16(value))
    }

    /// Ask for the direction of the current.
    pub fn current_direction(&self) -> (r: PropRead<u16>)
        ensures
            r.call == (Call::FuelGaugeGetProp {
                device: self.device,
                prop: FuelGaugeProp::CurrentDirection,
            }),
    {
        self.get_prop(FuelGaugeProp::CurrentDirection)
    }

    /// Ask for the charge below which there is an alarm, in percent.
    pub fn state_of_charge_alarm(&self) -> (r: PropRead<u8>)
        ensures
            r.call == (Call::FuelGaugeGetProp {
                device: self.device,
                prop: FuelGaugeProp::StateOfChargeAlarmPct,
            }),
    {
        self.get_prop(FuelGaugeProp::StateOfChargeAlarmPct)
    }

    /// Ask for the voltage below which there is an alarm, in microvolts.
    pub fn low_voltage_alarm(&self) -> (r: PropRead<u32>)
        ensures
            r.call == (Call::FuelGaugeGetProp {
                device: self.device,
                prop: FuelGaugeProp::LowVoltageAlarmUv,
            }),
    {
        self.get_prop(FuelGaugeProp::LowVoltageAlarmUv)
    }

    /// Ask for the voltage above which there is an alarm, in microvolts.
    pub fn high_voltage_alarm(&self) -> (r: PropRead<u32>)
        ensures
            r.call == (Call::FuelGaugeGetProp {
                device: self.device,
                prop: FuelGaugeProp::HighVoltageAlarmUv,
            }),
    {
        self.get_prop(FuelGaugeProp::HighVoltageAlarmUv)
    }

    /// Ask for the current below which there is an alarm, in microamperes.
    pub fn low_current_alarm(&self) -> (r: PropRead<i32>)
        ensures
            r.call == (Call::FuelGaugeGetProp {
                device: self.device,
                prop: FuelGaugeProp::LowCurrentAlarmUa,
            }),
    {
        self.get_prop(FuelGaugeProp::LowCurrentAlarmUa)
    }

    /// Ask for the current above which there is an alarm, in microamperes.
    pub fn high_current_alarm(&self) -> (r: PropRead<i32>)
        ensures
            r.call == (Call::FuelGaugeGetProp {
                device: self.device,
                prop: FuelGaugeProp::HighCurrentAlarmUa,
            }),
    {
        self.get_prop(FuelGaugeProp::HighCurrentAlarmUa)
    }

    /// Ask for the temperature below which there is an alarm, in tenths of a kelvin.
    pub fn low_temperature_alarm(&self) -> (r: PropRead<u16>)
        ensures
            r.call == (Call::FuelGaugeGetProp {
                device: self.device,
                prop: FuelGaugeProp::LowTemperatureAlarmDk,
            }),
    {
        self.get_prop(FuelGaugeProp::LowTemperatureAlarmDk)
    }

    /// Ask for the temperature above which there is an alarm, in tenths of a kelvin.
    pub fn high_temperature_alarm(&self) -> (r: PropRead<u16>)
        ensures
            r.call == (Call::FuelGaugeGetProp {
                device: self.device,
                prop: FuelGaugeProp::HighTemperatureAlarmDk,
            }),
    {
        self.get_prop(FuelGaugeProp::HighTemperatureAlarmDk)
    }

    /// Ask for the voltage of the gpio, in microvolts.
    pub fn gpio_voltage(&self) -> (r: PropRead<i32>)
        ensures
            r.call == (Call::FuelGaugeGetProp {
                device: self.device,
                prop: FuelGaugeProp::GpioVoltageUv,
            }),
    {
        self.get_prop(FuelGaugeProp::GpioVoltageUv)
    }

    /// Ask for the gpio voltage below which there is an alarm, in microvolts.
    pub fn low_gpio_alarm(&self) -> (r: PropRead<i32>)
        ensures
            r.call == (Call::FuelGaugeGetProp {
                device: self.device,
                prop: FuelGaugeProp::LowGpioAlarmUv,
            }),
    {
        self.get_prop(FuelGaugeProp::LowGpioAlarmUv)
    }

    /// Ask for the gpio voltage above which there is an alarm, in microvolts.
    pub fn high_gpio_alarm(&self) -> (r: PropRead<i32>)
        ensures
            r.call == (Call::FuelGaugeGetProp {
                device: self.device,
                prop: FuelGaugeProp::HighGpioAlarmUv,
            }),
    {
        self.get_prop(FuelGaugeProp::HighGpioAlarmUv)
    }

    /// Ask for the mode of the converter.
    pub fn adc_mode(&self) -> (r: PropRead<u8>)
        ensures
            r.call == (Call::FuelGaugeGetProp {
                device: self.device,
                prop: FuelGaugeProp::AdcMode,
            }),
    {
        self.get_prop(FuelGaugeProp::AdcMode)
    }

    /// Ask for the configuration of the coulomb counter.
    pub fn cc_config(&self) -> (r: PropRead<u8>)
        ensures
            r.call == (Call::FuelGaugeGetProp {
                device: self.device,
                prop: FuelGaugeProp::CcConfig,
            }),
    {
        self.get_prop(FuelGaugeProp::CcConfig)
    }

    /// Ask for the state of health, in percent.
    pub fn state_of_health(&self) -> (r: PropRead<u8>)
        ensures
            r.call == (Call::FuelGaugeGetProp {
                device: self.device,
                prop: FuelGaugeProp::StateOfHealth,
            }),
    {
        self.get_prop(FuelGaugeProp::StateOfHealth)
    }

    /// Ask for the voltage of the thermistor, in microvolts.
    pub fn thermistor_voltage(&self) -> (r: PropRead<u32>)
        ensures
            r.call == (Call::FuelGaugeGetProp {
                device: self.device,
                prop: FuelGaugeProp::ThermVoltageUv,
            }),
    {
        self.get_prop(FuelGaugeProp::ThermVoltageUv)
    }
}

/// A text that is put into a buffer as its length and its bytes is what is read from the buffer,
/// whatever follows.
pub proof fn law_text_round_trip(text: Seq<u8>, rest: Seq<u8>)
    requires
        text.len() <= FUEL_GAUGE_STRING_MAX_SIZE,
        forall|i: int| 0 <= i < text.len() ==> (#[trigger] text[i]) < 128,
    ensures
        parse(seq![text.len() as u8] + text + rest) == Ok::<Seq<char>, Error>(
            text.map_values(|b: u8| b as char),
        ),
{
    let value = seq![text.len() as u8] + text + rest;
    assert forall|i: int| 1 <= i < 1 + value[0] implies #[trigger] value[i] < 128 by {
        assert(value[i] == text[i - 1]);
    }
    assert(Seq::new(value[0] as nat, |i: int| value[1 + i] as char) =~= text.map_values(
        |b: u8| b as char,
    ));
}

/// A text in a buffer has the length in its first byte, and the characters of the bytes behind it,
/// one for one.  It is refused as malformed where it is longer than 20 bytes or than the buffer,
/// and as not ASCII where one of its bytes is 128 or more.
pub proof fn law_text_is_read(value: &[u8], r: Result<FuelGaugeString, Error>, code: i32)
    requires
        call_ensures(FuelGaugeString::try_from, (value,), r) || (code >= 0 && call_ensures(
            FuelGauge::get_buffer_prop_done,
            (code, value),
            r,
        )),
    ensures
        r matches Ok(s) ==> {
            &&& value@.len() > 0
            &&& s.text().len() == value@[0]
            &&& value@[0] <= 20
            &&& value@.len() > value@[0]
            &&& forall|i: int|
                0 <= i < value@[0] ==> (#[trigger] s.text()[i]) as int == value@[1 + i]
                    && value@[1 + i] < 128
        },
        r matches Err(e) ==> {
            ||| e.0 == 22 && (value@.len() == 0 || value@[0] > 20 || value@.len() <= value@[0])
            ||| e.0 == 138 && value@.len() > value@[0] && value@[0] <= 20 && exists|i: int|
                1 <= i <= value@[0] && #[trigger] value@[i] >= 128
        },
{
}

/// Where the kernel fails to tell a text, with a negative number, that number made positive is the
/// error, whatever the buffer holds.
pub proof fn law_text_is_not_told(code: i32, value: &[u8], r: Result<FuelGaugeString, Error>)
    requires
        code < 0,
        call_ensures(FuelGauge::get_buffer_prop_done, (code, value), r),
    ensures
        r matches Err(e) && e.0 == -code,
{
}

/// What the kernel tells is the value of a property, where it does not fail; and whether a property
/// was set follows from the kernel's answer alone.
pub proof fn law_property_is_told<T>(
    code: i32,
    value: T,
    r: Result<T, Error>,
    set: Result<(), Error>,
)
    requires
        call_ensures(PropRead::<T>::done, (code, value), r),
        call_ensures(FuelGauge::set_prop_done, (code,), set),
    ensures
        code >= 0 ==> r == Ok::<T, Error>(value) && set is Ok,
        code < 0 ==> (r matches Err(e) && e.0 == -code) && (set matches Err(f) && f.0 == -code),
{
}

/// The names are asked for with room for their length, and each with its own property.
pub proof fn law_names_are_asked_for(
    gauge: FuelGauge,
    manufacturer: Call,
    device: Call,
    chemistry: Call,
)
    requires
        call_ensures(FuelGauge::manufacturer_name, (&gauge,), manufacturer),
        call_ensures(FuelGauge::device_name, (&gauge,), device),
        call_ensures(FuelGauge::device_chemistry, (&gauge,), chemistry),
    ensures
        manufacturer matches Call::FuelGaugeGetBufferProp { device: at, text, size } && at
            == gauge.device && text is ManufacturerName && size == 21,
        device matches Call::FuelGaugeGetBufferProp { device: at, text, size } && at
            == gauge.device && text is DeviceName && size == 21,
        chemistry matches Call::FuelGaugeGetBufferProp { device: at, text, size } && at
            == gauge.device && text is DeviceChemistry && size == 5,
{
}

} // verus!
