//! Battery state: charging indication and voltage, with change detection.
//!
//! The charge-indicator line and the raw ADC code are read at the edge each
//! tick and handed in as plain values; this module converts the raw code to
//! a voltage in 0.1 V units through the fixed reference-voltage/divider
//! scale and reports whether anything changed, so the renderer redraws only
//! on change. A negative ADC code is a read fault and degrades to a voltage
//! of zero rather than aborting, since the battery display is non-critical.

use vstd::prelude::*;

verus! {

/// Voltage in 0.1 V units for a valid (non-negative) raw ADC code, under
/// the fixed scale: twice the code in millivolts over the 14-bit range at
/// the 3.3 V reference, then reduced to 0.1 V steps.
pub open spec fn spec_decivolts(raw: i16) -> int {
    ((raw * 2000) / 4965) / 100
}

/// The conversion result: a fault for a negative code, the scaled voltage
/// otherwise.
pub open spec fn spec_convert(raw: i16) -> Option<u8> {
    if raw < 0 {
        None
    } else {
        Some(spec_decivolts(raw) as u8)
    }
}

/// The voltage stored after a read: a fault degrades to zero.
pub open spec fn spec_stored_voltage(raw: i16) -> u8 {
    match spec_convert(raw) {
        Some(v) => v,
        None => 0,
    }
}

/// Stored battery state, updated by the periodic monitor task and read by
/// the rendering task.
pub struct BatteryStatus {
    /// Whether the charger is connected.
    pub charging: bool,
    /// Battery voltage in 0.1 V units.
    pub voltage: u8,
    /// Battery charge in percent; kept as a fixed placeholder until a
    /// charge model exists, exposed alongside the measured voltage.
    pub percent: u8,
}

impl BatteryStatus {
    /// The placeholder charge reading, in percent.
    pub fn new() -> (b: BatteryStatus)
        ensures
            b.charging == false,
            b.voltage == 0,
            b.percent == 37,
    {
        BatteryStatus { charging: false, voltage: 0, percent: 37 }
    }

    /// Initialize from the first readings: the charge-indicator level and
    /// the first raw ADC code.
    pub fn init(charging: bool, raw_voltage: i16) -> (b: BatteryStatus)
        ensures
            b.charging == charging,
            b.voltage == spec_stored_voltage(raw_voltage),
            b.percent == 37,
    {
        let voltage = match Self::convert_adc_measurement(raw_voltage) {
            Some(v) => v,
            None => 0,
        };
        BatteryStatus { charging, voltage, percent: 37 }
    }

    /// Convert a raw ADC code into a battery voltage in 0.1 V units; a
    /// negative code is a read fault.
    pub fn convert_adc_measurement(raw_measurement: i16) -> (r: Option<u8>)
        ensures
            r == spec_convert(raw_measurement),
    {
        if raw_measurement < 0 {
            return None;
        }
        let adc_val: u32 = raw_measurement as u32;
        let battery_voltage: u32 = (adc_val * 2000) / 4965;
        proof {
            assert(adc_val as int * 2000 <= 32767 * 2000) by (nonlinear_arith)
                requires
                    adc_val <= 32767,
            ;
            vstd::arithmetic::div_mod::lemma_div_is_ordered(
                adc_val as int * 2000,
                32767int * 2000,
                4965int,
            );
            vstd::arithmetic::div_mod::lemma_div_is_ordered(
                (adc_val as int * 2000) / 4965int,
                13199int,
                100int,
            );
        }
        Some((battery_voltage / 100) as u8)
    }

    /// Whether the watch is currently charging, as stored at the last
    /// update.
    pub fn is_charging(&self) -> (r: bool)
        ensures
            r == self.charging,
    {
        self.charging
    }

    /// The stored battery charge in percent, clamped to 100.
    pub fn percent(&self) -> (r: u8)
        ensures
            r == (if self.percent > 100 { 100 } else { self.percent as int }),
    {
        if self.percent > 100 {
            100
        } else {
            self.percent
        }
    }

    /// The stored battery voltage in 0.1 V units.
    pub fn voltage(&self) -> (r: u8)
        ensures
            r == self.voltage,
    {
        self.voltage
    }

    /// Take fresh readings and store them. Returns whether the stored
    /// charging state or voltage changed, so that the display is redrawn
    /// only on change.
    pub fn update(&mut self, charging: bool, raw_voltage: i16) -> (changed: bool)
        ensures
            final(self).charging == charging,
            final(self).voltage == spec_stored_voltage(raw_voltage),
            final(self).percent == old(self).percent,
            changed == (old(self).charging != charging || old(self).voltage
                != spec_stored_voltage(raw_voltage)),
    {
        let mut changed = false;
        if charging != self.charging {
            self.charging = charging;
            changed = true;
        }
        let voltage = match Self::convert_adc_measurement(raw_voltage) {
            Some(v) => v,
            None => 0,
        };
        if voltage != self.voltage {
            self.voltage = voltage;
            changed = true;
        }
        changed
    }
}

} // verus!
