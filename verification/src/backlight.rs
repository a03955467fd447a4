//! Backlight brightness control.
//!
//! The backlight is powered through three active-low lines, each switching a
//! FET with a different resistor, so the brightness level is an integer from
//! 0 (off) to 7 (maximum) and each bit of the level maps to one line being
//! driven low. Values above 7 are clamped on write; stepping below 0 is a
//! caller error ruled out by precondition. The derived line pattern is kept
//! here as plain values; driving the pins happens at the edge.

use vstd::prelude::*;

verus! {

/// Highest brightness level.
pub const MAX_BRIGHTNESS: u8 = 7;

/// Whether the line for bit `bit` of level `brightness` is driven low (on).
pub open spec fn spec_line_on(brightness: u8, bit: u8) -> bool {
    brightness & bit != 0
}

/// Backlight state: the current level and the three derived line states.
pub struct Backlight {
    /// The current brightness level (0 to 7).
    pub brightness: u8,
    /// Low-power line (bit 0) driven low.
    pub low_on: bool,
    /// Mid-power line (bit 1) driven low.
    pub mid_on: bool,
    /// High-power line (bit 2) driven low.
    pub high_on: bool,
}

impl Backlight {
    /// The level is in range and the three lines show exactly its bits.
    pub open spec fn wf(self) -> bool {
        &&& self.brightness <= MAX_BRIGHTNESS
        &&& self.low_on == spec_line_on(self.brightness, 0x01)
        &&& self.mid_on == spec_line_on(self.brightness, 0x02)
        &&& self.high_on == spec_line_on(self.brightness, 0x04)
    }

    /// Initialize the backlight at the given level (clamped to 7).
    pub fn init(brightness: u8) -> (b: Backlight)
        ensures
            b.wf(),
            b.brightness == (if brightness > MAX_BRIGHTNESS { MAX_BRIGHTNESS } else {
                brightness
            }),
    {
        let mut b = Backlight { brightness: 0, low_on: false, mid_on: false, high_on: false };
        proof {
            assert(0u8 & 0x01u8 == 0 && 0u8 & 0x02u8 == 0 && 0u8 & 0x04u8 == 0) by (bit_vector);
        }
        b.set(brightness);
        b
    }

    /// Set the brightness level. Values above 7 are clamped to 7; each line
    /// is driven low exactly when its bit of the level is set.
    pub fn set(&mut self, brightness: u8)
        requires
            old(self).wf(),
        ensures
            final(self).wf(),
            final(self).brightness == (if brightness > MAX_BRIGHTNESS { MAX_BRIGHTNESS } else {
                brightness
            }),
    {
        let level: u8 = if brightness > MAX_BRIGHTNESS {
            MAX_BRIGHTNESS
        } else {
            brightness
        };
        self.low_on = level & 0x01 > 0;
        self.mid_on = level & 0x02 > 0;
        self.high_on = level & 0x04 > 0;
        self.brightness = level;
    }

    /// Turn the backlight off.
    pub fn off(&mut self)
        requires
            old(self).wf(),
        ensures
            final(self).wf(),
            final(self).brightness == 0,
    {
        self.set(0);
    }

    /// Increase the brightness by one step; at the maximum it stays there.
    pub fn brighter(&mut self)
        requires
            old(self).wf(),
        ensures
            final(self).wf(),
            final(self).brightness == (if old(self).brightness < MAX_BRIGHTNESS {
                old(self).brightness + 1
            } else {
                MAX_BRIGHTNESS as int
            }),
    {
        let level = self.brightness;
        self.set(level + 1);
    }

    /// Decrease the brightness by one step. Must not be called at level 0.
    pub fn darker(&mut self)
        requires
            old(self).wf(),
            old(self).brightness > 0,
        ensures
            final(self).wf(),
            final(self).brightness == old(self).brightness - 1,
    {
        let level = self.brightness;
        self.set(level - 1);
    }

    /// The current brightness level (0 to 7).
    pub fn get_brightness(&self) -> (level: u8)
        ensures
            level == self.brightness,
    {
        self.brightness
    }
}

} // verus!
