//! Battery state: the Miyoo Mini's ADC calibration curve and smoothing, and the batteries of
//! the simulator and of tests.

use vstd::prelude::*;
use vstd::string::*;

use crate::text::{push_decimal, spec_decimal};

verus! {

/// The charge, in percent, that a raw ADC reading of the MY283 battery stands for.
///
/// The calibration curve is piecewise linear; its fractional slopes (2.125 and 0.51613) and
/// offsets are evaluated exactly in integers, which on these ranges gives the same whole
/// number as evaluating them in floating point and truncating.
pub open spec fn spec_battery_percentage(value: int) -> int {
    if value >= 578 {
        100
    } else if value >= 528 {
        value - 478
    } else if value >= 512 {
        (17 * value - 8544) / 8
    } else if value >= 480 {
        (51613 * value - 24374200) / 100000
    } else {
        0
    }
}

/// Maps a raw ADC reading to a charge percentage.
pub fn battery_percentage(value: i32) -> (p: i32)
    ensures
        p == spec_battery_percentage(value as int),
        0 <= p <= 100,
{
    if value >= 578 {
        100
    } else if value >= 528 {
        value - 478
    } else if value >= 512 {
        (17 * value - 8544) / 8
    } else if value >= 480 {
        ((51613 * value as i64 - 24374200) / 100000) as i32
    } else {
        0
    }
}

/// The next smoothed ADC value: a fresh start takes the reading as it is, afterwards the
/// value moves one step towards each reading; a failed reading leaves it unchanged.
pub open spec fn spec_smooth_adc(value: int, reading: Option<int>) -> int {
    match reading {
        None => value,
        Some(r) => if value <= 100 {
            r
        } else if r > value {
            value + 1
        } else if r < value {
            value - 1
        } else {
            value
        },
    }
}

/// Folds one ADC reading (or a failure to read) into the smoothed value.
pub fn smooth_adc_value(value: i32, reading: Option<i32>) -> (v: i32)
    ensures
        v == spec_smooth_adc(
            value as int,
            match reading {
                Some(r) => Some(r as int),
                None => None,
            },
        ),
{
    match reading {
        None => value,
        Some(r) => {
            if value <= 100 {
                r
            } else if r > value {
                value + 1
            } else if r < value {
                value - 1
            } else {
                value
            }
        },
    }
}

/// The request handed to the SAR ADC driver to read a channel; the driver writes the reading
/// into it.
#[derive(Debug)]
pub struct AdcConfig {
    channel: i32,
    adc_value: i32,
}

impl AdcConfig {
    pub closed spec fn spec_channel(&self) -> int {
        self.channel as int
    }

    pub closed spec fn spec_adc_value(&self) -> int {
        self.adc_value as int
    }

    /// A request for channel 0, with no reading yet.
    pub fn new() -> (c: Self)
        ensures
            c.spec_channel() == 0,
            c.spec_adc_value() == 0,
    {
        AdcConfig { channel: 0, adc_value: 0 }
    }

    /// The reading the driver wrote.
    pub fn adc_value(&self) -> (v: i32)
        ensures
            v == self.spec_adc_value(),
    {
        self.adc_value
    }
}

/// The battery of the Miyoo Mini (MY283), read through its SAR ADC.
pub struct Miyoo283Battery {
    percentage: i32,
    adc_value: i32,
}

impl Miyoo283Battery {
    pub closed spec fn spec_percentage(&self) -> int {
        self.percentage as int
    }

    pub closed spec fn spec_adc_value(&self) -> int {
        self.adc_value as int
    }

    /// A full battery with no reading yet.
    pub fn new() -> (b: Self)
        ensures
            b.spec_percentage() == 100,
            b.spec_adc_value() == 0,
    {
        Miyoo283Battery { percentage: 100, adc_value: 0 }
    }

    /// One update: while charging the battery shows as full; otherwise the reading is
    /// smoothed and mapped through the calibration curve.
    pub fn update(&mut self, charging: bool, reading: Option<i32>)
        ensures
            charging ==> final(self).spec_percentage() == 100 && final(self).spec_adc_value()
                == old(self).spec_adc_value(),
            !charging ==> final(self).spec_adc_value() == spec_smooth_adc(
                old(self).spec_adc_value(),
                match reading {
                    Some(r) => Some(r as int),
                    None => None,
                },
            ) && final(self).spec_percentage() == spec_battery_percentage(
                final(self).spec_adc_value(),
            ),
    {
        if charging {
            self.percentage = 100;
        } else {
            self.adc_value = smooth_adc_value(self.adc_value, reading);
            self.percentage = battery_percentage(self.adc_value);
        }
    }

    pub fn percentage(&self) -> (p: i32)
        ensures
            p == self.spec_percentage(),
    {
        self.percentage
    }

    pub fn adc_value(&self) -> (v: i32)
        ensures
            v == self.spec_adc_value(),
    {
        self.adc_value
    }
}

/// The simulator's battery: it drains five percent and flips its charging state on every
/// update.
pub struct SimulatorBattery {
    percentage: i32,
    charging: bool,
}

impl SimulatorBattery {
    pub closed spec fn spec_percentage(&self) -> int {
        self.percentage as int
    }

    pub closed spec fn spec_charging(&self) -> bool {
        self.charging
    }

    /// The charge stays a multiple of five between 0 and 100.
    pub closed spec fn wf(&self) -> bool {
        0 <= self.percentage <= 100 && self.percentage % 5 == 0
    }

    pub fn new() -> (b: Self)
        ensures
            b.spec_percentage() == 100,
            !b.spec_charging(),
            b.wf(),
    {
        SimulatorBattery { percentage: 100, charging: false }
    }

    pub fn update(&mut self)
        requires
            old(self).wf(),
        ensures
            final(self).wf(),
            final(self).spec_percentage() == (if old(self).spec_percentage() > 0 {
                old(self).spec_percentage() - 5
            } else {
                old(self).spec_percentage()
            }),
            final(self).spec_charging() == !old(self).spec_charging(),
    {
        if self.percentage > 0 {
            self.percentage = self.percentage - 5;
        }
        self.charging = !self.charging;
    }

    pub fn percentage(&self) -> (p: i32)
        ensures
            p == self.spec_percentage(),
    {
        self.percentage
    }

    pub fn charging(&self) -> (c: bool)
        ensures
            c == self.spec_charging(),
    {
        self.charging
    }
}

impl Default for SimulatorBattery {
    fn default() -> (b: Self)
        ensures
            b.spec_percentage() == 100,
            !b.spec_charging(),
            b.wf(),
    {
        Self::new()
    }
}

/// A battery that is always half full and never charging.
pub struct MockBattery;

impl MockBattery {
    /// The mock battery does not change.
    pub fn update(&mut self)
        ensures
            *final(self) == *old(self),
    {
    }

    pub fn percentage(&self) -> (p: i32)
        ensures
            p == 50,
    {
        50
    }

    pub fn charging(&self) -> (c: bool)
        ensures
            !c,
    {
        false
    }
}

/// The label of a battery indicator: empty while charging, else the percentage and `%`.
pub open spec fn spec_battery_label(charging: bool, percentage: int) -> Seq<char> {
    if charging {
        seq![]
    } else {
        spec_decimal(percentage) + seq!['%']
    }
}

/// The text a battery indicator shows next to its icon.
pub fn format_battery_percentage(charging: bool, percentage: i32) -> (s: String)
    ensures
        s@ == spec_battery_label(charging, percentage as int),
{
    let mut s = String::new();
    if !charging {
        push_decimal(&mut s, percentage);
        proof {
            reveal_strlit("%");
        }
        s.append("%");
    }
    s
}

/// The charge shown by the MY283 battery is always a percentage.
pub proof fn lemma_battery_percentage_bounded(value: int)
    requires
        i32::MIN <= value <= i32::MAX,
    ensures
        0 <= spec_battery_percentage(value) <= 100,
{
}

} // verus!
