//! What a device offers besides drawing and buttons: suspending, volume and brightness, and a
//! platform that does none of it for running without a device.

use vstd::prelude::*;
use crate::battery::MockBattery;
use crate::display_settings::DisplaySettings;

verus! {

#[verifier::external_type_specification]
#[verifier::external_body]
pub struct ExAnyhowError(anyhow::Error);

/// A device that can turn its screen off and back on.
pub trait Suspend {
    /// What is kept while suspended to restore the device afterwards.
    type SuspendContext;

    fn suspend(&self) -> Result<Self::SuspendContext, anyhow::Error>;

    fn unsuspend(&self, ctx: Self::SuspendContext) -> Result<(), anyhow::Error>;
}

/// A device whose volume can be set.
pub trait Volume {
    fn set_volume(&mut self, volume: i32) -> Result<(), anyhow::Error>;
}

/// A device whose screen brightness can be read and set.
pub trait Brightness {
    fn get_brightness(&self) -> Result<u8, anyhow::Error>;

    fn set_brightness(&mut self, brightness: u8) -> Result<(), anyhow::Error>;
}

/// A device whose panel colours can be set; it may adjust the settings to what it applies.
pub trait DisplayColor {
    fn set_display_settings(&mut self, settings: &mut DisplaySettings) -> Result<(), anyhow::Error>;
}

/// What the Miyoo Mini keeps while suspended: the brightness to restore.
#[derive(Debug, Clone, Copy)]
pub struct SuspendContext {
    brightness: u8,
}

impl SuspendContext {
    pub closed spec fn spec_brightness(&self) -> u8 {
        self.brightness
    }

    pub fn new(brightness: u8) -> (c: Self)
        ensures
            c.spec_brightness() == brightness,
    {
        SuspendContext { brightness }
    }

    pub fn brightness(&self) -> (b: u8)
        ensures
            b == self.spec_brightness(),
    {
        self.brightness
    }
}

/// The brightness written to the backlight for a requested brightness: never below 3, so the
/// screen stays visible.
pub fn backlight_duty(brightness: u8) -> (d: u8)
    ensures
        d == if brightness >= 3 {
            brightness
        } else {
            3u8
        },
{
    if brightness >= 3 {
        brightness
    } else {
        3
    }
}

/// The platform used when there is no device: no display or buttons of its own, a battery at
/// half charge, and settings that change nothing.
#[derive(Debug)]
pub struct MockPlatform;

/// The brightness the mock platform reports.
pub const MOCK_BRIGHTNESS: u8 = 50;

impl MockPlatform {
    pub fn new() -> (p: Self)
        ensures
            p == MockPlatform,
    {
        MockPlatform
    }

    pub fn battery(&self) -> (b: MockBattery)
        ensures
            b == MockBattery,
    {
        MockBattery
    }

    pub fn shutdown(&self) -> (r: Result<(), anyhow::Error>)
        ensures
            r is Ok,
    {
        Ok(())
    }

    pub fn device_model() -> (s: String)
        ensures
            s@ == "Mock"@,
    {
        String::from_str("Mock")
    }

    pub fn firmware() -> (s: String)
        ensures
            s@ == "00000000"@,
    {
        String::from_str("00000000")
    }

    pub fn has_wifi() -> (w: bool)
        ensures
            !w,
    {
        false
    }

    pub fn has_lid() -> (l: bool)
        ensures
            !l,
    {
        false
    }
}

impl Default for MockPlatform {
    fn default() -> (p: Self)
        ensures
            p == MockPlatform,
    {
        MockPlatform
    }
}

impl Suspend for MockPlatform {
    type SuspendContext = ();

    fn suspend(&self) -> (r: Result<(), anyhow::Error>)
        ensures
            r is Ok,
    {
        Ok(())
    }

    fn unsuspend(&self, ctx: ()) -> (r: Result<(), anyhow::Error>)
        ensures
            r is Ok,
    {
        Ok(())
    }
}

impl Volume for MockPlatform {
    fn set_volume(&mut self, volume: i32) -> (r: Result<(), anyhow::Error>)
        ensures
            r is Ok,
    {
        Ok(())
    }
}

impl Brightness for MockPlatform {
    fn get_brightness(&self) -> (r: Result<u8, anyhow::Error>)
        ensures
            r == Ok::<u8, anyhow::Error>(MOCK_BRIGHTNESS),
    {
        Ok(MOCK_BRIGHTNESS)
    }

    fn set_brightness(&mut self, brightness: u8) -> (r: Result<(), anyhow::Error>)
        ensures
            r is Ok,
    {
        Ok(())
    }
}

impl DisplayColor for MockPlatform {
    fn set_display_settings(&mut self, settings: &mut DisplaySettings) -> (r: Result<(), anyhow::Error>)
        ensures
            r is Ok,
            *final(settings) == *old(settings),
    {
        Ok(())
    }
}

} // verus!
