//! The panel's colour settings and the limits the device keeps them within.

use vstd::prelude::*;
use vstd::string::*;
use crate::text::{push_decimal, spec_decimal};

verus! {

/// The lowest contrast the panel is set to.
pub const MIN_CONTRAST: u8 = 10;

/// The least white balance the panel is set to when every channel is below it.
pub const MIN_WHITE_BALANCE: u8 = 15;

/// The colour settings of the panel, each a percentage.
#[derive(Debug, Clone, Copy, PartialEq, Eq)]
pub struct DisplaySettings {
    pub luminance: u8,
    pub hue: u8,
    pub saturation: u8,
    pub contrast: u8,
    pub r: u8,
    pub g: u8,
    pub b: u8,
}

/// The settings with the contrast raised to the lowest the panel is set to.
pub open spec fn spec_with_min_contrast(s: DisplaySettings) -> DisplaySettings {
    if s.contrast < MIN_CONTRAST {
        DisplaySettings { contrast: MIN_CONTRAST, ..s }
    } else {
        s
    }
}

/// The settings with the white balance raised when every channel is below the least the
/// panel is set to, which would leave the screen black.
pub open spec fn spec_with_min_white_balance(s: DisplaySettings) -> DisplaySettings {
    if s.r < MIN_WHITE_BALANCE && s.g < MIN_WHITE_BALANCE && s.b < MIN_WHITE_BALANCE {
        DisplaySettings { r: MIN_WHITE_BALANCE, g: MIN_WHITE_BALANCE, b: MIN_WHITE_BALANCE, ..s }
    } else {
        s
    }
}

/// The colour-space line written to the panel's driver for the settings.
pub open spec fn spec_csc_line(s: DisplaySettings) -> Seq<char> {
    "csc 0 3 "@ + spec_decimal(s.contrast as int) + " "@ + spec_decimal(s.hue as int) + " "@
        + spec_decimal(s.luminance as int) + " "@ + spec_decimal(s.saturation as int)
        + " 0 0\n"@
}

impl DisplaySettings {
    /// Raises the contrast to the lowest the panel is set to.
    pub fn raise_contrast(&mut self)
        ensures
            *final(self) == spec_with_min_contrast(*old(self)),
    {
        if self.contrast < MIN_CONTRAST {
            self.contrast = MIN_CONTRAST;
        }
    }

    /// Raises every channel of the white balance to the least the panel is set to when all of
    /// them are below it.
    pub fn raise_white_balance(&mut self)
        ensures
            *final(self) == spec_with_min_white_balance(*old(self)),
    {
        if self.r < MIN_WHITE_BALANCE && self.g < MIN_WHITE_BALANCE && self.b < MIN_WHITE_BALANCE {
            self.r = MIN_WHITE_BALANCE;
            self.g = MIN_WHITE_BALANCE;
            self.b = MIN_WHITE_BALANCE;
        }
    }

    /// The colour-space line written to the panel's driver: contrast, hue, luminance and
    /// saturation.
    pub fn csc_line(&self) -> (line: String)
        ensures
            line@ == spec_csc_line(*self),
    {
        proof {
            reveal_strlit("csc 0 3 ");
            reveal_strlit(" ");
            reveal_strlit(" 0 0\n");
        }
        let mut line = String::from_str("csc 0 3 ");
        push_decimal(&mut line, self.contrast as i32);
        line.append(" ");
        push_decimal(&mut line, self.hue as i32);
        line.append(" ");
        push_decimal(&mut line, self.luminance as i32);
        line.append(" ");
        push_decimal(&mut line, self.saturation as i32);
        line.append(" 0 0\n");
        line
    }
}

/// After both limits are applied the contrast is at least the lowest, and some channel of
/// the white balance is at least the least; applying them again changes nothing.
pub proof fn lemma_limits_hold(s: DisplaySettings)
    ensures
        ({
            let t = spec_with_min_white_balance(spec_with_min_contrast(s));
            &&& t.contrast >= MIN_CONTRAST
            &&& !(t.r < MIN_WHITE_BALANCE && t.g < MIN_WHITE_BALANCE && t.b < MIN_WHITE_BALANCE)
            &&& spec_with_min_white_balance(spec_with_min_contrast(t)) == t
        }),
{
}

} // verus!
