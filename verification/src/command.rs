//! Values that input widgets produce and the commands that views hand up to the application.

use vstd::prelude::*;
use crate::bitmap::Bitmap;
use crate::color::Color;
use crate::display_settings::DisplaySettings;
use crate::locale::LocaleSettings;
use crate::stylesheet::Stylesheet;

verus! {

#[verifier::external_type_specification]
#[verifier::external_body]
pub struct ExNaiveDateTime(chrono::NaiveDateTime);

/// `NaiveDateTime` is `Copy`, and its derived `clone` hands back the same date and time.
pub assume_specification[ <chrono::NaiveDateTime as std::clone::Clone>::clone ](
    dt: &chrono::NaiveDateTime,
) -> (r: chrono::NaiveDateTime)
    ensures
        r == *dt,
;

/// A value entered in an input widget.
#[derive(Debug, Clone)]
pub enum Value {
    Bool(bool),
    Int(i32),
    String(String),
    Color(Color),
    DateTime(chrono::NaiveDateTime),
}

impl Value {
    pub fn as_bool(self) -> (b: Option<bool>)
        ensures
            b == (match self {
                Value::Bool(v) => Some(v),
                _ => None,
            }),
    {
        match self {
            Value::Bool(b) => Some(b),
            _ => None,
        }
    }

    pub fn as_int(self) -> (i: Option<i32>)
        ensures
            i == (match self {
                Value::Int(v) => Some(v),
                _ => None,
            }),
    {
        match self {
            Value::Int(i) => Some(i),
            _ => None,
        }
    }

    pub fn as_string(self) -> (s: Option<String>)
        ensures
            s == (match self {
                Value::String(v) => Some(v),
                _ => None,
            }),
    {
        match self {
            Value::String(s) => Some(s),
            _ => None,
        }
    }

    pub fn as_color(self) -> (c: Option<Color>)
        ensures
            c == (match self {
                Value::Color(v) => Some(v),
                _ => None,
            }),
    {
        match self {
            Value::Color(c) => Some(c),
            _ => None,
        }
    }

    pub fn as_datetime(self) -> (d: Option<chrono::NaiveDateTime>)
        ensures
            d == (match self {
                Value::DateTime(v) => Some(v),
                _ => None,
            }),
    {
        match self {
            Value::DateTime(dt) => Some(dt),
            _ => None,
        }
    }
}

impl Default for Value {
    fn default() -> (v: Self)
        ensures
            v == Value::Bool(false),
    {
        Value::Bool(false)
    }
}

/// A request that a view hands up to the application.
#[derive(Debug)]
pub enum Command {
    Exit,
    ReloadStylesheet(Box<Stylesheet>),
    SaveDisplaySettings(Box<DisplaySettings>),
    SaveLocaleSettings(LocaleSettings),
    CloseView,
    /// The value of the input at the index changed.
    ValueChanged(usize, Value),
    TrapFocus,
    Unfocus,
    Redraw,
    StartSearch,
    Search(String),
    Toast(String, Option<std::time::Duration>),
    ImageToast(Bitmap, String, Option<std::time::Duration>),
    DismissToast,
    PopulateDb,
    SaveStateScreenshot { path: String, core: String, slot: i8 },
}

} // verus!
