//! The language setting of the user interface.

use vstd::prelude::*;
use vstd::string::*;

verus! {

/// The language of the user interface, as a language tag such as `en-US`.
#[derive(Debug, Clone)]
pub struct LocaleSettings {
    pub lang: String,
}

impl LocaleSettings {
    /// English (United States), the language the interface starts in.
    pub fn new() -> (s: Self)
        ensures
            s.lang@ == "en-US"@,
    {
        Self::default()
    }
}

impl Default for LocaleSettings {
    fn default() -> (s: Self)
        ensures
            s.lang@ == "en-US"@,
    {
        Self { lang: String::from_str("en-US") }
    }
}

} // verus!
