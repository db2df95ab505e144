//! Reducing a detected keyboard layout to a language code.
//!
//! Querying the system for the active layout is outside work; what is
//! verified here is the mapping from a layout code to a language code and
//! the fallback from a locale string.

use vstd::prelude::*;

use crate::text::str_eq;

verus! {

pub struct KeyboardLayoutDetector;

/// The language code a keyboard layout code maps to, when it is one of the
/// layouts the detector knows.
pub open spec fn lang_for_layout_spec(layout: Seq<char>) -> Option<Seq<char>> {
    if layout == "us"@ || layout == "gb"@ {
        Some("en"@)
    } else if layout == "de"@ {
        Some("de"@)
    } else if layout == "fr"@ {
        Some("fr"@)
    } else if layout == "es"@ {
        Some("es"@)
    } else if layout == "it"@ {
        Some("it"@)
    } else if layout == "ru"@ {
        Some("ru"@)
    } else {
        None
    }
}

impl KeyboardLayoutDetector {
    /// Map a layout code (as reported by the system) to a language code;
    /// an unknown layout yields nothing and the caller falls back further.
    pub fn lang_for_layout(layout: &str) -> (r: Option<String>)
        ensures
            match lang_for_layout_spec(layout@) {
                Some(l) => r matches Some(s) && s@ == l,
                None => r is None,
            },
    {
        if str_eq(layout, "us") || str_eq(layout, "gb") {
            Some("en".to_owned())
        } else if str_eq(layout, "de") {
            Some("de".to_owned())
        } else if str_eq(layout, "fr") {
            Some("fr".to_owned())
        } else if str_eq(layout, "es") {
            Some("es".to_owned())
        } else if str_eq(layout, "it") {
            Some("it".to_owned())
        } else if str_eq(layout, "ru") {
            Some("ru".to_owned())
        } else {
            None
        }
    }

    /// The last fallback: the first two characters of the system locale, or
    /// English when the locale is too short to carry a language code.
    pub fn fallback_to_locale(locale: &str) -> (r: String)
        ensures
            r@ == (if locale@.len() >= 2 {
                locale@.subrange(0, 2)
            } else {
                "en"@
            }),
    {
        if locale.unicode_len() >= 2 {
            locale.substring_char(0, 2).to_owned()
        } else {
            "en".to_owned()
        }
    }
}

} // verus!
