//! The dictionary locale selector.

use crate::text::same_text;
use vstd::prelude::*;

verus! {

/// The dictionary locales that can be selected. The value is handed to the
/// dictionary as it is; nothing here interprets it.
#[derive(Debug, Clone, Copy, PartialEq, Eq, Structural)]
pub enum Locale {
    En,
    EnUs,
    EnGb,
    EnCa,
    EnAu,
}

impl Locale {
    /// The identifier of each locale.
    pub open spec fn label(self) -> Seq<char> {
        match self {
            Locale::En => "en"@,
            Locale::EnUs => "en-us"@,
            Locale::EnGb => "en-gb"@,
            Locale::EnCa => "en-ca"@,
            Locale::EnAu => "en-au"@,
        }
    }

    /// The locale that a text identifies; `None` for a text that is the
    /// identifier of no locale.
    pub open spec fn named(text: Seq<char>) -> Option<Locale> {
        if text == Locale::En.label() {
            Some(Locale::En)
        } else if text == Locale::EnUs.label() {
            Some(Locale::EnUs)
        } else if text == Locale::EnGb.label() {
            Some(Locale::EnGb)
        } else if text == Locale::EnCa.label() {
            Some(Locale::EnCa)
        } else if text == Locale::EnAu.label() {
            Some(Locale::EnAu)
        } else {
            None
        }
    }

    /// The identifier of this locale, as listed among the accepted values.
    pub fn name(self) -> (name: &'static str)
        ensures
            name@ == self.label(),
    {
        match self {
            Locale::En => "en",
            Locale::EnUs => "en-us",
            Locale::EnGb => "en-gb",
            Locale::EnCa => "en-ca",
            Locale::EnAu => "en-au",
        }
    }

    /// The identifiers of all locales, in the order of the variants: the
    /// values that a locale option accepts.
    pub fn variants() -> (names: [&'static str; 5])
        ensures
            names@[0]@ == Locale::En.label(),
            names@[1]@ == Locale::EnUs.label(),
            names@[2]@ == Locale::EnGb.label(),
            names@[3]@ == Locale::EnCa.label(),
            names@[4]@ == Locale::EnAu.label(),
    {
        ["en", "en-us", "en-gb", "en-ca", "en-au"]
    }

    /// Reads a locale identifier.
    ///
    /// The result is `Some(l)` exactly for the text that is the identifier of
    /// `l`; any other text is rejected with `None`.
    pub fn from_name(text: &str) -> (locale: Option<Locale>)
        ensures
            locale == Locale::named(text@),
            forall|l: Locale| locale == Some(l) <==> text@ == l.label(),
    {
        proof {
            reveal_strlit("en");
            reveal_strlit("en-us");
            reveal_strlit("en-gb");
            reveal_strlit("en-ca");
            reveal_strlit("en-au");
            assert("en"@.len() == 2);
            assert("en-us"@.len() == 5 && "en-us"@[3] == 'u');
            assert("en-gb"@.len() == 5 && "en-gb"@[3] == 'g');
            assert("en-ca"@.len() == 5 && "en-ca"@[3] == 'c');
            assert("en-au"@.len() == 5 && "en-au"@[3] == 'a');
        }
        if same_text(text, "en") {
            Some(Locale::En)
        } else if same_text(text, "en-us") {
            Some(Locale::EnUs)
        } else if same_text(text, "en-gb") {
            Some(Locale::EnGb)
        } else if same_text(text, "en-ca") {
            Some(Locale::EnCa)
        } else if same_text(text, "en-au") {
            Some(Locale::EnAu)
        } else {
            None
        }
    }
}

} // verus!
