//! The report format selector and the reporting strategy it is bound to.

use crate::text::{same_ignoring_case, same_text_ignoring_case};
use vstd::prelude::*;

verus! {

/// The style in which findings are reported.
#[derive(Debug, Clone, Copy, PartialEq, Eq, Structural)]
pub enum Format {
    Silent,
    Brief,
    Long,
    Json,
}

/// The fixed, stateless reporting strategies. Rendering is done by whoever
/// consumes the settings; this type only says which strategy was selected.
#[derive(Debug, Clone, Copy, PartialEq, Eq, Structural)]
pub enum Reporter {
    PrintSilent,
    PrintBrief,
    PrintLong,
    PrintJson,
}

impl Format {
    /// The strategy bound to each format.
    pub open spec fn strategy(self) -> Reporter {
        match self {
            Format::Silent => Reporter::PrintSilent,
            Format::Brief => Reporter::PrintBrief,
            Format::Long => Reporter::PrintLong,
            Format::Json => Reporter::PrintJson,
        }
    }

    /// The name of each format.
    pub open spec fn label(self) -> Seq<char> {
        match self {
            Format::Silent => "Silent"@,
            Format::Brief => "Brief"@,
            Format::Long => "Long"@,
            Format::Json => "Json"@,
        }
    }

    /// The format that a text names, ignoring ASCII letter case; `None` for a
    /// text that names no format.
    pub open spec fn named(text: Seq<char>) -> Option<Format> {
        if same_ignoring_case(text, Format::Silent.label()) {
            Some(Format::Silent)
        } else if same_ignoring_case(text, Format::Brief.label()) {
            Some(Format::Brief)
        } else if same_ignoring_case(text, Format::Long.label()) {
            Some(Format::Long)
        } else if same_ignoring_case(text, Format::Json.label()) {
            Some(Format::Json)
        } else {
            None
        }
    }

    /// Selects the strategy that renders findings in this format.
    pub fn reporter(self) -> (reporter: Reporter)
        ensures
            reporter == self.strategy(),
    {
        match self {
            Format::Silent => Reporter::PrintSilent,
            Format::Brief => Reporter::PrintBrief,
            Format::Long => Reporter::PrintLong,
            Format::Json => Reporter::PrintJson,
        }
    }

    /// The name of this format, as listed among the accepted values.
    pub fn name(self) -> (name: &'static str)
        ensures
            name@ == self.label(),
    {
        match self {
            Format::Silent => "Silent",
            Format::Brief => "Brief",
            Format::Long => "Long",
            Format::Json => "Json",
        }
    }

    /// The names of all formats, in the order of the variants: the values
    /// that a format option accepts.
    pub fn variants() -> (names: [&'static str; 4])
        ensures
            names@[0]@ == Format::Silent.label(),
            names@[1]@ == Format::Brief.label(),
            names@[2]@ == Format::Long.label(),
            names@[3]@ == Format::Json.label(),
    {
        ["Silent", "Brief", "Long", "Json"]
    }

    /// Reads a format name, ignoring ASCII letter case.
    ///
    /// The result is `Some(f)` exactly for a text that spells the name of `f`;
    /// any other text is rejected with `None`.
    pub fn from_name(text: &str) -> (format: Option<Format>)
        ensures
            format == Format::named(text@),
            forall|f: Format| format == Some(f) <==> same_ignoring_case(text@, f.label()),
    {
        proof {
            reveal_strlit("Silent");
            reveal_strlit("Brief");
            reveal_strlit("Long");
            reveal_strlit("Json");
        }
        if same_text_ignoring_case(text, "Silent") {
            Some(Format::Silent)
        } else if same_text_ignoring_case(text, "Brief") {
            Some(Format::Brief)
        } else if same_text_ignoring_case(text, "Long") {
            assert("Long"@[0] == 'L' && "Json"@[0] == 'J');
            Some(Format::Long)
        } else if same_text_ignoring_case(text, "Json") {
            Some(Format::Json)
        } else {
            None
        }
    }

    /// The format in effect: the one that was asked for, or `Long` when none
    /// was.
    pub fn or_default(requested: Option<Format>) -> (format: Format)
        ensures
            format == match requested {
                Some(f) => f,
                None => Format::Long,
            },
    {
        match requested {
            Some(f) => f,
            None => Format::Long,
        }
    }
}

impl Default for Format {
    /// The format used when none is asked for.
    fn default() -> (format: Format)
        ensures
            format == Format::Long,
    {
        Format::Long
    }
}

} // verus!
