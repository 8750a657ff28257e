//! The style policy a formatting request runs under.

use vstd::prelude::*;

verus! {

/// The recognized formatting options, constructed once per request from the
/// client's configuration and read-only thereafter.
#[derive(Clone, Copy, PartialEq, Eq, Structural, Debug)]
pub struct FormatSettings {
    /// Indent with spaces (`true`) or with a single tab (`false`).
    pub insert_spaces: bool,
    /// Spaces per indentation level when `insert_spaces` is set.
    pub tab_size: u32,
    /// Pad prefix declarations so their IRIs start in one column.
    pub align_prefixes: bool,
    /// Align wrapped predicate lines under the subject's column.
    pub align_predicates: bool,
    /// Put a blank line after the prologue.
    pub separate_prologue: bool,
    /// Upper-case every reserved keyword; otherwise keep the source casing.
    pub capitalize_keywords: bool,
    /// Force `WHERE` onto a line of its own.
    pub where_new_line: bool,
}

impl FormatSettings {
    /// The default style: four spaces of indent, keywords capitalized, no
    /// extra line breaks or alignment.
    pub fn new() -> (s: FormatSettings)
        ensures
            s == (FormatSettings {
                insert_spaces: true,
                tab_size: 4,
                align_prefixes: false,
                align_predicates: false,
                separate_prologue: false,
                capitalize_keywords: true,
                where_new_line: false,
            }),
    {
        FormatSettings {
            insert_spaces: true,
            tab_size: 4,
            align_prefixes: false,
            align_predicates: false,
            separate_prologue: false,
            capitalize_keywords: true,
            where_new_line: false,
        }
    }
}

/// The formatting options a client sends with a request: the indent unit it
/// displays with.  Carried through to the entry point as the protocol hands
/// it over.
#[derive(Clone, Copy, PartialEq, Eq, Structural, Debug)]
pub struct FormattingOptions {
    pub tab_size: u32,
    pub insert_spaces: bool,
}

} // verus!
