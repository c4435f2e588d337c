//! The output encoding of a message: plain text, HTML, or Markdown.

use vstd::prelude::*;
use crate::text::lower_of;
use crate::text::lowercase;
use crate::text::str_eq;

verus! {

/// How a piece of outgoing text is to be encoded by the sender.
#[derive(Debug, Clone, Copy, PartialEq, Eq, Structural)]
pub enum HelpFormat {
    Plain,
    Html,
    Markdown,
}

/// The format named by a configuration entry, if the entry is valid.
/// Matching is on the lowercase form of the entry.
pub open spec fn spec_parse_format(s: Seq<char>) -> Option<HelpFormat> {
    if lower_of(s) == "plain"@ {
        Some(HelpFormat::Plain)
    } else if lower_of(s) == "html"@ {
        Some(HelpFormat::Html)
    } else if lower_of(s) == "markdown"@ || lower_of(s) == "md"@ {
        Some(HelpFormat::Markdown)
    } else {
        None
    }
}

/// Reads a format name from a configuration entry, case-insensitively;
/// `None` when the entry names no known format.
pub fn parse_help_format(s: &str) -> (r: Option<HelpFormat>)
    ensures
        r == spec_parse_format(s@),
{
    let low = lowercase(s);
    if str_eq(low.as_str(), "plain") {
        Some(HelpFormat::Plain)
    } else if str_eq(low.as_str(), "html") {
        Some(HelpFormat::Html)
    } else if str_eq(low.as_str(), "markdown") || str_eq(low.as_str(), "md") {
        Some(HelpFormat::Markdown)
    } else {
        None
    }
}

/// The name under which each format is written out.
pub open spec fn spec_format_label(f: HelpFormat) -> Seq<char> {
    match f {
        HelpFormat::Plain => "plain"@,
        HelpFormat::Html => "html"@,
        HelpFormat::Markdown => "markdown"@,
    }
}

impl HelpFormat {
    /// The format's name, as it appears in configuration and reports.
    pub fn label(&self) -> (r: &'static str)
        ensures
            r@ == spec_format_label(*self),
    {
        match self {
            HelpFormat::Plain => "plain",
            HelpFormat::Html => "html",
            HelpFormat::Markdown => "markdown",
        }
    }
}

impl Default for HelpFormat {
    /// Plain text, the format assumed when none is configured.
    fn default() -> (r: Self)
        ensures
            r == HelpFormat::Plain,
    {
        HelpFormat::Plain
    }
}

} // verus!
