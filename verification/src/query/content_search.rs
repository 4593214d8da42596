//! The content-search provider: one result per match record of an external
//! recursive grep tool that emits line-delimited, type-tagged records.
//! Running the tool and decoding its records is I/O and stays outside the
//! library; keeping only match records and building their results is here.

use vstd::prelude::*;

use crate::response::DisplayContent;
use crate::response::QueryResponse;
use crate::response::ResponseAction;
use crate::text::trim_spec;
use crate::text::trim_str;

verus! {

/// The local content-search provider.
#[derive(Debug, Clone, Copy, PartialEq, Eq)]
pub struct Rga;

impl Rga {
    /// A fresh provider handle.
    pub fn new() -> Rga {
        Rga
    }

    /// The provider's name.
    pub fn name(&self) -> (r: &'static str)
        ensures
            r@ == "rga"@,
    {
        "rga"
    }

    /// The routing prefix that addresses this provider alone.
    pub fn prefix(&self) -> (r: &'static str)
        ensures
            r@ == "@rg"@,
    {
        "@rg"
    }

    /// The icon marker shown next to this provider's results.
    pub fn icon(&self) -> (r: &'static str)
        ensures
            r@ == "\u{f021e}"@,
    {
        "\u{f021e}"
    }

    /// The provider keeps only records tagged as matches; every other record
    /// contributes nothing.
    pub fn relevant_data(parsed: RgaJson) -> (r: Option<RgaMatchData>)
        ensures
            match parsed {
                RgaJson::Match { data } => r == Some(data),
                RgaJson::Irrelevant => r is None,
            },
    {
        match parsed {
            RgaJson::Match { data } => Some(data),
            RgaJson::Irrelevant => None,
        }
    }

    /// The result for the `index`th match record: the relative path and the
    /// trimmed matching line to display, a copy-absolute-path action, and a
    /// priority that starts at 5 and decreases with the emission index.
    pub fn match_response(&self, data: &RgaMatchData, dir: &str, index: usize) -> (r: QueryResponse)
        requires
            index as int <= i64::MAX as int,
        ensures
            r.priority as int == 5 - index as int,
            r.display.marker@ == "\u{f021e}"@,
            r.display.primary@ == "./"@ + data.path.text@ + ":"@,
            r.display.secondary matches Some(s) && s@ == trim_spec(data.lines.text@),
            r.action matches ResponseAction::CopyText { text } && text@ == dir@ + "/"@
                + data.path.text@,
            r.duration is None,
            r.extra_state is None,
    {
        let mut primary = String::from_str("./");
        primary.append(data.path.text.as_str());
        primary.append(":");
        let display = DisplayContent {
            marker: String::from_str(self.icon()),
            primary,
            secondary: Some(trim_str(data.lines.text.as_str())),
        };
        let mut text = String::from_str(dir);
        text.append("/");
        text.append(data.path.text.as_str());
        let priority: i64 = 5 - (index as i64);
        QueryResponse::new(display, ResponseAction::CopyText { text }, priority)
    }
}

/// One record of the content-search tool's line-delimited output: either a
/// match, or anything else, which the provider discards.
#[derive(Debug, Clone, PartialEq, Eq)]
pub enum RgaJson {
    Match { data: RgaMatchData },
    Irrelevant,
}

/// The payload of a match record.
#[derive(Debug, Clone, PartialEq, Eq)]
pub struct RgaMatchData {
    pub path: Text,
    pub lines: Text,
    pub line_number: Option<u64>,
    pub absolute_offset: Option<u64>,
    pub submatches: Vec<Match>,
}

/// One submatch within a matching line.
#[derive(Debug, Clone, PartialEq, Eq)]
pub struct Match {
    pub mat: Text,
    pub start: u64,
    pub end: u64,
}

/// A text field of a record.
#[derive(Debug, Clone, PartialEq, Eq)]
pub struct Text {
    pub text: String,
}

} // verus!
