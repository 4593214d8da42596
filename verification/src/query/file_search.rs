//! The fuzzy-filename provider: one result per output line of an external
//! fuzzy filter tool.  Running the tool and reading its lines is I/O and
//! stays outside the library; the per-line result construction is here.

use vstd::prelude::*;

use crate::response::DisplayContent;
use crate::response::QueryResponse;
use crate::response::ResponseAction;

verus! {

/// The local fuzzy-filename provider.
#[derive(Debug, Clone, Copy, PartialEq, Eq)]
pub struct Fzf;

impl Fzf {
    /// A fresh provider handle.
    pub fn new() -> Fzf {
        Fzf
    }

    /// The provider's name.
    pub fn name(&self) -> (r: &'static str)
        ensures
            r@ == "fzf"@,
    {
        "fzf"
    }

    /// The routing prefix that addresses this provider alone.
    pub fn prefix(&self) -> (r: &'static str)
        ensures
            r@ == "@fzf"@,
    {
        "@fzf"
    }

    /// The icon marker shown next to this provider's results.
    pub fn icon(&self) -> (r: &'static str)
        ensures
            r@ == "\u{f15b}"@,
    {
        "\u{f15b}"
    }

    /// The result for the `index`th output line of the filter tool: the
    /// relative path to display, a copy-absolute-path action, and a priority
    /// that starts at 5 and decreases with the emission index.
    pub fn line_response(&self, path: &str, dir: &str, index: usize) -> (r: QueryResponse)
        requires
            index as int <= i64::MAX as int,
        ensures
            r.priority as int == 5 - index as int,
            r.display.marker@ == "\u{f15b}"@,
            r.display.primary@ == "./"@ + path@,
            r.display.secondary is None,
            r.action matches ResponseAction::CopyText { text } && text@ == dir@ + "/"@ + path@,
            r.duration is None,
            r.extra_state is None,
    {
        let mut primary = String::from_str("./");
        primary.append(path);
        let display = DisplayContent {
            marker: String::from_str(self.icon()),
            primary,
            secondary: None,
        };
        let mut text = String::from_str(dir);
        text.append("/");
        text.append(path);
        let priority: i64 = 5 - (index as i64);
        QueryResponse::new(display, ResponseAction::CopyText { text }, priority)
    }
}

} // verus!
