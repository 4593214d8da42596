//! The synthetic provider: echoes the query back as a single result.  It
//! exists so the dispatcher can be exercised without external tools.

use vstd::prelude::*;

use crate::response::DisplayContent;
use crate::response::QueryResponse;
use crate::response::ResponseAction;

verus! {

/// The synthetic test provider.
#[derive(Debug, Clone, Copy, PartialEq, Eq)]
pub struct MockEngine;

impl MockEngine {
    /// The provider's name.
    pub fn name(&self) -> (r: &'static str)
        ensures
            r@ == "mock_engine"@,
    {
        "mock_engine"
    }

    /// The routing prefix that addresses this provider alone.
    pub fn prefix(&self) -> (r: &'static str)
        ensures
            r@ == "@mk"@,
    {
        "@mk"
    }

    /// The icon marker shown next to this provider's results.
    pub fn icon(&self) -> (r: &'static str)
        ensures
            r@ == "\u{f0911}"@,
    {
        "\u{f0911}"
    }

    /// The single result of a demo search: the query echoed back verbatim at
    /// priority zero, with no action and the measured elapsed time attached.
    pub fn search_response(&self, query: &str, elapsed_ms: u64) -> (r: QueryResponse)
        ensures
            r.priority == 0,
            r.duration == Some(elapsed_ms),
            r.display.marker@ == "\u{f0911}"@,
            r.display.primary@ == query@,
            r.display.secondary is None,
            r.action == ResponseAction::NoOp,
            r.extra_state is None,
    {
        let display = DisplayContent {
            marker: String::from_str(self.icon()),
            primary: String::from_str(query),
            secondary: None,
        };
        QueryResponse::new(display, ResponseAction::NoOp, 0).with_duration(elapsed_ms)
    }
}

} // verus!
