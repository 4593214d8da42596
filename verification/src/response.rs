//! One unit of provider output: an identified, prioritised, inert payload
//! that the dispatcher transports and the presentation layer interprets.

use vstd::prelude::*;

use crate::text::spec_decimal;
use crate::text::u64_to_decimal;

verus! {

/// What a result row shows: the provider's icon marker, a primary line, and
/// an optional secondary line.  The core never interprets these strings.
#[derive(Debug, Clone, PartialEq, Eq)]
pub struct DisplayContent {
    pub marker: String,
    pub primary: String,
    pub secondary: Option<String>,
}

/// What selecting a result does, as plain data for the presentation layer.
#[derive(Debug, Clone, PartialEq, Eq)]
pub enum ResponseAction {
    /// Selecting the result does nothing.
    NoOp,
    /// Copy the given text to the clipboard.
    CopyText { text: String },
    /// Open the given address in a browser.
    OpenUrl { url: String },
}

/// Relies on `uuid::Uuid::new_v4` for a fresh random identifier; the value
/// is random, so nothing is promised of it.
#[verifier::external_body]
fn fresh_uuid() -> u128 {
    uuid::Uuid::new_v4().as_u128()
}

/// One search result: an opaque payload with a priority and an identity.
#[derive(Debug, Clone, PartialEq, Eq)]
pub struct QueryResponse {
    /// Processing time in milliseconds, for providers that report one.
    pub duration: Option<u64>,
    /// What the result shows.
    pub display: DisplayContent,
    /// What selecting the result does.
    pub action: ResponseAction,
    /// Higher sorts first in the merged list.
    pub priority: i64,
    /// Auxiliary bytes a provider may attach for its own later use.
    pub extra_state: Option<Vec<u8>>,
    /// The identity given to this response when it was built.
    pub uuid: u128,
}

impl QueryResponse {
    /// A fresh response with no duration and no extra state.  Its identity is
    /// drawn at random and is not otherwise constrained.
    pub fn new(display: DisplayContent, action: ResponseAction, priority: i64) -> (r: Self)
        ensures
            r.duration is None,
            r.display == display,
            r.action == action,
            r.priority == priority,
            r.extra_state is None,
    {
        QueryResponse {
            duration: None,
            display,
            action,
            priority,
            extra_state: None,
            uuid: fresh_uuid(),
        }
    }

    /// The same response, now carrying auxiliary bytes.
    pub fn with_extra_state(self, state: Vec<u8>) -> (r: Self)
        ensures
            r == (QueryResponse { extra_state: Some(state), ..self }),
    {
        QueryResponse { extra_state: Some(state), ..self }
    }

    /// The same response, now reporting a processing time in milliseconds.
    pub fn with_duration(self, duration_ms: u64) -> (r: Self)
        ensures
            r == (QueryResponse { duration: Some(duration_ms), ..self }),
    {
        QueryResponse { duration: Some(duration_ms), ..self }
    }

    /// The identity of this response, stable for its lifetime.
    pub fn get_uuid(&self) -> (r: u128)
        ensures
            r == self.uuid,
    {
        self.uuid
    }

    /// The auxiliary bytes attached to this response, if any.
    pub fn get_extra_state(&self) -> (r: Option<&Vec<u8>>)
        ensures
            match r {
                Option::None => self.extra_state is None,
                Option::Some(v) => self.extra_state == Some(*v),
            },
    {
        self.extra_state.as_ref()
    }

    /// Mutable access to the auxiliary bytes, if any are attached.
    pub fn get_extra_state_mut(&mut self) -> (r: Option<&mut Vec<u8>>)
        ensures
            old(self).extra_state is None ==> r is None && *final(self) == *old(self),
    {
        self.extra_state.as_mut()
    }
}

/// A duration label: `(N ms)` under five seconds, `(N s)` from there on.
pub fn format_duration(duration_ms: u64) -> (r: String)
    ensures
        duration_ms < 5000 ==> r@ == "("@ + spec_decimal(duration_ms as int) + " ms)"@,
        duration_ms >= 5000 ==> r@ == "("@ + spec_decimal(duration_ms as int / 1000) + " s)"@,
{
    let mut s = String::from_str("(");
    if duration_ms < 5000 {
        let digits = u64_to_decimal(duration_ms);
        s.append(digits.as_str());
        s.append(" ms)");
    } else {
        let digits = u64_to_decimal(duration_ms / 1000);
        s.append(digits.as_str());
        s.append(" s)");
    }
    s
}

} // verus!
