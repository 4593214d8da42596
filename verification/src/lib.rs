//! Core of a quick-launcher query tool: a registry of search providers keyed
//! by routing prefix, a dispatcher that keeps at most one query session live,
//! and the stable priority merge that orders the results a session streams
//! back.  The asynchronous plumbing (worker pool, channels, subprocesses,
//! HTTP) lives outside this crate; everything here is plain data and verified
//! logic.

pub mod merge;
pub mod query;
pub mod response;
pub mod text;
pub mod theme;

pub use response::DisplayContent;
pub use response::QueryResponse;
pub use response::ResponseAction;
pub use response::format_duration;
pub use theme::Margin;
pub use theme::RgbaUnmultiplied;
