//! The daemon's per-item decisions.
//!
//! The event loop itself performs I/O and lives outside the library; what
//! it does with each item of the event stream is decided here. A stream
//! error leads to a reconnect loop with a fixed delay between attempts.

use vstd::prelude::*;

verus! {

/// Seconds to wait between reconnect attempts after a stream error.
pub const RECONNECT_DELAY_SECS: u64 = 5;

/// What kind of change a window event reports: a focus change, or anything
/// else.
#[derive(Clone, Copy, Debug, PartialEq, Eq, Structural)]
pub enum WindowChangeKind {
    Focus,
    Other,
}

/// One item of the event stream, as the loop sees it.
#[derive(Clone, Copy, Debug, PartialEq, Eq, Structural)]
pub enum StreamItem {
    /// A window event with its kind of change.
    Window(WindowChangeKind),
    /// An event of some other type.
    OtherEvent,
    /// The stream reported an error.
    StreamError,
    /// The stream ended.
    Ended,
}

/// What the loop does with one stream item.
#[derive(Clone, Copy, Debug, PartialEq, Eq, Structural)]
pub enum LoopStep {
    /// Run the split-direction rule.
    RunRule,
    /// Do nothing and wait for the next item.
    Ignore,
    /// Reconnect and resubscribe, then resume.
    Reconnect,
    /// Leave the loop and exit cleanly.
    Stop,
}

/// The loop's reaction to one stream item: only a window-focus change runs
/// the rule, an error reconnects, and the stream's end stops the loop.
pub open spec fn step_spec(item: StreamItem) -> LoopStep {
    match item {
        StreamItem::Window(WindowChangeKind::Focus) => LoopStep::RunRule,
        StreamItem::Window(WindowChangeKind::Other) => LoopStep::Ignore,
        StreamItem::OtherEvent => LoopStep::Ignore,
        StreamItem::StreamError => LoopStep::Reconnect,
        StreamItem::Ended => LoopStep::Stop,
    }
}

/// Decides what the loop does with one stream item.
pub fn next_step(item: &StreamItem) -> (r: LoopStep)
    ensures
        r == step_spec(*item),
{
    match item {
        StreamItem::Window(WindowChangeKind::Focus) => LoopStep::RunRule,
        StreamItem::Window(WindowChangeKind::Other) => LoopStep::Ignore,
        StreamItem::OtherEvent => LoopStep::Ignore,
        StreamItem::StreamError => LoopStep::Reconnect,
        StreamItem::Ended => LoopStep::Stop,
    }
}

/// A logger that can be silenced; whether a line is printed is decided
/// here, the printing itself happens outside the library.
pub struct Logger {
    pub is_quiet: bool,
}

impl Logger {
    /// Builds a logger; `is_quiet` suppresses all output.
    pub fn new(is_quiet: bool) -> (r: Logger)
        ensures
            r.is_quiet == is_quiet,
    {
        Logger { is_quiet }
    }

    /// Whether log lines should be written at all.
    pub fn enabled(&self) -> (r: bool)
        ensures
            r == !self.is_quiet,
    {
        !self.is_quiet
    }
}

} // verus!
