//! How a sink reacts to what its broadcast subscription yields.

use vstd::prelude::*;

verus! {

/// What a receive on a lossy broadcast yields.
#[derive(PartialEq, Eq, Structural, Clone, Copy, Debug)]
pub enum RecvEvent {
    /// The next item.
    Item,
    /// The subscriber fell behind and this many items were skipped.
    Lagged(u64),
    /// Every sender is gone.
    Closed,
}

#[derive(PartialEq, Eq, Structural, Clone, Copy, Debug)]
pub enum SinkAction {
    /// Write or transform the item.
    Process,
    /// Report the skipped items and keep receiving.
    ReportLag(u64),
    /// Flush what is buffered and stop.
    Stop,
}

/// A sink processes every item it receives, reports every gap with its size and
/// goes on, and stops only when the channel is closed.
pub fn on_recv(e: RecvEvent) -> (r: SinkAction)
    ensures
        r == match e {
            RecvEvent::Item => SinkAction::Process,
            RecvEvent::Lagged(n) => SinkAction::ReportLag(n),
            RecvEvent::Closed => SinkAction::Stop,
        },
{
    match e {
        RecvEvent::Item => SinkAction::Process,
        RecvEvent::Lagged(n) => SinkAction::ReportLag(n),
        RecvEvent::Closed => SinkAction::Stop,
    }
}

} // verus!
