//! The command protocol between producers and the writer thread.

use vstd::prelude::*;
use crate::level::Level;
use crate::record::LoggingFunc;

verus! {

/// A leveled record in flight: the severity under which it was submitted and
/// the deferred formatter that renders its text.
pub struct LogMetaData {
    pub level: Level,
    pub func: LoggingFunc,
}

/// A command travelling from a producer to the writer thread.
///
/// `Msg` carries a record to render and append; `Flush` carries the sending
/// half of a single-slot rendezvous channel on which the writer signals
/// completion once the sink is durably flushed.
pub enum LogCommand {
    Msg(LogMetaData),
    Flush(crossbeam_channel::Sender<()>),
}

impl LogCommand {
    /// The command a flush barrier enqueues: a `Flush` carrying the sending
    /// half of the caller's fresh single-slot completion channel, and nothing
    /// else.
    pub fn flush_request(ack: crossbeam_channel::Sender<()>) -> (r: LogCommand)
        ensures
            r == LogCommand::Flush(ack),
    {
        LogCommand::Flush(ack)
    }
}

} // verus!
