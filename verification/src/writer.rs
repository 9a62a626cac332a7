//! The writer thread's decision logic.
//!
//! The writer is the sole consumer of the command channel and the exclusive
//! owner of the output sink. Its loop is plain I/O plumbing and lives with the
//! embedding binary; every decision the loop takes is made here, by
//! [`writer_step`], from the current state and the last poll of the channel.

use vstd::prelude::*;
use crate::channel::ChannelEvent;
use crate::clock::current_timestamp;
use crate::command::LogCommand;
use crate::level::Level;
use crate::line::line_of;
use crate::line::format_line;

verus! {

/// What the writer asks its sink to do for one command.
pub enum SinkOp {
    /// Append this rendered line to the buffered sink; no flush is implied.
    Append(String),
    /// Flush the buffered sink to the file, then send the completion signal
    /// on this rendezvous channel. The signal must go out only after the
    /// flush, since it releases a producer blocked in a flush barrier.
    AckFlush(crossbeam_channel::Sender<()>),
}

/// State of the writer loop.
#[derive(Clone, Copy, PartialEq, Eq, Structural, Debug)]
pub enum WriterState {
    /// Commands were available at the last poll; keep draining.
    Draining,
    /// The channel was empty at the last poll; back off before retrying.
    Idle,
    /// Every sender is gone; the loop is over. Absorbing.
    Terminated,
}

/// What the writer loop must do after one poll of the channel.
pub enum WriterDirective {
    /// Apply this operation to the sink.
    Apply(SinkOp),
    /// Flush the buffered sink, then sleep for the configured idle duration
    /// before polling again; never spin on an empty channel.
    FlushAndSleep,
    /// Write this diagnostic sentinel to the sink and end the loop.
    Stop(String),
    /// The loop is already over; do nothing.
    Halt,
}

/// The writer's state machine: `Terminated` is absorbing; a dequeued command
/// keeps or puts the writer in `Draining`; an empty poll sends it to `Idle`;
/// a disconnected channel terminates it from any state.
pub open spec fn next_writer_state(state: WriterState, event: ChannelEvent) -> WriterState {
    if state is Terminated {
        WriterState::Terminated
    } else {
        match event {
            ChannelEvent::Command(_) => WriterState::Draining,
            ChannelEvent::Empty => WriterState::Idle,
            ChannelEvent::Disconnected => WriterState::Terminated,
        }
    }
}

/// The diagnostic sentinel the writer leaves in the sink when it observes
/// that every sender is gone.
pub fn disconnect_message() -> (r: String)
    ensures
        r@ == "Logging channel disconnected"@,
{
    String::from_str("Logging channel disconnected")
}

/// Realizes one command: a `Msg` is stamped with the current time in the
/// configured clock mode, its deferred formatter is invoked (exactly once;
/// the command is consumed), and the rendered line is handed back for
/// appending; a `Flush` is handed back as a flush-then-acknowledge request
/// carrying the producer's completion channel.
pub fn process_log_command(cmd: LogCommand, utc: bool) -> (op: SinkOp)
    ensures
        cmd matches LogCommand::Msg(m) ==> (op matches SinkOp::Append(s)
            && exists|stamp: Seq<char>, text: Seq<char>| s@ == line_of(stamp, m.level, text)),
        cmd matches LogCommand::Flush(tx) ==> op == SinkOp::AckFlush(tx),
{
    match cmd {
        LogCommand::Msg(meta) => {
            let stamp = current_timestamp(utc);
            let level = meta.level;
            let text = meta.func.invoke();
            let line = format_line(stamp.as_str(), level, text.as_str());
            proof {
                assert(line@ == line_of(stamp@, level, text@));
            }
            SinkOp::Append(line)
        }
        LogCommand::Flush(tx) => SinkOp::AckFlush(tx),
    }
}

/// One step of the writer loop: from the current state and the outcome of one
/// channel poll, the next state and the action the loop must take.
pub fn writer_step(state: WriterState, event: ChannelEvent, utc: bool) -> (r: (
    WriterState,
    WriterDirective,
))
    ensures
        r.0 == next_writer_state(state, event),
        state is Terminated ==> r.1 is Halt,
        !(state is Terminated) ==> {
            &&& event matches ChannelEvent::Command(cmd) ==> {
                &&& r.1 matches WriterDirective::Apply(op)
                &&& (cmd matches LogCommand::Msg(m) ==> (op matches SinkOp::Append(s)
                    && exists|stamp: Seq<char>, text: Seq<char>|
                        s@ == line_of(stamp, m.level, text)))
                &&& (cmd matches LogCommand::Flush(tx) ==> op == SinkOp::AckFlush(tx))
            }
            &&& event is Empty ==> r.1 is FlushAndSleep
            &&& event matches ChannelEvent::Disconnected ==> (r.1 matches WriterDirective::Stop(s)
                && s@ == "Logging channel disconnected"@)
        },
{
    match state {
        WriterState::Terminated => (WriterState::Terminated, WriterDirective::Halt),
        _ => match event {
            ChannelEvent::Command(cmd) => (
                WriterState::Draining,
                WriterDirective::Apply(process_log_command(cmd, utc)),
            ),
            ChannelEvent::Empty => (WriterState::Idle, WriterDirective::FlushAndSleep),
            ChannelEvent::Disconnected => (
                WriterState::Terminated,
                WriterDirective::Stop(disconnect_message()),
            ),
        },
    }
}

} // verus!
