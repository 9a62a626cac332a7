//! Trusted boundary to `crossbeam_channel`.
//!
//! The command channel is a multi-producer/single-consumer queue shared
//! between threads, so its contents are not modelled: each wrapper states only
//! what `crossbeam_channel`'s documentation promises of every outcome.

use vstd::prelude::*;
use crate::command::LogCommand;

verus! {

/// The sending half of a `crossbeam_channel` channel.
#[verifier::external_type_specification]
#[verifier::external_body]
#[verifier::reject_recursive_types(T)]
pub struct ExSender<T>(crossbeam_channel::Sender<T>);

/// The receiving half of a `crossbeam_channel` channel.
#[verifier::external_type_specification]
#[verifier::external_body]
#[verifier::reject_recursive_types(T)]
pub struct ExReceiver<T>(crossbeam_channel::Receiver<T>);

/// What one non-blocking poll of the command channel observed. The loop that
/// drives the writer polls the channel and hands the outcome to
/// [`crate::writer::writer_step`]: a dequeued command, an empty channel, or a
/// channel whose every sender has been dropped.
pub enum ChannelEvent {
    /// A command was ready and has been dequeued.
    Command(LogCommand),
    /// No command was ready; senders may still be alive.
    Empty,
    /// The channel is empty and every sender has been dropped.
    Disconnected,
}

/// The capacity the command channel behind this sender was created with:
/// `None` for an unbounded channel, `Some(cap)` for one bounded to `cap`
/// pending commands. Only the two creation wrappers below say anything about
/// it; it is what lets a caller state which kind of channel it opened.
pub uninterp spec fn channel_bound(tx: crossbeam_channel::Sender<LogCommand>) -> Option<usize>;

/// Relies on `crossbeam_channel::unbounded`: creates a command channel of
/// unbounded capacity, so sending into it never blocks.
#[verifier::external_body]
pub(crate) fn command_channel_unbounded() -> (r: (
    crossbeam_channel::Sender<LogCommand>,
    crossbeam_channel::Receiver<LogCommand>,
))
    ensures
        channel_bound(r.0) is None,
{
    crossbeam_channel::unbounded()
}

/// Relies on `crossbeam_channel::bounded`: creates a command channel holding
/// at most `cap` pending commands; a send into a full channel blocks until a
/// slot frees up. A capacity of zero would create a rendezvous channel
/// instead, so it is excluded here.
#[verifier::external_body]
pub(crate) fn command_channel_bounded(cap: usize) -> (r: (
    crossbeam_channel::Sender<LogCommand>,
    crossbeam_channel::Receiver<LogCommand>,
))
    requires
        cap >= 1,
    ensures
        channel_bound(r.0) == Some(cap),
{
    crossbeam_channel::bounded(cap)
}

/// Relies on `crossbeam_channel::bounded` with capacity 1: the single-slot
/// completion channel a flush barrier blocks on.
#[verifier::external_body]
pub(crate) fn signal_channel() -> (r: (
    crossbeam_channel::Sender<()>,
    crossbeam_channel::Receiver<()>,
)) {
    crossbeam_channel::bounded(1)
}

/// Relies on `crossbeam_channel::Sender::send`: delivers `msg` into the
/// channel, blocking while a bounded channel is full, and fails only when
/// every receiver has been dropped, in which case the undelivered message
/// comes back to the caller.
#[verifier::external_body]
pub(crate) fn channel_send<T>(tx: &crossbeam_channel::Sender<T>, msg: T) -> (r: Result<(), T>)
    ensures
        r matches Err(m) ==> m == msg,
{
    match tx.send(msg) {
        Ok(()) => Ok(()),
        Err(crossbeam_channel::SendError(m)) => Err(m),
    }
}

/// Relies on `crossbeam_channel::Receiver::recv`: blocks until a message
/// arrives (returned as `Some`) or until the channel is empty with every
/// sender dropped (`None`).
#[verifier::external_body]
pub(crate) fn channel_recv<T>(rx: &crossbeam_channel::Receiver<T>) -> (r: Option<T>) {
    match rx.recv() {
        Ok(v) => Some(v),
        Err(crossbeam_channel::RecvError) => None,
    }
}

} // verus!
