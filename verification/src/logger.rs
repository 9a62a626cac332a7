//! The logger handle: configuration builder and the producer-side entry
//! points `log` and `flush`.

use vstd::prelude::*;
use vstd::string::*;
use crate::channel::channel_bound;
use crate::channel::channel_recv;
use crate::channel::channel_send;
use crate::channel::command_channel_bounded;
use crate::channel::command_channel_unbounded;
use crate::channel::signal_channel;
use crate::command::LogCommand;
use crate::command::LogMetaData;
use crate::level::Level;
use crate::record::LoggingFunc;

verus! {

/// What can go wrong at the producer's side: setup failed (the output file
/// could not be created, the configuration named no file, or a logger was
/// already installed), or a record was submitted after every receiver of the
/// command channel was gone.
#[derive(Clone, Copy, PartialEq, Eq, Structural, Debug)]
pub enum LoggerError {
    InitialisationError,
    SendOnClosedChannel,
}

impl LoggerError {
    /// A human-readable description of the failure.
    pub fn message(self) -> (r: &'static str)
        ensures
            self is InitialisationError ==> r@ == "Error during initialisation"@,
            self is SendOnClosedChannel ==> r@ == "Send on closed logging channel"@,
    {
        match self {
            LoggerError::InitialisationError => "Error during initialisation",
            LoggerError::SendOnClosedChannel => "Send on closed logging channel",
        }
    }
}

/// The logger's configuration and, once a channel is open, the sending half
/// of the command channel.
///
/// Built fluently: `Logger::new()` gives the defaults, the setters replace one
/// option each, and the embedding binary's initialization consumes the builder
/// after [`Logger::open_channel`] has connected it to a writer.
pub struct Logger {
    /// Logical core the writer thread pins itself to, if any.
    pub cpu: Option<usize>,
    /// Channel capacity: 0 is unbounded; N > 0 bounds the pending commands to
    /// N, blocking producers when full.
    pub buffer_size: usize,
    /// Path of the output file, created (truncating) at initialization.
    pub file_path: Option<String>,
    /// Severity filter: messages less severe than this never reach the
    /// channel.
    pub filter_level: Level,
    /// Clock mode for timestamps: UTC when set, local time otherwise.
    pub utc_time: bool,
    /// How long the writer sleeps after finding the channel empty.
    pub sleep_duration_millis: u64,
    /// Name given to the writer thread, for diagnostics.
    pub thread_name: String,
    /// The sending half of the command channel, once open.
    pub sender: Option<crossbeam_channel::Sender<LogCommand>>,
}

impl Logger {
    /// The default configuration: severity filter `Info`, unbounded channel,
    /// no file, local time, no pinning, 100 ms idle sleep, and no channel
    /// open yet.
    pub fn new() -> (r: Logger)
        ensures
            r.cpu is None,
            r.buffer_size == 0,
            r.file_path is None,
            r.filter_level == Level::Info,
            r.utc_time == false,
            r.sleep_duration_millis == 100,
            r.thread_name@ == "logflume - Rust logging library"@,
            r.sender is None,
    {
        Logger {
            cpu: None,
            buffer_size: 0,
            file_path: None,
            filter_level: Level::Info,
            utc_time: false,
            sleep_duration_millis: 100,
            thread_name: String::from_str("logflume - Rust logging library"),
            sender: None,
        }
    }

    /// Replaces the severity filter.
    pub fn level(self, filter: Level) -> (r: Logger)
        ensures
            r == (Logger { filter_level: filter, ..self }),
    {
        Logger { filter_level: filter, ..self }
    }

    /// Pins the writer thread to the given logical core.
    pub fn cpu(self, cpu: usize) -> (r: Logger)
        ensures
            r == (Logger { cpu: Some(cpu), ..self }),
    {
        Logger { cpu: Some(cpu), ..self }
    }

    /// Replaces the channel capacity: 0 for unbounded, N > 0 to block
    /// producers once N commands are pending.
    pub fn buffer_size(self, buf_size: usize) -> (r: Logger)
        ensures
            r == (Logger { buffer_size: buf_size, ..self }),
    {
        Logger { buffer_size: buf_size, ..self }
    }

    /// Replaces the output file path.
    pub fn file(self, file: &str) -> (r: Logger)
        ensures
            r.file_path matches Some(p) && p@ == file@,
            r == (Logger { file_path: r.file_path, ..self }),
    {
        Logger { file_path: Some(String::from_str(file)), ..self }
    }

    /// Selects UTC or local timestamps.
    pub fn utc_time(self, b: bool) -> (r: Logger)
        ensures
            r == (Logger { utc_time: b, ..self }),
    {
        Logger { utc_time: b, ..self }
    }

    /// Replaces the idle backoff: how long the writer sleeps when it finds
    /// the channel empty.
    pub fn sleep_duration_millis(self, millis: u64) -> (r: Logger)
        ensures
            r == (Logger { sleep_duration_millis: millis, ..self }),
    {
        Logger { sleep_duration_millis: millis, ..self }
    }

    /// Replaces the writer thread's name.
    pub fn thread_name(self, name: &str) -> (r: Logger)
        ensures
            r.thread_name@ == name@,
            r == (Logger { thread_name: r.thread_name, ..self }),
    {
        Logger { thread_name: String::from_str(name), ..self }
    }

    /// The configured output path, to be created (truncating) at
    /// initialization — or the setup error when the configuration names no
    /// file.
    pub fn validated_file_path(&self) -> (r: Result<String, LoggerError>)
        ensures
            r matches Ok(p) ==> (self.file_path matches Some(q) && p@ == q@),
            r is Err <==> self.file_path is None,
            r matches Err(e) ==> e == LoggerError::InitialisationError,
    {
        match &self.file_path {
            Some(p) => Ok(p.clone()),
            None => Err(LoggerError::InitialisationError),
        }
    }

    /// Opens the command channel this configuration calls for — unbounded
    /// exactly when `buffer_size` is 0, bounded to `buffer_size` pending
    /// commands otherwise — stores the sending half in the handle and returns
    /// the receiving half for the writer thread. Every other option is kept
    /// as configured.
    pub fn open_channel(self) -> (r: (Logger, crossbeam_channel::Receiver<LogCommand>))
        ensures
            r.0 == (Logger { sender: r.0.sender, ..self }),
            r.0.sender matches Some(tx)
                && (channel_bound(tx) is None <==> self.buffer_size == 0)
                && (self.buffer_size != 0 ==> channel_bound(tx) == Some(self.buffer_size)),
    {
        let (tx, rx) = if self.buffer_size == 0 {
            command_channel_unbounded()
        } else {
            command_channel_bounded(self.buffer_size)
        };
        (Logger { sender: Some(tx), ..self }, rx)
    }

    /// The admission decision of [`Logger::log`]: a record at least as severe
    /// as the configured filter becomes the `Msg` command to enqueue,
    /// carrying the severity and the record unchanged; anything below the
    /// filter is discarded here, before the channel ever sees it.
    pub fn admission(&self, level: Level, func: LoggingFunc) -> (r: Option<LogCommand>)
        ensures
            r is Some <==> level.spec_passes(self.filter_level),
            r matches Some(cmd) ==> (cmd matches LogCommand::Msg(m)
                && m.level == level && m.func == func),
    {
        if level.passes(self.filter_level) {
            Some(LogCommand::Msg(LogMetaData { level, func }))
        } else {
            None
        }
    }

    /// Submits one record: enqueues exactly the command [`Logger::admission`]
    /// yields, when it yields one. On a bounded channel at capacity the
    /// enqueue blocks until the writer frees a slot; the record is never
    /// dropped for lack of space. A filtered record, or one submitted before
    /// a channel is open, is a successful no-op; the one failure is a send
    /// after every receiver is gone, surfaced as `SendOnClosedChannel` rather
    /// than dropped or panicked on.
    pub fn log(&self, level: Level, func: LoggingFunc) -> (r: Result<(), LoggerError>)
        ensures
            r matches Err(e) ==> e == LoggerError::SendOnClosedChannel,
            !level.spec_passes(self.filter_level) ==> r is Ok,
            self.sender is None ==> r is Ok,
    {
        match self.admission(level, func) {
            Some(cmd) => match &self.sender {
                Some(tx) => match channel_send(tx, cmd) {
                    Ok(()) => Ok(()),
                    Err(_) => Err(LoggerError::SendOnClosedChannel),
                },
                None => Ok(()),
            },
            None => Ok(()),
        }
    }

    /// The flush barrier: enqueues the `Flush` command built by
    /// [`LogCommand::flush_request`] over a fresh single-slot completion
    /// channel and blocks until the writer, having drained every command
    /// enqueued before it and flushed the sink, signals completion — or until
    /// the signal channel reports the writer gone. Before a channel is open
    /// this is a no-op.
    pub fn flush(&self) {
        match &self.sender {
            Some(tx) => {
                let (ack_tx, ack_rx) = signal_channel();
                let sent = channel_send(tx, LogCommand::flush_request(ack_tx));
                match sent {
                    Ok(()) => {
                        let _ = channel_recv(&ack_rx);
                    }
                    Err(_) => {}
                }
            }
            None => {}
        }
    }
}

} // verus!
