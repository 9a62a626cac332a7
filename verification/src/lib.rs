//! An in-process asynchronous logging core.
//!
//! Application threads submit leveled messages whose formatting is deferred
//! behind a [`LoggingFunc`] thunk; a single dedicated writer thread (run by an
//! embedding binary) drains a command channel, renders each record and
//! persists it to a file. This crate holds the verified core: the severity
//! filter, the lazy record, the command protocol, the line renderer, the
//! writer's decision logic, and the blocking flush barrier.

pub mod channel;
pub mod clock;
pub mod command;
pub mod level;
pub mod line;
pub mod logger;
pub mod model;
pub mod record;
pub mod writer;

pub use channel::ChannelEvent;
pub use command::LogCommand;
pub use command::LogMetaData;
pub use level::Level;
pub use line::format_line;
pub use logger::Logger;
pub use logger::LoggerError;
pub use record::LoggingFunc;
pub use writer::SinkOp;
pub use writer::WriterDirective;
pub use writer::WriterState;
pub use writer::disconnect_message;
pub use writer::process_log_command;
pub use writer::writer_step;
