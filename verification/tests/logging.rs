use logflume::ChannelEvent;
use logflume::Level;
use logflume::LogCommand;
use logflume::Logger;
use logflume::LoggerError;
use logflume::LoggingFunc;
use logflume::SinkOp;
use logflume::format_line;
use logflume::process_log_command;

use std::sync::Arc;
use std::sync::atomic::AtomicUsize;
use std::sync::atomic::Ordering;

/// One non-blocking poll of the command channel, as an event for the core.
fn poll(rx: &crossbeam_channel::Receiver<LogCommand>) -> ChannelEvent {
    match rx.try_recv() {
        Ok(cmd) => ChannelEvent::Command(cmd),
        Err(crossbeam_channel::TryRecvError::Empty) => ChannelEvent::Empty,
        Err(crossbeam_channel::TryRecvError::Disconnected) => ChannelEvent::Disconnected,
    }
}

/// Drains every command currently in the channel into an in-memory sink,
/// exactly as the writer loop applies the writer's directives to the file.
fn drain_to_string(rx: &crossbeam_channel::Receiver<LogCommand>, utc: bool) -> String {
    let mut out = String::new();
    loop {
        match poll(rx) {
            ChannelEvent::Command(cmd) => match process_log_command(cmd, utc) {
                SinkOp::Append(line) => out.push_str(&line),
                SinkOp::AckFlush(ack) => {
                    let _ = ack.send(());
                }
            },
            ChannelEvent::Empty => break,
            ChannelEvent::Disconnected => break,
        }
    }
    out
}

#[test]
fn severity_filter_ordering() {
    assert!(Level::Debug.passes(Level::Debug));
    assert!(Level::Info.passes(Level::Debug));
    assert!(!Level::Debug.passes(Level::Info));
    assert!(Level::Warn.passes(Level::Info));
    assert!(Level::Error.passes(Level::Info));
    assert!(!Level::Info.passes(Level::Warn));
    assert!(Level::Error.passes(Level::Error));
    assert!(!Level::Warn.passes(Level::Error));
}

#[test]
fn level_labels() {
    assert_eq!(Level::Debug.as_str(), "DEBUG");
    assert_eq!(Level::Info.as_str(), "INFO");
    assert_eq!(Level::Warn.as_str(), "WARN");
    assert_eq!(Level::Error.as_str(), "ERROR");
}

#[test]
fn line_format_exact() {
    let line = format_line("2020-01-01 00:00:00", Level::Info, "x=1");
    assert_eq!(line, "2020-01-01 00:00:00 [INFO] x=1\n");
    let line = format_line("", Level::Error, "");
    assert_eq!(line, " [ERROR] \n");
}

#[test]
fn thunk_invoked_exactly_once_by_consumer() {
    let calls = Arc::new(AtomicUsize::new(0));
    let seen = calls.clone();
    let func = LoggingFunc::new(move || {
        seen.fetch_add(1, Ordering::SeqCst);
        String::from("hello")
    });
    // Building the record must not run the formatter: the producer pays only
    // for capturing the closure.
    assert_eq!(calls.load(Ordering::SeqCst), 0);
    let text = func.invoke();
    assert_eq!(text, "hello");
    assert_eq!(calls.load(Ordering::SeqCst), 1);
    // `invoke` consumed the record, so a second invocation cannot be written.
}

#[test]
fn deferred_formatting_happens_at_drain_time() {
    let calls = Arc::new(AtomicUsize::new(0));
    let seen = calls.clone();
    let (lg, rx) = Logger::new().level(Level::Debug).open_channel();
    lg.log(
        Level::Info,
        LoggingFunc::new(move || {
            seen.fetch_add(1, Ordering::SeqCst);
            String::from("deferred")
        }),
    )
    .unwrap();
    // Enqueued but not yet realized.
    assert_eq!(calls.load(Ordering::SeqCst), 0);
    let out = drain_to_string(&rx, false);
    assert_eq!(calls.load(Ordering::SeqCst), 1);
    assert!(out.contains("deferred"));
}

#[test]
fn builder_defaults() {
    let lg = Logger::new();
    assert_eq!(lg.cpu, None);
    assert_eq!(lg.buffer_size, 0);
    assert!(lg.file_path.is_none());
    assert_eq!(lg.filter_level, Level::Info);
    assert!(!lg.utc_time);
    assert_eq!(lg.sleep_duration_millis, 100);
    assert_eq!(lg.thread_name, "logflume - Rust logging library");
    assert!(lg.sender.is_none());
}

#[test]
fn builder_setters() {
    let lg = Logger::new()
        .level(Level::Error)
        .cpu(2)
        .buffer_size(16)
        .file("t.log")
        .utc_time(true)
        .sleep_duration_millis(5)
        .thread_name("writer");
    assert_eq!(lg.cpu, Some(2));
    assert_eq!(lg.buffer_size, 16);
    assert_eq!(lg.file_path.as_deref(), Some("t.log"));
    assert_eq!(lg.filter_level, Level::Error);
    assert!(lg.utc_time);
    assert_eq!(lg.sleep_duration_millis, 5);
    assert_eq!(lg.thread_name, "writer");
}

#[test]
fn two_messages_one_filtered() {
    // The scenario: severity filter Info, unbounded channel; two Info
    // messages and one Debug message, then a drain. The output holds exactly
    // two lines, ending in "x=1" and "y=2", and no line mentions "skip".
    let (lg, rx) = Logger::new().level(Level::Info).file("t.log").open_channel();
    lg.log(Level::Info, LoggingFunc::new(|| String::from("x=1"))).unwrap();
    lg.log(Level::Info, LoggingFunc::new(|| String::from("y=2"))).unwrap();
    lg.log(Level::Debug, LoggingFunc::new(|| String::from("skip"))).unwrap();
    let out = drain_to_string(&rx, false);
    let lines: Vec<&str> = out.lines().collect();
    assert_eq!(lines.len(), 2);
    assert!(lines[0].ends_with("x=1"));
    assert!(lines[1].ends_with("y=2"));
    assert!(!out.contains("skip"));
    assert!(lines[0].contains("[INFO]"));
}

#[test]
fn messages_below_filter_never_reach_channel() {
    let (lg, rx) = Logger::new().level(Level::Warn).open_channel();
    lg.log(Level::Debug, LoggingFunc::new(|| String::from("a"))).unwrap();
    lg.log(Level::Info, LoggingFunc::new(|| String::from("b"))).unwrap();
    // Nothing passed the filter, so the channel never saw a command.
    assert!(matches!(poll(&rx), ChannelEvent::Empty));
    lg.log(Level::Error, LoggingFunc::new(|| String::from("c"))).unwrap();
    let out = drain_to_string(&rx, false);
    assert_eq!(out.lines().count(), 1);
    assert!(out.lines().next().unwrap().ends_with("c"));
}

#[test]
fn fifo_order_is_preserved() {
    let (lg, rx) = Logger::new().level(Level::Debug).open_channel();
    for i in 0..100u32 {
        let i_copy = i;
        lg.log(Level::Info, LoggingFunc::new(move || format!("msg-{}", i_copy))).unwrap();
    }
    let out = drain_to_string(&rx, false);
    let lines: Vec<&str> = out.lines().collect();
    assert_eq!(lines.len(), 100);
    for (i, line) in lines.iter().enumerate() {
        assert!(line.ends_with(&format!("msg-{}", i)));
    }
}

#[test]
fn unbounded_log_never_blocks() {
    // With buffer_size = 0 the channel is unbounded: a long burst of logs
    // with no consumer returns promptly instead of blocking on capacity.
    let (lg, rx) = Logger::new().level(Level::Debug).buffer_size(0).open_channel();
    for _ in 0..10_000u32 {
        lg.log(Level::Info, LoggingFunc::new(|| String::from("burst"))).unwrap();
    }
    let out = drain_to_string(&rx, false);
    assert_eq!(out.lines().count(), 10_000);
}

#[test]
fn flush_command_acknowledged_after_sink_flush() {
    // The writer acknowledges a flush only after applying it to the sink: the
    // directive hands back the producer's completion channel, and the signal
    // arrives there once sent.
    let (ack_tx, ack_rx) = crossbeam_channel::bounded::<()>(1);
    let op = process_log_command(LogCommand::Flush(ack_tx), false);
    match op {
        SinkOp::AckFlush(tx) => {
            assert!(ack_rx.try_recv().is_err());
            tx.send(()).unwrap();
            assert_eq!(ack_rx.recv(), Ok(()));
        }
        SinkOp::Append(_) => panic!("a flush command must not append"),
    }
}

#[test]
fn log_and_flush_are_noops_before_a_channel_is_open() {
    let lg = Logger::new();
    lg.log(Level::Error, LoggingFunc::new(|| String::from("dropped"))).unwrap();
    lg.flush();
}

#[test]
fn error_message_text() {
    assert_eq!(
        LoggerError::InitialisationError.message(),
        "Error during initialisation"
    );
    assert_eq!(
        LoggerError::SendOnClosedChannel.message(),
        "Send on closed logging channel"
    );
}

#[test]
fn admission_follows_the_filter() {
    let lg = Logger::new().level(Level::Warn);
    assert!(lg
        .admission(Level::Info, LoggingFunc::new(|| String::from("quiet")))
        .is_none());
    match lg.admission(Level::Error, LoggingFunc::new(|| String::from("loud"))) {
        Some(LogCommand::Msg(m)) => {
            assert_eq!(m.level, Level::Error);
            assert_eq!(m.func.invoke(), "loud");
        }
        _ => panic!("a passing record must become a Msg command unchanged"),
    }
}

#[test]
fn send_on_closed_channel_is_surfaced() {
    let (lg, rx) = Logger::new().level(Level::Debug).open_channel();
    drop(rx);
    let r = lg.log(Level::Error, LoggingFunc::new(|| String::from("late")));
    assert_eq!(r, Err(LoggerError::SendOnClosedChannel));
}

#[test]
fn open_channel_respects_buffer_size() {
    // The capacity the channel reports is the one the configuration asked
    // for: none (unbounded) for 0, exactly N otherwise.
    let (lg, rx) = Logger::new().buffer_size(0).open_channel();
    assert_eq!(rx.capacity(), None);
    assert_eq!(lg.sender.as_ref().unwrap().capacity(), None);
    let (lg, rx) = Logger::new().buffer_size(3).open_channel();
    assert_eq!(rx.capacity(), Some(3));
    assert_eq!(lg.sender.as_ref().unwrap().capacity(), Some(3));
}

#[test]
fn flush_request_carries_the_completion_channel() {
    let (ack_tx, ack_rx) = crossbeam_channel::bounded::<()>(1);
    match LogCommand::flush_request(ack_tx) {
        LogCommand::Flush(tx) => {
            tx.send(()).unwrap();
            assert_eq!(ack_rx.recv(), Ok(()));
        }
        LogCommand::Msg(_) => panic!("a flush request must be a Flush command"),
    }
}

#[test]
fn validated_file_path_demands_a_file() {
    let lg = Logger::new();
    assert_eq!(
        lg.validated_file_path(),
        Err(LoggerError::InitialisationError)
    );
    let lg = lg.file("t.log");
    assert_eq!(lg.validated_file_path(), Ok(String::from("t.log")));
}

#[test]
fn test_log() {
    // The in-flight record stays small: a severity plus the boxed formatter.
    assert_eq!(std::mem::size_of::<logflume::LogMetaData>(), 24);
}

#[test]
fn utc_and_local_timestamps_render() {
    let (lg, rx) = Logger::new().level(Level::Debug).utc_time(true).open_channel();
    lg.log(Level::Warn, LoggingFunc::new(|| String::from("utc line"))).unwrap();
    let out = drain_to_string(&rx, true);
    let line = out.lines().next().unwrap();
    assert!(line.ends_with("utc line"));
    assert!(line.contains("[WARN]"));
    // The timestamp precedes the level label.
    let stamp = &line[..line.find(" [WARN] ").unwrap()];
    assert!(!stamp.is_empty());
}
