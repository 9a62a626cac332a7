use logflume::ChannelEvent;
use logflume::Level;
use logflume::LogCommand;
use logflume::LogMetaData;
use logflume::LoggingFunc;
use logflume::SinkOp;
use logflume::WriterDirective;
use logflume::WriterState;
use logflume::disconnect_message;
use logflume::writer_step;

#[test]
fn empty_channel_backs_off_instead_of_spinning() {
    let (next, directive) = writer_step(WriterState::Draining, ChannelEvent::Empty, false);
    assert_eq!(next, WriterState::Idle);
    assert!(matches!(directive, WriterDirective::FlushAndSleep));
    let (next, directive) = writer_step(WriterState::Idle, ChannelEvent::Empty, false);
    assert_eq!(next, WriterState::Idle);
    assert!(matches!(directive, WriterDirective::FlushAndSleep));
}

#[test]
fn command_returns_writer_to_draining() {
    let cmd = LogCommand::Msg(LogMetaData {
        level: Level::Info,
        func: LoggingFunc::new(|| String::from("back to work")),
    });
    let (next, directive) = writer_step(WriterState::Idle, ChannelEvent::Command(cmd), false);
    assert_eq!(next, WriterState::Draining);
    match directive {
        WriterDirective::Apply(SinkOp::Append(line)) => {
            assert!(line.ends_with("back to work\n"));
            assert!(line.contains("[INFO]"));
        }
        _ => panic!("a message must be rendered and appended"),
    }
}

#[test]
fn disconnection_terminates_with_sentinel() {
    let (next, directive) = writer_step(WriterState::Draining, ChannelEvent::Disconnected, false);
    assert_eq!(next, WriterState::Terminated);
    match directive {
        WriterDirective::Stop(sentinel) => {
            assert_eq!(sentinel, "Logging channel disconnected");
        }
        _ => panic!("disconnection must stop the loop"),
    }
    assert_eq!(disconnect_message(), "Logging channel disconnected");
}

#[test]
fn terminated_is_absorbing() {
    let (next, directive) = writer_step(WriterState::Terminated, ChannelEvent::Empty, false);
    assert_eq!(next, WriterState::Terminated);
    assert!(matches!(directive, WriterDirective::Halt));
    let (next, directive) = writer_step(WriterState::Terminated, ChannelEvent::Disconnected, true);
    assert_eq!(next, WriterState::Terminated);
    assert!(matches!(directive, WriterDirective::Halt));
}

#[test]
fn flush_routed_through_writer_step() {
    let (ack_tx, ack_rx) = crossbeam_channel::bounded::<()>(1);
    let (next, directive) = writer_step(
        WriterState::Draining,
        ChannelEvent::Command(LogCommand::Flush(ack_tx)),
        false,
    );
    assert_eq!(next, WriterState::Draining);
    match directive {
        WriterDirective::Apply(SinkOp::AckFlush(tx)) => {
            tx.send(()).unwrap();
            assert_eq!(ack_rx.recv(), Ok(()));
        }
        _ => panic!("a flush command must become a flush-then-acknowledge"),
    }
}
