use tailcall_launchpad::services::github_service::send_error;
use tailcall_launchpad::status::Code;
use tailcall_launchpad::utils::MessageChannel;
use tailcall_launchpad::utils::ProgressEvent;
use tailcall_launchpad::utils::SendResult;
use tailcall_launchpad::AppError;

fn recv_message(channel: &mut MessageChannel) -> String {
    match channel.recv() {
        Some(ProgressEvent::Message(m)) => m,
        Some(ProgressEvent::Terminal(_)) => panic!("unexpected terminal event"),
        None => panic!("unexpected end of stream"),
    }
}

#[test]
fn events_arrive_in_emission_order() {
    let mut channel = MessageChannel::new(8);
    assert_eq!(channel.send_message("one"), SendResult::Sent);
    assert_eq!(channel.send_message("two"), SendResult::Sent);
    assert_eq!(channel.send_message("three"), SendResult::Sent);
    assert_eq!(recv_message(&mut channel), "one");
    assert_eq!(recv_message(&mut channel), "two");
    assert_eq!(recv_message(&mut channel), "three");
    assert!(channel.recv().is_none());
}

#[test]
fn empty_channel_yields_nothing() {
    let mut channel = MessageChannel::new(4);
    assert!(channel.recv().is_none());
    assert_eq!(channel.queued(), 0);
}

#[test]
fn full_channel_send_completes_with_a_consumer_read() {
    let mut channel = MessageChannel::new(2);
    assert_eq!(channel.send_message("one"), SendResult::Sent);
    assert_eq!(channel.send_message("two"), SendResult::Sent);
    assert_eq!(channel.queued(), 2);
    // The queue is at capacity: the third send blocks until the consumer
    // has read "one", so afterwards the queue holds the later two events.
    assert_eq!(channel.send_message("three"), SendResult::Sent);
    assert_eq!(channel.queued(), 2);
    assert_eq!(recv_message(&mut channel), "two");
    assert_eq!(recv_message(&mut channel), "three");
    assert!(channel.recv().is_none());
}

#[test]
fn sends_after_disconnect_are_dropped_not_errors() {
    let mut channel = MessageChannel::new(4);
    assert_eq!(channel.send_message("before"), SendResult::Sent);
    channel.disconnect();
    assert!(!channel.is_connected());
    assert_eq!(channel.send_message("after"), SendResult::Dropped);
    assert_eq!(channel.send_message("later"), SendResult::Dropped);
    // Only the event accepted before the disconnect is queued.
    assert_eq!(channel.queued(), 1);
}

#[test]
fn send_error_emits_single_terminal_event() {
    let mut channel = MessageChannel::new(4);
    let r = send_error(&mut channel, AppError::Simple("deploy failed".to_string()));
    assert_eq!(r, SendResult::Sent);
    match channel.recv() {
        Some(ProgressEvent::Terminal(status)) => {
            assert_eq!(status.code(), Code::Aborted);
            assert_eq!(status.message(), "deploy failed");
        }
        _ => panic!("expected a terminal event"),
    }
    assert!(channel.recv().is_none());
}

#[test]
fn send_error_keeps_conflicts_cancelled() {
    let mut channel = MessageChannel::new(4);
    send_error(
        &mut channel,
        AppError::Conflict("Another update is currently in progress".to_string()),
    );
    match channel.recv() {
        Some(ProgressEvent::Terminal(status)) => {
            assert_eq!(status.code(), Code::Cancelled);
            assert_eq!(status.message(), "Another update is currently in progress");
        }
        _ => panic!("expected a terminal event"),
    }
}

#[test]
fn send_error_masks_io_failures() {
    let mut channel = MessageChannel::new(4);
    send_error(
        &mut channel,
        AppError::IoError("no such file or directory".to_string()),
    );
    match channel.recv() {
        Some(ProgressEvent::Terminal(status)) => {
            assert_eq!(status.code(), Code::Internal);
            assert_eq!(status.message(), "IO Error");
        }
        _ => panic!("expected a terminal event"),
    }
}
