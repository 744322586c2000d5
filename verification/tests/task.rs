use udp_listener::channel::CancelPoll;
use udp_listener::manager::{finish_start, start_udp_listener, stop_udp_listener, SocketSetup};
use udp_listener::task::{
    check_cancellation, on_receive, should_exit, Received, TaskAction, ERROR_BACKOFF_MILLIS,
    IDLE_POLL_MILLIS, MESSAGE_EVENT, RECEIVE_BUFFER_LEN,
};
use udp_listener::{FileStat, UdpListenerState, UdpMessage};

fn datagram(payload: &[u8], source_address: &str) -> Received {
    Received::Datagram { payload: payload.to_vec(), source_address: source_address.to_string() }
}

fn emitted(action: TaskAction) -> Option<UdpMessage> {
    match action {
        TaskAction::Emit(message) => Some(message),
        _ => None,
    }
}

#[test]
fn timing_and_naming_constants() {
    assert_eq!(IDLE_POLL_MILLIS, 10);
    assert_eq!(ERROR_BACKOFF_MILLIS, 100);
    assert_eq!(RECEIVE_BUFFER_LEN, 1024);
    assert_eq!(MESSAGE_EVENT, "udp_message_received");
}

#[test]
fn only_an_empty_channel_lets_the_task_go_on() {
    assert!(should_exit(CancelPoll::Signalled));
    assert!(!should_exit(CancelPoll::Empty));
    assert!(should_exit(CancelPoll::Closed));
}

#[test]
fn message_keeps_its_two_texts() {
    let message = UdpMessage::new("hello".to_string(), "127.0.0.1:5000".to_string());
    assert_eq!(message.data(), "hello");
    assert_eq!(message.source_address(), "127.0.0.1:5000");
}

#[test]
fn text_datagram_is_emitted_with_its_source() {
    let message = emitted(on_receive(datagram(b"hello", "127.0.0.1:54321"))).unwrap();
    assert_eq!(message.data(), "hello");
    assert_eq!(message.source_address(), "127.0.0.1:54321");
}

#[test]
fn empty_datagram_is_emitted_as_empty_text() {
    let message = emitted(on_receive(datagram(b"", "10.0.0.2:9"))).unwrap();
    assert_eq!(message.data(), "");
    assert_eq!(message.source_address(), "10.0.0.2:9");
}

#[test]
fn multi_byte_text_is_decoded() {
    let text = "héllo 监听器 \u{1F600}";
    let message = emitted(on_receive(datagram(text.as_bytes(), "192.168.1.7:40000"))).unwrap();
    assert_eq!(message.data(), text);
}

#[test]
fn non_utf8_datagram_is_discarded() {
    let action = on_receive(datagram(&[0xff, 0xfe, 0xfd], "127.0.0.1:1234"));
    assert_eq!(action, TaskAction::Discard { source_address: "127.0.0.1:1234".to_string() });
}

#[test]
fn malformed_sequences_are_discarded() {
    let source = "127.0.0.1:1";
    let discard = TaskAction::Discard { source_address: source.to_string() };
    assert_eq!(on_receive(datagram(&[0x80], source)), discard);
    assert_eq!(on_receive(datagram(&[0xe4, 0xbd], source)), discard);
    assert_eq!(on_receive(datagram(&[0xc0, 0x80], source)), discard);
    assert_eq!(on_receive(datagram(&[0xed, 0xa0, 0x80], source)), discard);
    assert_eq!(on_receive(datagram(&[0xf4, 0x90, 0x80, 0x80], source)), discard);
    assert_eq!(on_receive(datagram(&[b'o', b'k', 0xff], source)), discard);
}

#[test]
fn valid_datagram_after_invalid_one_is_still_emitted() {
    let first = on_receive(datagram(&[0xc3, 0x28], "127.0.0.1:7000"));
    assert_eq!(first, TaskAction::Discard { source_address: "127.0.0.1:7000".to_string() });
    let second = on_receive(datagram(b"still here", "127.0.0.1:7000"));
    assert_eq!(
        second,
        TaskAction::Emit(UdpMessage::new("still here".to_string(), "127.0.0.1:7000".to_string()))
    );
}

#[test]
fn idle_socket_sleeps_ten_milliseconds() {
    assert_eq!(on_receive(Received::WouldBlock), TaskAction::Idle { millis: 10 });
}

#[test]
fn failing_socket_backs_off_a_hundred_milliseconds() {
    assert_eq!(on_receive(Received::Failed), TaskAction::BackOff { millis: 100 });
}

#[test]
fn hello_on_port_9999_then_stop() {
    let mut state = UdpListenerState::new();
    let mut pending = start_udp_listener(&mut state, 9999).unwrap();
    assert_eq!(pending.bind_address, "0.0.0.0:9999");
    assert_eq!(finish_start(&mut state, SocketSetup::Ready), Ok(()));

    let mut events: Vec<UdpMessage> = Vec::new();
    assert_eq!(check_cancellation(&mut pending.stop_receiver), (CancelPoll::Empty, false));
    if let TaskAction::Emit(message) = on_receive(datagram(b"hello", "127.0.0.1:49152")) {
        events.push(message);
    }
    assert_eq!(check_cancellation(&mut pending.stop_receiver), (CancelPoll::Empty, false));
    assert_eq!(on_receive(Received::WouldBlock), TaskAction::Idle { millis: 10 });
    assert_eq!(events.len(), 1);
    assert_eq!(events[0].data(), "hello");
    assert_eq!(events[0].source_address(), "127.0.0.1:49152");

    assert_eq!(stop_udp_listener(&mut state), Ok(()));
    let (poll, exit) = check_cancellation(&mut pending.stop_receiver);
    assert_eq!(poll, CancelPoll::Signalled);
    assert!(exit);
    assert_eq!(events.len(), 1);
}

#[test]
fn file_stat_holds_what_it_was_given() {
    let stat = FileStat { is_file: true, is_dir: false, size: 42 };
    assert!(stat.is_file);
    assert!(!stat.is_dir);
    assert_eq!(stat.size, 42);
    assert_eq!(stat, FileStat { is_file: true, is_dir: false, size: 42 });
}
