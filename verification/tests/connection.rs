use pika_proxy::acceptor::{ListenerEvent, ServePhase};
use pika_proxy::address::BindAddress;
use pika_proxy::config::Config;
use pika_proxy::connection::{
    ack_frame, do_task, HandlerAction, HandlerEvent, HandlerState, RECEIVE_BUFFER_SIZE,
};
use pika_proxy::proxy::{Proxy, ServeAction, ServeEvent};

fn reply(text: &str) -> HandlerAction {
    HandlerAction::Reply { text: Ok(String::from(text)), frame: b"+OK\r\n".to_vec() }
}

fn reply_to_no_text(bytes: &[u8]) -> HandlerAction {
    let error = String::from_utf8(bytes.to_vec()).unwrap_err();
    assert_eq!(error.as_bytes(), bytes);
    HandlerAction::Reply { text: Err(error), frame: b"+OK\r\n".to_vec() }
}

#[test]
fn ack_frame_is_plus_ok_crlf() {
    assert_eq!(ack_frame(), vec![b'+', b'O', b'K', b'\r', b'\n']);
    assert_eq!(ack_frame().len(), 5);
}

#[test]
fn receive_buffer_holds_1024_bytes() {
    assert_eq!(RECEIVE_BUFFER_SIZE, 1024);
}

#[test]
fn ping_is_acknowledged() {
    let (state, action) =
        do_task(HandlerState::Reading, HandlerEvent::Received(b"ping".to_vec()));
    assert_eq!(state, HandlerState::Reading);
    assert_eq!(action, reply("ping"));
}

#[test]
fn invalid_utf8_is_acknowledged_all_the_same() {
    let (state, action) =
        do_task(HandlerState::Reading, HandlerEvent::Received(vec![0xff, 0xfe, 0x00, 0xc0]));
    assert_eq!(state, HandlerState::Reading);
    assert_eq!(action, reply_to_no_text(&[0xff, 0xfe, 0x00, 0xc0]));
    match action {
        HandlerAction::Reply { text, frame } => {
            assert!(text.is_err());
            assert_eq!(frame, vec![0x2b, 0x4f, 0x4b, 0x0d, 0x0a]);
        },
        other => panic!("unexpected action {:?}", other),
    }
}

#[test]
fn overlong_and_surrogate_encodings_are_not_text() {
    for bytes in [vec![0xc0u8, 0x80], vec![0xed, 0xa0, 0x80], vec![0xf4, 0x90, 0x80, 0x80], vec![0xe2, 0x82]] {
        let (state, action) =
            do_task(HandlerState::Reading, HandlerEvent::Received(bytes.clone()));
        assert_eq!(state, HandlerState::Reading);
        assert_eq!(action, reply_to_no_text(&bytes));
    }
}

#[test]
fn multibyte_text_is_decoded() {
    let (state, action) = do_task(
        HandlerState::Reading,
        HandlerEvent::Received(vec![0x68, 0xc3, 0xa9, 0xe2, 0x82, 0xac, 0xf0, 0x9f, 0x98, 0x80]),
    );
    assert_eq!(state, HandlerState::Reading);
    assert_eq!(action, reply("h\u{e9}\u{20ac}\u{1f600}"));
}

#[test]
fn full_buffer_is_acknowledged_with_five_bytes() {
    let (state, action) = do_task(
        HandlerState::Reading,
        HandlerEvent::Received(vec![b'a'; RECEIVE_BUFFER_SIZE]),
    );
    assert_eq!(state, HandlerState::Reading);
    match action {
        HandlerAction::Reply { text, frame } => {
            assert_eq!(frame, b"+OK\r\n".to_vec());
            assert_eq!(text.unwrap().len(), 1024);
        },
        other => panic!("unexpected action {:?}", other),
    }
}

#[test]
fn empty_read_is_retried_without_reply() {
    let (state, action) = do_task(HandlerState::Reading, HandlerEvent::Received(Vec::new()));
    assert_eq!(state, HandlerState::Reading);
    assert_eq!(action, HandlerAction::Read);
}

#[test]
fn read_error_closes_the_handler() {
    let (state, action) = do_task(HandlerState::Reading, HandlerEvent::ReadFailed);
    assert_eq!(state, HandlerState::Closed);
    assert_eq!(action, HandlerAction::Terminate);
}

#[test]
fn write_error_closes_the_handler() {
    let (state, action) = do_task(HandlerState::Reading, HandlerEvent::WriteFailed);
    assert_eq!(state, HandlerState::Closed);
    assert_eq!(action, HandlerAction::Terminate);
}

#[test]
fn completed_write_asks_for_the_next_read() {
    for size in [0usize, 3, 5, usize::MAX] {
        let (state, action) = do_task(HandlerState::Reading, HandlerEvent::Written(size));
        assert_eq!(state, HandlerState::Reading);
        assert_eq!(action, HandlerAction::Read);
    }
}

#[test]
fn closed_handler_stays_closed() {
    let events = [
        HandlerEvent::Received(b"ping".to_vec()),
        HandlerEvent::Received(Vec::new()),
        HandlerEvent::ReadFailed,
        HandlerEvent::Written(5),
        HandlerEvent::WriteFailed,
    ];
    let mut state = HandlerState::Closed;
    for event in events {
        let (next, action) = do_task(state, event);
        assert_eq!(next, HandlerState::Closed);
        assert_eq!(action, HandlerAction::Terminate);
        state = next;
    }
}

#[test]
fn ping_then_empty_read() {
    let state = HandlerState::Reading;
    let (state, action) = do_task(state, HandlerEvent::Received(b"ping".to_vec()));
    assert_eq!(action, reply("ping"));
    let (state, action) = do_task(state, HandlerEvent::Written(5));
    assert_eq!(action, HandlerAction::Read);
    let (state, action) = do_task(state, HandlerEvent::Received(b"".to_vec()));
    assert_eq!(state, HandlerState::Reading);
    assert_eq!(action, HandlerAction::Read);
}

#[test]
fn two_connections_do_not_see_each_other() {
    let first = [
        HandlerEvent::Received(b"one".to_vec()),
        HandlerEvent::Written(5),
        HandlerEvent::Received(vec![0xff]),
        HandlerEvent::Written(5),
    ];
    let second = [
        HandlerEvent::Received(b"two".to_vec()),
        HandlerEvent::WriteFailed,
        HandlerEvent::Received(b"late".to_vec()),
    ];
    let mut alone = Vec::new();
    let mut state = HandlerState::Reading;
    for event in first.to_vec() {
        let (next, action) = do_task(state, event);
        alone.push((next, action));
        state = next;
    }
    let mut interleaved = Vec::new();
    let mut a = HandlerState::Reading;
    let mut b = HandlerState::Reading;
    let mut first_events = first.to_vec().into_iter();
    let mut second_events = second.to_vec().into_iter();
    for turn in [false, true, true, false, false, true, false] {
        if turn {
            let (next, _) = do_task(b, second_events.next().unwrap());
            b = next;
        } else {
            let (next, action) = do_task(a, first_events.next().unwrap());
            interleaved.push((next, action));
            a = next;
        }
    }
    assert_eq!(alone, interleaved);
    assert_eq!(a, HandlerState::Reading);
    assert_eq!(b, HandlerState::Closed);
}

#[test]
fn failing_peer_does_not_stop_the_accept_loop() {
    let address = BindAddress::V4 { octets: [127, 0, 0, 1], port: 0 };
    let config = Config::new(String::from("127.0.0.1:0"), String::from("127.0.0.1:1"), vec![]);
    let mut proxy = Proxy::startup(config, Some(address), Some(address)).unwrap();
    let (phase, _) = proxy.serve_proxy(ServePhase::Idle, ServeEvent::Invoked);
    let (phase, _) = proxy.serve_proxy(phase, ServeEvent::Listener(ListenerEvent::Bound));
    let (phase, action) = proxy.serve_proxy(phase, ServeEvent::Listener(ListenerEvent::Accepted));
    assert_eq!(action, ServeAction::Spawn);
    let handler = HandlerState::Reading;
    let (handler, _) = do_task(handler, HandlerEvent::Received(b"par".to_vec()));
    let (handler, action) = do_task(handler, HandlerEvent::ReadFailed);
    assert_eq!((handler, action), (HandlerState::Closed, HandlerAction::Terminate));
    assert!(!proxy.is_closed());
    let (phase, action) = proxy.serve_proxy(phase, ServeEvent::Listener(ListenerEvent::Accepted));
    assert_eq!((phase, action), (ServePhase::Accepting, ServeAction::Spawn));
    let (state, action) =
        do_task(HandlerState::Reading, HandlerEvent::Received(b"ping".to_vec()));
    assert_eq!(state, HandlerState::Reading);
    assert_eq!(action, reply("ping"));
}
