use desktop_ipc::client::{
    Client, ClientInput, ClientMessage, ClientState, Directive, IpcClient, IpcError,
    MessageCallback, BACKOFF_SECS,
};
use desktop_ipc::framing::ByteOrder;
use std::sync::Mutex;

#[test]
fn client_retries_until_a_listener_answers() {
    let mut client = Client::new(ByteOrder::Little);
    let mut events = Vec::new();
    assert_eq!(client.directive(), Directive::Connect);

    // no listener: the attempt fails, the client backs off
    events.extend(client.handle(ClientInput::ConnectFailed));
    assert_eq!(client.state(), ClientState::Waiting);
    assert_eq!(client.directive(), Directive::Sleep(5));
    events.extend(client.handle(ClientInput::BackoffElapsed));
    assert_eq!(client.directive(), Directive::Connect);

    // still none
    events.extend(client.handle(ClientInput::ConnectFailed));
    events.extend(client.handle(ClientInput::BackoffElapsed));
    assert!(events.is_empty());

    // the listener started: the attempt succeeds
    events.extend(client.handle(ClientInput::ConnectSucceeded));
    assert_eq!(client.state(), ClientState::Connected);
    assert_eq!(client.directive(), Directive::Serve);
    events.extend(client.handle(ClientInput::ConnectSucceeded));
    events.extend(client.handle(ClientInput::BackoffElapsed));
    assert_eq!(events.len(), 1);
    assert!(matches!(events[0], ClientMessage::Connected));
}

#[test]
fn backoff_is_five_seconds() {
    assert_eq!(BACKOFF_SECS, 5);
}

#[test]
fn lost_connection_is_reported_once_and_retried() {
    let mut client = Client::new(ByteOrder::Little);
    client.handle(ClientInput::ConnectSucceeded);
    assert!(matches!(client.handle(ClientInput::ReadFailed), Some(ClientMessage::Disconnected)));
    assert_eq!(client.state(), ClientState::Waiting);
    assert!(client.handle(ClientInput::ReadFailed).is_none());
    assert!(client.frame_read("late".to_owned()).is_none());
    assert!(client.handle(ClientInput::BackoffElapsed).is_none());
    assert_eq!(client.state(), ClientState::Connecting);
    assert!(matches!(client.handle(ClientInput::ConnectSucceeded), Some(ClientMessage::Connected)));
}

#[test]
fn failed_write_ends_the_connection_like_a_failed_read() {
    let mut client = Client::new(ByteOrder::Little);
    assert!(client.handle(ClientInput::WriteFailed).is_none());
    assert_eq!(client.state(), ClientState::Connecting);
    client.handle(ClientInput::ConnectSucceeded);
    assert!(matches!(client.handle(ClientInput::WriteFailed), Some(ClientMessage::Disconnected)));
    assert_eq!(client.state(), ClientState::Waiting);
    assert_eq!(client.directive(), Directive::Sleep(5));
    assert!(client.handle(ClientInput::WriteFailed).is_none());
    assert!(client.handle(ClientInput::ReadFailed).is_none());
    assert_eq!(client.outgoing("late"), Ok(None));
    client.handle(ClientInput::BackoffElapsed);
    assert!(matches!(client.handle(ClientInput::ConnectSucceeded), Some(ClientMessage::Connected)));
}

#[test]
fn stopped_client_stays_stopped() {
    for before in [
        Vec::new(),
        vec![ClientInput::ConnectSucceeded],
        vec![ClientInput::ConnectFailed],
    ] {
        let mut client = Client::new(ByteOrder::Big);
        for input in before {
            client.handle(input);
        }
        assert!(client.handle(ClientInput::Stop).is_none());
        assert_eq!(client.state(), ClientState::Stopped);
        assert_eq!(client.directive(), Directive::Halt);
        for input in [
            ClientInput::ConnectSucceeded,
            ClientInput::ConnectFailed,
            ClientInput::BackoffElapsed,
            ClientInput::ReadFailed,
            ClientInput::WriteFailed,
            ClientInput::Stop,
        ] {
            assert!(client.handle(input).is_none());
            assert_eq!(client.state(), ClientState::Stopped);
        }
    }
}

#[test]
fn frames_become_payloads_while_connected() {
    let mut client = Client::new(ByteOrder::Little);
    assert!(client.frame_read("early".to_owned()).is_none());
    client.handle(ClientInput::ConnectSucceeded);
    match client.frame_read("ok".to_owned()) {
        Some(ClientMessage::Payload(body)) => assert_eq!(body, "ok"),
        _ => panic!("expected a payload"),
    }
}

#[test]
fn outbound_messages_are_framed_while_connected() {
    let mut client = Client::new(ByteOrder::Big);
    assert_eq!(client.outgoing("hi"), Ok(None));
    client.handle(ClientInput::ConnectSucceeded);
    assert_eq!(client.outgoing("hi"), Ok(Some(vec![0, 0, 0, 2, b'h', b'i'])));
    client.handle(ClientInput::ReadFailed);
    assert_eq!(client.outgoing("hi"), Ok(None));
}

#[test]
fn notices_for_a_single_peer_bridge() {
    assert_eq!(ClientMessage::Connected.notice(), "{\"command\":\"connected\"}");
    assert_eq!(ClientMessage::Disconnected.notice(), "{\"command\":\"disconnected\"}");
    assert_eq!(ClientMessage::Payload("{\"x\":1}".to_owned()).notice(), "{\"x\":1}");
}

#[test]
fn ipc_client_sends_in_order() {
    let mut client = IpcClient::new();
    assert_eq!(client.queued(), 0);
    assert_eq!(client.next_outgoing(), None);
    client.send("one".to_owned());
    client.send("two".to_owned());
    client.send("three".to_owned());
    assert_eq!(client.queued(), 3);
    assert_eq!(client.next_outgoing(), Some("one".to_owned()));
    assert_eq!(client.next_outgoing(), Some("two".to_owned()));
    client.send("four".to_owned());
    assert_eq!(client.next_outgoing(), Some("three".to_owned()));
    assert_eq!(client.next_outgoing(), Some("four".to_owned()));
    assert_eq!(client.next_outgoing(), None);
}

struct Recorder {
    seen: Mutex<Vec<String>>,
}

impl MessageCallback for Recorder {
    fn message(&self, message: String) {
        self.seen.lock().unwrap().push(message);
    }
}

#[test]
fn callback_gets_queued_messages_in_order() {
    let recorder = Recorder { seen: Mutex::new(Vec::new()) };
    let callback: &dyn MessageCallback = &recorder;
    let mut client = IpcClient::new();
    client.send("a".to_owned());
    client.send("b".to_owned());
    while let Some(message) = client.next_outgoing() {
        callback.message(message);
    }
    assert_eq!(*recorder.seen.lock().unwrap(), vec!["a".to_owned(), "b".to_owned()]);
}

#[test]
fn ipc_error_has_its_text() {
    assert_eq!(IpcError::Test.message(), "test");
}
