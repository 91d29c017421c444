use desktop_ipc::client::{Client, ClientInput, ClientMessage};
use desktop_ipc::framing::{read_frame, ByteOrder, FrameDecoder};
use desktop_ipc::server::{IpcContext, Message, MessageType, Server};

fn connected(server: &mut Server<&'static str>, writer: &'static str) -> u32 {
    let event = server.accept(writer).unwrap();
    assert_eq!(event.kind, MessageType::Connected);
    assert_eq!(event.message, "Connected");
    event.client_id
}

#[test]
fn client_ids_start_at_one_and_increase() {
    let mut server = Server::new();
    assert_eq!(connected(&mut server, "a"), 1);
    assert_eq!(connected(&mut server, "b"), 2);
    assert_eq!(connected(&mut server, "c"), 3);
    assert_eq!(server.recipients(), vec![1, 2, 3]);
    assert_eq!(server.connection_count(), 3);
}

#[test]
fn client_ids_are_never_reused() {
    let mut server = Server::new();
    assert_eq!(connected(&mut server, "a"), 1);
    assert!(server.read_failed(1).is_some());
    assert_eq!(connected(&mut server, "b"), 2);
    assert!(server.write_failed(2).is_some());
    assert_eq!(connected(&mut server, "c"), 3);
    assert_eq!(server.recipients(), vec![3]);
}

#[test]
fn two_clients_connect_and_the_first_disconnects() {
    let mut server = Server::new();
    assert_eq!(connected(&mut server, "first"), 1);
    assert_eq!(connected(&mut server, "second"), 2);

    let event = server.read_failed(1).unwrap();
    assert_eq!(event.client_id, 1);
    assert_eq!(event.kind, MessageType::Disconnected);
    assert_eq!(event.message, "Disconnected");

    assert!(!server.is_connected(1));
    assert!(server.is_connected(2));
    assert_eq!(server.writer(2), Some(&"second"));
    assert_eq!(server.writer(1), None);
    let event = server.frame_read(2, "still here".to_owned()).unwrap();
    assert_eq!(event.client_id, 2);
    assert_eq!(event.kind, MessageType::Message);
    assert_eq!(event.message, "still here");
}

#[test]
fn disconnected_fires_at_most_once() {
    let mut server = Server::new();
    connected(&mut server, "a");
    assert!(server.read_failed(1).is_some());
    assert!(server.read_failed(1).is_none());
    assert!(server.write_failed(1).is_none());
    assert!(server.read_failed(7).is_none());
}

#[test]
fn no_payload_after_disconnected() {
    let mut server = Server::new();
    connected(&mut server, "a");
    assert!(server.frame_read(1, "x".to_owned()).is_some());
    assert!(server.write_failed(1).is_some());
    assert!(server.frame_read(1, "y".to_owned()).is_none());
    assert!(server.frame_read(2, "z".to_owned()).is_none());
}

#[test]
fn broadcast_survives_a_failed_write() {
    let mut server = Server::new();
    connected(&mut server, "one");
    connected(&mut server, "two");
    connected(&mut server, "three");

    let broadcast = server.send_all("ok", ByteOrder::Big).unwrap();
    assert_eq!(broadcast.attempted_count(), 3);
    assert_eq!(broadcast.recipients, vec![1, 2, 3]);
    assert_eq!(broadcast.frame, vec![0, 0, 0, 2, b'o', b'k']);

    let mut delivered = Vec::new();
    for id in broadcast.recipients.iter().copied() {
        let writer = *server.writer(id).unwrap();
        if writer == "two" {
            let event = server.write_failed(id).unwrap();
            assert_eq!(event.client_id, 2);
            assert_eq!(event.kind, MessageType::Disconnected);
        } else {
            delivered.push(writer);
        }
    }
    assert_eq!(delivered, vec!["one", "three"]);
    assert_eq!(broadcast.attempted_count(), 3);
    assert_eq!(server.recipients(), vec![1, 3]);
    assert_eq!(server.writer(1), Some(&"one"));
    assert_eq!(server.writer(3), Some(&"three"));
    assert_eq!(server.send_all("again", ByteOrder::Big).unwrap().attempted_count(), 2);
}

#[test]
fn broadcast_without_clients_attempts_nothing() {
    let server: Server<u8> = Server::new();
    let broadcast = server.send_all("ok", ByteOrder::Little).unwrap();
    assert_eq!(broadcast.attempted_count(), 0);
    assert_eq!(broadcast.frame, vec![2, 0, 0, 0, b'o', b'k']);
}

#[test]
fn stop_drops_every_connection_and_refuses_new_ones() {
    let mut server = Server::new();
    connected(&mut server, "a");
    connected(&mut server, "b");
    assert!(server.is_running());
    assert_eq!(server.stop(), 2);
    assert!(!server.is_running());
    assert_eq!(server.connection_count(), 0);
    assert_eq!(server.accept("c").unwrap_err(), "c");
    assert!(server.read_failed(1).is_none());
    assert!(server.frame_read(2, "x".to_owned()).is_none());
    assert_eq!(server.stop(), 0);
}

#[test]
fn message_constructors_fill_every_field() {
    let m = Message::connected(4);
    assert_eq!((m.client_id, m.kind, m.message.as_str()), (4, MessageType::Connected, "Connected"));
    let m = Message::disconnected(5);
    assert_eq!(
        (m.client_id, m.kind, m.message.as_str()),
        (5, MessageType::Disconnected, "Disconnected")
    );
    let m = Message::payload(6, "body".to_owned());
    assert_eq!((m.client_id, m.kind, m.message.as_str()), (6, MessageType::Message, "body"));
}

#[test]
fn one_client_sends_and_the_server_broadcasts() {
    let order = ByteOrder::native();
    let mut server: Server<Vec<u8>> = Server::new();
    let mut client = Client::new(order);

    // the client connects; the server accepts it as client 1
    assert!(matches!(client.handle(ClientInput::ConnectSucceeded), Some(ClientMessage::Connected)));
    let event = server.accept(Vec::new()).unwrap();
    assert_eq!((event.client_id, event.kind), (1, MessageType::Connected));

    // the client sends {"a":1}; the server reads one frame from the wire
    let wire = client.outgoing("{\"a\":1}").unwrap().unwrap();
    let mut decoder = FrameDecoder::new(order);
    decoder.feed(&wire);
    let body = String::from_utf8(decoder.next_frame().unwrap()).unwrap();
    let event = server.frame_read(1, body).unwrap();
    assert_eq!(event.client_id, 1);
    assert_eq!(event.kind, MessageType::Message);
    assert_eq!(event.message, "{\"a\":1}");

    // the server broadcasts "ok"; the client reads it
    let broadcast = server.send_all("ok", order).unwrap();
    assert_eq!(broadcast.recipients, vec![1]);
    let body = String::from_utf8(read_frame(&broadcast.frame, order).unwrap()).unwrap();
    match client.frame_read(body) {
        Some(ClientMessage::Payload(text)) => assert_eq!(text, "ok"),
        _ => panic!("expected a payload"),
    }
}

#[test]
fn ipc_context_hands_out_the_latest_first() {
    let mut context = IpcContext::new();
    assert_eq!(context.next_message(), None);
    context.send("one".to_owned());
    context.send("two".to_owned());
    assert_eq!(context.next_message(), Some("two".to_owned()));
    assert_eq!(context.next_message(), Some("one".to_owned()));
    assert_eq!(context.next_message(), None);
}
