use message_relay::message::ServerMessage;
use message_relay::observer::Recorder;
use message_relay::server::{response_text, DispatchOutcome, MessageServer};
use message_relay::shared::{handle_message, ServerState};

#[test]
fn message_new_sets_content() {
    let m = ServerMessage::new(String::from("hello"));
    assert_eq!(m.content, "hello");
}

#[test]
fn message_with_timestamp_sets_fields() {
    let m = ServerMessage::with_timestamp(String::from("abc"), 42);
    assert_eq!(m.content, "abc");
    assert_eq!(m.timestamp_millis, 42);
}

#[test]
fn duplicate_preserves_message() {
    let m = ServerMessage::with_timestamp(String::from("abc"), 7);
    let d = m.duplicate();
    assert_eq!(d.content, "abc");
    assert_eq!(d.timestamp_millis, 7);
}

#[test]
fn response_text_exact_values() {
    assert_eq!(response_text(DispatchOutcome::Delivered), "Message received");
    assert_eq!(
        response_text(DispatchOutcome::ChannelClosed),
        "Error processing message"
    );
}

#[test]
fn dispatch_delivers_message_unchanged() {
    let (tx, mut rx) = tokio::sync::mpsc::channel::<ServerMessage>(4);
    let mut server: MessageServer<Recorder> = MessageServer::new(tx);
    let msg = ServerMessage::with_timestamp(String::from("hello"), 123);
    let outcome = server.dispatch(msg);
    assert_eq!(outcome, DispatchOutcome::Delivered);
    let got = rx.blocking_recv().expect("a message should be waiting");
    assert_eq!(got.content, "hello");
    assert_eq!(got.timestamp_millis, 123);
}

#[test]
fn observers_notified_in_order_exactly_once() {
    let (tx, mut rx) = tokio::sync::mpsc::channel::<ServerMessage>(4);
    let mut server: MessageServer<Recorder> = MessageServer::new(tx);
    server.on_message(Recorder::new());
    server.on_message(Recorder::new());
    assert_eq!(server.handler_count(), 2);

    let first = ServerMessage::with_timestamp(String::from("first"), 1);
    let second = ServerMessage::with_timestamp(String::from("second"), 2);
    assert_eq!(server.dispatch(first), DispatchOutcome::Delivered);
    assert_eq!(server.dispatch(second), DispatchOutcome::Delivered);

    for i in 0..server.handler_count() {
        let recorder = server.handler_at(i);
        assert_eq!(recorder.count(), 2);
        assert_eq!(recorder.content_at(0).as_str(), "first");
        assert_eq!(recorder.content_at(1).as_str(), "second");
        assert_eq!(recorder.timestamp_at(0), 1);
        assert_eq!(recorder.timestamp_at(1), 2);
    }

    let got1 = rx.blocking_recv().expect("first message");
    let got2 = rx.blocking_recv().expect("second message");
    assert_eq!(got1.content, "first");
    assert_eq!(got2.content, "second");
}

#[test]
fn dispatch_reports_channel_closed_and_still_notifies() {
    let (tx, rx) = tokio::sync::mpsc::channel::<ServerMessage>(1);
    drop(rx);
    let mut server: MessageServer<Recorder> = MessageServer::new(tx);
    server.on_message(Recorder::new());
    let outcome = server.dispatch(ServerMessage::with_timestamp(String::from("x"), 0));
    assert_eq!(outcome, DispatchOutcome::ChannelClosed);
    assert_eq!(server.handler_at(0).count(), 1);
    assert_eq!(server.handler_at(0).content_at(0).as_str(), "x");
}

#[test]
fn accumulator_records_hello() {
    let (tx, mut rx) = tokio::sync::mpsc::channel::<ServerMessage>(4);
    let mut server: MessageServer<Recorder> = MessageServer::new(tx);
    server.on_message(Recorder::new());
    let state = ServerState::new(server);

    let resp = handle_message(&state, String::from("hello"));
    assert_eq!(resp, "Message received");

    let seen: Vec<String> = state
        .with_exclusive_access(|s: MessageServer<Recorder>| {
            let recorder = s.handler_at(0);
            let mut v = Vec::new();
            for i in 0..recorder.count() {
                v.push(recorder.content_at(i).clone());
            }
            (s, v)
        })
        .expect("lock should not be poisoned");
    assert_eq!(seen, vec![String::from("hello")]);

    let got = rx.blocking_recv().expect("the message should be forwarded");
    assert_eq!(got.content, "hello");
}

#[test]
fn no_handlers_receiver_dropped_reports_error() {
    let (tx, rx) = tokio::sync::mpsc::channel::<ServerMessage>(1);
    drop(rx);
    let server: MessageServer<Recorder> = MessageServer::new(tx);
    let state = ServerState::new(server);
    let resp = handle_message(&state, String::from("x"));
    assert_eq!(resp, "Error processing message");
}
