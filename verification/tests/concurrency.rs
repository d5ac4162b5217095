use std::time::Duration;

use message_relay::message::ServerMessage;
use message_relay::observer::Recorder;
use message_relay::server::MessageServer;
use message_relay::shared::{handle_message, ServerState};

#[test]
fn concurrent_requests_lose_no_updates() {
    let rt = tokio::runtime::Builder::new_multi_thread()
        .worker_threads(4)
        .enable_time()
        .build()
        .expect("runtime");
    let (tx, mut rx) = tokio::sync::mpsc::channel::<ServerMessage>(64);
    let mut server: MessageServer<Recorder> = MessageServer::new(tx);
    server.on_message(Recorder::new());
    let state = ServerState::new(server);

    let n: usize = 16;
    let mut handles = Vec::new();
    for i in 0..n {
        let st = state.clone();
        handles.push(rt.spawn_blocking(move || handle_message(&st, format!("payload-{}", i))));
    }
    for h in handles {
        let resp = rt.block_on(h).expect("task should finish");
        assert_eq!(resp, "Message received");
    }

    // The counting observer saw every request: no update was lost.
    let count = state
        .with_exclusive_access(|s: MessageServer<Recorder>| {
            let c = s.handler_at(0).count();
            (s, c)
        })
        .expect("lock should not be poisoned");
    assert_eq!(count, n);

    // And every message reached the channel.
    for _ in 0..n {
        assert!(rx.blocking_recv().is_some());
    }
}

#[test]
fn poisoned_lock_reports_server_error() {
    let rt = tokio::runtime::Builder::new_multi_thread()
        .worker_threads(2)
        .build()
        .expect("runtime");
    let (tx, _rx) = tokio::sync::mpsc::channel::<ServerMessage>(1);
    let server: MessageServer<Recorder> = MessageServer::new(tx);
    let state = ServerState::new(server);

    // A holder that fails while holding the lock poisons it.
    let st = state.clone();
    let holder = rt.spawn_blocking(move || {
        let _ = st.with_exclusive_access(
            |_s: MessageServer<Recorder>| -> (MessageServer<Recorder>, ()) {
                panic!("fails while holding the lock")
            },
        );
    });
    assert!(rt.block_on(holder).is_err());

    // Every later request degrades to the generic server error.
    assert_eq!(handle_message(&state, String::from("x")), "Server Error");
    assert!(state
        .with_exclusive_access(|s: MessageServer<Recorder>| (s, ()))
        .is_err());
}

#[test]
fn full_channel_blocks_until_capacity_frees() {
    let rt = tokio::runtime::Builder::new_multi_thread()
        .worker_threads(2)
        .enable_time()
        .build()
        .expect("runtime");
    let (tx, mut rx) = tokio::sync::mpsc::channel::<ServerMessage>(1);
    let server: MessageServer<Recorder> = MessageServer::new(tx);
    let state = ServerState::new(server);

    // Fills the only slot.
    assert_eq!(handle_message(&state, String::from("one")), "Message received");

    // The second request must block inside the channel send.
    let st = state.clone();
    let second = rt.spawn_blocking(move || handle_message(&st, String::from("two")));
    rt.block_on(async {
        tokio::time::sleep(Duration::from_millis(300)).await;
    });
    assert!(!second.is_finished());

    // Draining one message frees capacity; only then can the second finish.
    let got1 = rx.blocking_recv().expect("first message");
    assert_eq!(got1.content, "one");
    let resp2 = rt.block_on(second).expect("second task should finish");
    assert_eq!(resp2, "Message received");
    let got2 = rx.blocking_recv().expect("second message");
    assert_eq!(got2.content, "two");
}
