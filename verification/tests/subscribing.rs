use tokio::sync::broadcast;
use tokio::sync::broadcast::error::{RecvError, TryRecvError};
use veloren_relay::event::{Activity, Message, NetworkEvent};
use veloren_relay::fanout::{subscriber_step, Received, SubscriberAction, BROADCAST_CAPACITY};
use veloren_relay::kind::MessageType;
use veloren_relay::time::Timestamp;

fn envelope(id: u32) -> NetworkEvent {
    NetworkEvent::Message(Message {
        id,
        player_id: 1,
        message: format!("message {id}"),
        ty: MessageType::World,
        time: Timestamp { millis: id as i64 },
    })
}

fn message_id(envelope: &NetworkEvent) -> u32 {
    match envelope {
        NetworkEvent::Message(message) => message.id,
        NetworkEvent::Activity(_) => panic!("no message"),
    }
}

/// Everything a subscriber is told by the channel without waiting.
fn receive_all(rx: &mut broadcast::Receiver<NetworkEvent>) -> Vec<Received> {
    let mut told = Vec::new();
    loop {
        match rx.try_recv() {
            Ok(envelope) => told.push(Received::Envelope(envelope)),
            Err(TryRecvError::Lagged(missed)) => told.push(Received::Lagged(missed)),
            Err(TryRecvError::Closed) => {
                told.push(Received::Closed);
                return told;
            }
            Err(TryRecvError::Empty) => return told,
        }
    }
}

/// What the subscriber's policy forwards of what it was told.
fn forward_all(told: Vec<Received>) -> Vec<NetworkEvent> {
    let mut forwarded = Vec::new();
    for received in told {
        match subscriber_step(received) {
            SubscriberAction::Forward(envelope) => forwarded.push(envelope),
            SubscriberAction::Skip => {}
            SubscriberAction::Stop => break,
        }
    }
    forwarded
}

#[test]
fn broadcast_capacity_is_as_configured() {
    assert_eq!(BROADCAST_CAPACITY, 256);
}

#[test]
fn envelope_is_forwarded() {
    assert_eq!(
        subscriber_step(Received::Envelope(envelope(3))),
        SubscriberAction::Forward(envelope(3))
    );
    let change = NetworkEvent::Activity(Activity { player_id: 4, online: true });
    assert_eq!(
        subscriber_step(Received::Envelope(change.clone())),
        SubscriberAction::Forward(change)
    );
}

#[test]
fn gap_is_passed_over() {
    assert_eq!(subscriber_step(Received::Lagged(1)), SubscriberAction::Skip);
    assert_eq!(subscriber_step(Received::Lagged(u64::MAX)), SubscriberAction::Skip);
}

#[test]
fn closed_channel_and_shutdown_end_the_stream() {
    assert_eq!(subscriber_step(Received::Closed), SubscriberAction::Stop);
    assert_eq!(subscriber_step(Received::Shutdown), SubscriberAction::Stop);
}

#[test]
fn nothing_after_the_end_is_forwarded() {
    let told = vec![
        Received::Envelope(envelope(1)),
        Received::Lagged(2),
        Received::Envelope(envelope(4)),
        Received::Shutdown,
        Received::Envelope(envelope(5)),
    ];
    assert_eq!(forward_all(told), vec![envelope(1), envelope(4)]);
}

#[test]
fn slow_subscriber_sees_the_most_recent_envelopes() {
    let (tx, mut rx) = broadcast::channel::<NetworkEvent>(4);
    for id in 0..10 {
        tx.send(envelope(id)).unwrap();
    }
    let told = receive_all(&mut rx);
    assert_eq!(
        told,
        vec![
            Received::Lagged(6),
            Received::Envelope(envelope(6)),
            Received::Envelope(envelope(7)),
            Received::Envelope(envelope(8)),
            Received::Envelope(envelope(9)),
        ]
    );
    assert_eq!(
        forward_all(told),
        vec![envelope(6), envelope(7), envelope(8), envelope(9)]
    );
}

#[test]
fn subscriber_that_keeps_up_sees_everything() {
    let (tx, mut rx) = broadcast::channel::<NetworkEvent>(4);
    let mut seen = Vec::new();
    for id in 0..10 {
        tx.send(envelope(id)).unwrap();
        seen.extend(forward_all(receive_all(&mut rx)));
    }
    assert_eq!(seen, (0..10).map(envelope).collect::<Vec<_>>());
}

#[test]
fn envelopes_sent_without_subscribers_are_discarded() {
    let (tx, rx) = broadcast::channel::<NetworkEvent>(4);
    drop(rx);
    assert!(tx.send(envelope(0)).is_err());
    let mut late = tx.subscribe();
    assert_eq!(receive_all(&mut late), Vec::new());
    tx.send(envelope(1)).unwrap();
    assert_eq!(forward_all(receive_all(&mut late)), vec![envelope(1)]);
}

#[test]
fn closed_channel_delivers_what_is_left_and_stops() {
    let (tx, mut rx) = broadcast::channel::<NetworkEvent>(4);
    tx.send(envelope(0)).unwrap();
    tx.send(envelope(1)).unwrap();
    drop(tx);
    let told = receive_all(&mut rx);
    assert_eq!(
        told,
        vec![
            Received::Envelope(envelope(0)),
            Received::Envelope(envelope(1)),
            Received::Closed,
        ]
    );
    assert_eq!(forward_all(told), vec![envelope(0), envelope(1)]);
}

#[test]
fn many_subscribers_come_and_go_while_the_writer_publishes() {
    let runtime = tokio::runtime::Builder::new_multi_thread()
        .worker_threads(4)
        .enable_all()
        .build()
        .unwrap();
    runtime.block_on(async {
        let (tx, first) = broadcast::channel::<NetworkEvent>(16);
        let mut staying = Vec::new();
        let mut leaving = Vec::new();
        for n in 0..100u32 {
            let mut rx = first.resubscribe();
            if n % 2 == 0 {
                staying.push(tokio::spawn(async move {
                    let mut next_id = 0u32;
                    let mut last_id = None;
                    loop {
                        let received = match rx.recv().await {
                            Ok(envelope) => Received::Envelope(envelope),
                            Err(RecvError::Lagged(missed)) => {
                                next_id += missed as u32;
                                Received::Lagged(missed)
                            }
                            Err(RecvError::Closed) => Received::Closed,
                        };
                        match subscriber_step(received) {
                            SubscriberAction::Forward(envelope) => {
                                assert_eq!(message_id(&envelope), next_id);
                                last_id = Some(next_id);
                                next_id += 1;
                            }
                            SubscriberAction::Skip => {}
                            SubscriberAction::Stop => return last_id,
                        }
                    }
                }));
            } else {
                leaving.push(tokio::spawn(async move {
                    for _ in 0..(n as usize) {
                        if let Err(RecvError::Closed) = rx.recv().await {
                            break;
                        }
                    }
                }));
            }
        }
        drop(first);
        for id in 0..1000u32 {
            tx.send(envelope(id)).unwrap();
            if id % 8 == 0 {
                tokio::task::yield_now().await;
            }
        }
        drop(tx);
        for subscriber in leaving {
            subscriber.await.unwrap();
        }
        for subscriber in staying {
            assert_eq!(subscriber.await.unwrap(), Some(999));
        }
    });
}
