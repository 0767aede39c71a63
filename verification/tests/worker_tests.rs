use std::time::Duration;

use slack_forwarder::SlackPayload;
use slack_forwarder::WorkerMessage;
use slack_forwarder::WorkerStep;
use slack_forwarder::drain;
use slack_forwarder::worker_step;

fn payload(text: &str) -> SlackPayload {
    SlackPayload::new(
        "#ops".to_string(),
        "bot".to_string(),
        text.to_string(),
        "https://hooks.example/x".to_string(),
        None,
    )
}

fn runtime() -> tokio::runtime::Runtime {
    tokio::runtime::Builder::new_multi_thread()
        .worker_threads(2)
        .enable_all()
        .build()
        .ok()
        .unwrap()
}

#[test]
fn step_delivers_data_and_stops_on_shutdown() {
    match worker_step(WorkerMessage::Data(payload("a"))) {
        WorkerStep::Deliver(p) => assert_eq!(p.text, "a"),
        WorkerStep::Stop => panic!("a payload must be delivered"),
    }
    assert!(matches!(worker_step(WorkerMessage::Shutdown), WorkerStep::Stop));
}

#[test]
fn drain_preserves_enqueue_order() {
    let queue = vec![
        WorkerMessage::Data(payload("a")),
        WorkerMessage::Data(payload("b")),
        WorkerMessage::Data(payload("c")),
    ];
    let out = drain(queue);
    let texts: Vec<String> = out.into_iter().map(|p| p.text).collect();
    assert_eq!(texts, vec!["a", "b", "c"]);
}

#[test]
fn drain_discards_everything_behind_the_first_shutdown() {
    let queue = vec![
        WorkerMessage::Data(payload("a")),
        WorkerMessage::Shutdown,
        WorkerMessage::Data(payload("b")),
        WorkerMessage::Shutdown,
        WorkerMessage::Data(payload("c")),
    ];
    let out = drain(queue);
    let texts: Vec<String> = out.into_iter().map(|p| p.text).collect();
    assert_eq!(texts, vec!["a"]);
}

#[test]
fn drain_of_empty_queue_is_empty() {
    assert!(drain(Vec::new()).is_empty());
}

#[test]
fn fifo_delivery_through_a_real_channel() {
    let rt = runtime();
    rt.block_on(async {
        let (tx, mut rx) = tokio::sync::mpsc::unbounded_channel::<WorkerMessage>();
        let worker = tokio::spawn(async move {
            let mut delivered: Vec<String> = Vec::new();
            while let Some(m) = rx.recv().await {
                match worker_step(m) {
                    WorkerStep::Deliver(p) => delivered.push(p.text),
                    WorkerStep::Stop => break,
                }
            }
            delivered
        });
        assert!(tx.send(WorkerMessage::Data(payload("a"))).is_ok());
        assert!(tx.send(WorkerMessage::Data(payload("b"))).is_ok());
        assert!(tx.send(WorkerMessage::Shutdown).is_ok());
        let delivered = tokio::time::timeout(Duration::from_secs(10), worker)
            .await
            .ok()
            .unwrap()
            .ok()
            .unwrap();
        assert_eq!(delivered, vec!["a", "b"]);
    });
}

#[test]
fn shutdown_resolves_promptly_whatever_sits_behind_it() {
    let rt = runtime();
    rt.block_on(async {
        let (tx, mut rx) = tokio::sync::mpsc::unbounded_channel::<WorkerMessage>();
        // A deep backlog behind the shutdown signal: none of it may be
        // drained, and completion may not depend on its depth.
        assert!(tx.send(WorkerMessage::Shutdown).is_ok());
        for i in 0..10_000 {
            assert!(tx.send(WorkerMessage::Data(payload(&format!("m{}", i)))).is_ok());
        }
        let worker = tokio::spawn(async move {
            let mut delivered: Vec<String> = Vec::new();
            while let Some(m) = rx.recv().await {
                match worker_step(m) {
                    WorkerStep::Deliver(p) => delivered.push(p.text),
                    WorkerStep::Stop => break,
                }
            }
            delivered
        });
        let delivered = tokio::time::timeout(Duration::from_secs(10), worker)
            .await
            .ok()
            .unwrap()
            .ok()
            .unwrap();
        assert!(delivered.is_empty());
    });
}

#[test]
fn producer_never_blocks_even_with_no_consumer_running() {
    let rt = runtime();
    rt.block_on(async {
        let (tx, rx) = tokio::sync::mpsc::unbounded_channel::<WorkerMessage>();
        // No worker task exists at all, and the receiver is parked: every
        // enqueue still returns at once.
        for i in 0..10_000 {
            assert!(tx.send(WorkerMessage::Data(payload(&format!("m{}", i)))).is_ok());
        }
        drop(rx);
    });
}
