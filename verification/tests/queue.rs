//! Tests of the bounded event queue's drop-when-full policy against the real
//! channel primitive the watcher uses.

use fs_change_notifier::{EventKind, FsEvent, EVENT_QUEUE_CAPACITY};
use tokio::sync::mpsc;
use tokio::sync::mpsc::error::TrySendError;

fn numbered_event(n: usize) -> FsEvent {
    FsEvent {
        kind: EventKind::ModifyData,
        paths: vec![format!("/proj/file-{n}").into_bytes()],
    }
}

#[test]
fn full_queue_drops_silently_and_keeps_order() {
    let (tx, mut rx) = mpsc::channel::<FsEvent>(EVENT_QUEUE_CAPACITY);

    for n in 0..EVENT_QUEUE_CAPACITY {
        tx.try_send(numbered_event(n)).expect("queue under capacity");
    }

    // One more event on a full queue: the non-blocking send is refused, and
    // the producer's policy is to drop the event without surfacing an error.
    match tx.try_send(numbered_event(EVENT_QUEUE_CAPACITY)) {
        Err(TrySendError::Full(_)) => {}
        _ => panic!("a full queue must refuse without blocking"),
    }

    // The queued events are all still deliverable, in original order, and
    // the dropped one is gone.
    for n in 0..EVENT_QUEUE_CAPACITY {
        let ev = rx.try_recv().expect("queued event still deliverable");
        assert_eq!(ev.paths[0], format!("/proj/file-{n}").into_bytes());
    }
    assert!(rx.try_recv().is_err());
}

#[test]
fn closed_producer_leaves_queued_events_deliverable() {
    let (tx, mut rx) = mpsc::channel::<FsEvent>(EVENT_QUEUE_CAPACITY);
    tx.try_send(numbered_event(0)).expect("queue under capacity");
    drop(tx);
    let ev = rx.try_recv().expect("event queued before close is deliverable");
    assert_eq!(ev.paths[0], b"/proj/file-0".to_vec());
    assert!(rx.try_recv().is_err());
}
