use ytcore::mailbox::{Mailbox, DEFAULT_MAILBOX_CAPACITY};
use ytcore::message::{Ticket, WorkerMessage};

#[test]
fn poll_empty_returns_none() {
    let mut mb = Mailbox::new(4);
    assert!(mb.poll().is_none());
    assert_eq!(mb.pending_len(), 0);
    assert!(mb.poll().is_none());
}

#[test]
fn fifo_delivery_order() {
    let t = Ticket { generation: 1, index: 0 };
    let mut mb = Mailbox::new(8);
    assert!(mb.post(WorkerMessage::Progress(t, 1)).is_ok());
    assert!(mb.post(WorkerMessage::Progress(t, 2)).is_ok());
    assert!(mb.post(WorkerMessage::Progress(t, 3)).is_ok());
    for expected in 1..=3u32 {
        match mb.poll() {
            Some(WorkerMessage::Progress(_, p)) => assert_eq!(p, expected),
            other => panic!("unexpected message: {:?}", other),
        }
    }
    assert!(mb.poll().is_none());
}

#[test]
fn per_producer_order_preserved() {
    let t = Ticket { generation: 1, index: 2 };
    let mut mb = Mailbox::new(8);
    assert!(mb.post(WorkerMessage::Progress(t, 30)).is_ok());
    assert!(mb.post(WorkerMessage::Done(t)).is_ok());
    assert!(matches!(mb.poll(), Some(WorkerMessage::Progress(_, 30))));
    assert!(matches!(mb.poll(), Some(WorkerMessage::Done(_))));
}

#[test]
fn full_mailbox_hands_message_back() {
    let t = Ticket { generation: 1, index: 0 };
    let mut mb = Mailbox::new(2);
    assert!(mb.post(WorkerMessage::Progress(t, 10)).is_ok());
    assert!(mb.post(WorkerMessage::Progress(t, 20)).is_ok());
    let refused = mb.post(WorkerMessage::Progress(t, 30));
    match refused {
        Err(WorkerMessage::Progress(back, 30)) => assert_eq!(back, t),
        other => panic!("expected the message back, got {:?}", other),
    }
    assert_eq!(mb.pending_len(), 2);
    assert!(matches!(mb.poll(), Some(WorkerMessage::Progress(_, 10))));
    assert!(mb.post(WorkerMessage::Progress(t, 30)).is_ok());
    assert_eq!(mb.pending_len(), 2);
}

#[test]
fn default_capacity_matches_application() {
    assert_eq!(DEFAULT_MAILBOX_CAPACITY, 102);
    let mut mb = Mailbox::new(DEFAULT_MAILBOX_CAPACITY);
    assert!(mb.poll().is_none());
}
