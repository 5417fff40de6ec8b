use ssh_server::bridge::{BridgeError, TerminalHandle};
use tokio::sync::mpsc::unbounded_channel;

#[test]
fn writes_before_flush_arrive_as_one_ordered_batch() {
    let (tx, mut rx) = unbounded_channel::<Vec<u8>>();
    let mut h = TerminalHandle::new(tx);
    assert_eq!(h.write(b"hel"), 3);
    assert_eq!(h.write(b"lo "), 3);
    assert_eq!(h.write(b"world"), 5);
    // nothing is delivered before the flush
    assert!(rx.try_recv().is_err());
    assert!(h.flush().is_ok());
    assert_eq!(rx.try_recv().unwrap(), b"hel".iter().chain(b"lo ").chain(b"world").copied().collect::<Vec<u8>>());
    // one flush, one batch
    assert!(rx.try_recv().is_err());
}

#[test]
fn flush_empties_the_buffer() {
    let (tx, mut rx) = unbounded_channel::<Vec<u8>>();
    let mut h = TerminalHandle::new(tx);
    h.write(b"abc");
    assert!(h.flush().is_ok());
    assert_eq!(rx.try_recv().unwrap(), b"abc".to_vec());
    // the next flush delivers only what was written after the first
    h.write(b"d");
    assert!(h.flush().is_ok());
    assert_eq!(rx.try_recv().unwrap(), b"d".to_vec());
}

#[test]
fn batches_keep_flush_order() {
    let (tx, mut rx) = unbounded_channel::<Vec<u8>>();
    let mut h = TerminalHandle::new(tx);
    h.write(b"first");
    h.flush().unwrap();
    h.write(b"second");
    h.flush().unwrap();
    assert_eq!(rx.try_recv().unwrap(), b"first".to_vec());
    assert_eq!(rx.try_recv().unwrap(), b"second".to_vec());
}

#[test]
fn flush_fails_when_forwarding_task_is_gone() {
    let (tx, rx) = unbounded_channel::<Vec<u8>>();
    let mut h = TerminalHandle::new(tx);
    drop(rx);
    h.write(b"late");
    assert_eq!(h.flush(), Err(BridgeError::TransportClosed));
    // the buffer was kept; a later write still accumulates behind it
    assert_eq!(h.write(b"r"), 1);
    assert_eq!(h.flush(), Err(BridgeError::TransportClosed));
}
