use pokemon_arena::channel::SendOutcome;
use pokemon_arena::client_handler::{flush_result, Flushed, SinkError, TerminalHandle};
use pokemon_arena::server::{
    count_sent, resize_sequence, send_result, AppServer, Delivery, RegistryError,
};
use russh::CryptoVec;
use tokio::sync::mpsc::channel;

#[test]
fn flush_fails_only_when_the_channel_is_closed() {
    assert_eq!(flush_result(SendOutcome::Sent), Ok(Flushed::Sent));
    assert_eq!(flush_result(SendOutcome::Full), Ok(Flushed::Dropped));
    assert_eq!(flush_result(SendOutcome::Closed), Err(SinkError::Disconnected));
}

#[test]
fn written_bytes_arrive_as_one_message() {
    let (tx, mut rx) = channel::<CryptoVec>(4);
    let mut sink = TerminalHandle::start(tx);
    assert_eq!(sink.write(b"hello "), 6);
    assert_eq!(sink.write(b""), 0);
    assert_eq!(sink.write(b"world"), 5);
    assert!(rx.try_recv().is_err());
    assert_eq!(sink.flush(), Ok(Flushed::Sent));
    let message = rx.try_recv().unwrap();
    assert_eq!(&message[..], b"hello world");
    assert!(rx.try_recv().is_err());
}

#[test]
fn flushing_nothing_sends_nothing() {
    let (tx, mut rx) = channel::<CryptoVec>(1);
    let mut sink = TerminalHandle::start(tx);
    assert_eq!(sink.flush(), Ok(Flushed::Idle));
    assert!(rx.try_recv().is_err());
    drop(rx);
    assert_eq!(sink.flush(), Ok(Flushed::Idle));
}

#[test]
fn a_full_channel_drops_the_flush_and_does_not_fail() {
    let (tx, mut rx) = channel::<CryptoVec>(1);
    let mut sink = TerminalHandle::start(tx);
    sink.write(b"first");
    assert_eq!(sink.flush(), Ok(Flushed::Sent));
    sink.write(b"second");
    assert_eq!(sink.flush(), Ok(Flushed::Dropped));
    assert_eq!(&rx.try_recv().unwrap()[..], b"first");
    assert!(rx.try_recv().is_err());
    sink.write(b"third");
    assert_eq!(sink.flush(), Ok(Flushed::Sent));
    assert_eq!(&rx.try_recv().unwrap()[..], b"third");
}

#[test]
fn a_closed_channel_fails_the_flush() {
    let (tx, rx) = channel::<CryptoVec>(1);
    let mut sink = TerminalHandle::start(tx);
    drop(rx);
    sink.write(b"lost");
    assert_eq!(sink.flush(), Err(SinkError::Disconnected));
    assert_eq!(sink.flush(), Ok(Flushed::Idle));
}

#[test]
fn a_second_handle_shares_the_channel_and_not_the_buffer() {
    let (tx, mut rx) = channel::<CryptoVec>(4);
    let mut sink = TerminalHandle::start(tx);
    sink.write(b"mine");
    let mut other = sink.fresh();
    assert_eq!(other.flush(), Ok(Flushed::Idle));
    other.write(b"yours");
    assert_eq!(other.flush(), Ok(Flushed::Sent));
    assert_eq!(sink.flush(), Ok(Flushed::Sent));
    assert_eq!(&rx.try_recv().unwrap()[..], b"yours");
    assert_eq!(&rx.try_recv().unwrap()[..], b"mine");
}

#[test]
fn send_reports() {
    assert_eq!(send_result(SendOutcome::Sent), Ok(Delivery::Sent));
    assert_eq!(send_result(SendOutcome::Full), Ok(Delivery::Dropped));
    assert_eq!(send_result(SendOutcome::Closed), Err(RegistryError::Closed));
}

#[test]
fn identifiers_are_handed_out_in_order() {
    let mut server = AppServer::new();
    assert_eq!(server.new_client(), Some(0));
    assert_eq!(server.new_client(), Some(1));
    assert_eq!(server.new_client(), Some(2));
    assert_eq!(server.len(), 0);
}

#[test]
fn register_send_unregister() {
    let mut server = AppServer::new();
    let (tx, mut rx) = channel::<Vec<u8>>(2);
    let id = server.new_client().unwrap();
    assert!(!server.is_registered(id));
    assert_eq!(server.send(id, b"x".to_vec()), Err(RegistryError::NotFound));
    server.register(id, tx);
    assert!(server.is_registered(id));
    assert_eq!(server.len(), 1);
    assert_eq!(server.send(id, b"abc".to_vec()), Ok(Delivery::Sent));
    assert_eq!(rx.try_recv().unwrap(), b"abc".to_vec());
    assert_eq!(server.send(id, b"1".to_vec()), Ok(Delivery::Sent));
    assert_eq!(server.send(id, b"2".to_vec()), Ok(Delivery::Sent));
    assert_eq!(server.send(id, b"3".to_vec()), Ok(Delivery::Dropped));
    assert!(server.unregister(id));
    assert!(!server.unregister(id));
    assert!(!server.is_registered(id));
    assert_eq!(server.send(id, b"x".to_vec()), Err(RegistryError::NotFound));
    assert_eq!(server.len(), 0);
}

#[test]
fn registering_twice_keeps_one_session() {
    let mut server = AppServer::new();
    let (old_tx, mut old_rx) = channel::<Vec<u8>>(2);
    let (new_tx, mut new_rx) = channel::<Vec<u8>>(2);
    server.register(5, old_tx);
    server.register(5, new_tx);
    assert_eq!(server.len(), 1);
    assert_eq!(server.send(5, b"hi".to_vec()), Ok(Delivery::Sent));
    assert!(old_rx.try_recv().is_err());
    assert_eq!(new_rx.try_recv().unwrap(), b"hi".to_vec());
}

#[test]
fn forwarding_to_a_closed_session_unregisters_it() {
    let mut server = AppServer::new();
    let (tx, rx) = channel::<Vec<u8>>(2);
    let (other_tx, mut other_rx) = channel::<Vec<u8>>(2);
    server.register(1, tx);
    server.register(2, other_tx);
    assert_eq!(server.forward(1, b"a".to_vec()), Ok(Delivery::Sent));
    assert!(server.is_registered(1));
    drop(rx);
    assert_eq!(server.forward(1, b"b".to_vec()), Err(RegistryError::Closed));
    assert!(!server.is_registered(1));
    assert!(server.is_registered(2));
    assert_eq!(server.forward(1, b"c".to_vec()), Err(RegistryError::NotFound));
    assert_eq!(server.forward(2, b"d".to_vec()), Ok(Delivery::Sent));
    assert_eq!(other_rx.try_recv().unwrap(), b"d".to_vec());
}

#[test]
fn sending_to_a_closed_session_leaves_the_registry_alone() {
    let mut server = AppServer::new();
    let (tx, rx) = channel::<Vec<u8>>(2);
    server.register(1, tx);
    drop(rx);
    assert_eq!(server.send(1, b"b".to_vec()), Err(RegistryError::Closed));
    assert!(server.is_registered(1));
}

#[test]
fn the_size_report_is_written_in_decimal() {
    assert_eq!(resize_sequence(30, 120), b"\x1b[8;30;120t".to_vec());
    assert_eq!(resize_sequence(0, 7), b"\x1b[8;0;7t".to_vec());
    assert_eq!(resize_sequence(4294967295, 10), b"\x1b[8;4294967295;10t".to_vec());
}

#[test]
fn a_resize_reaches_the_session_as_a_report() {
    let mut server = AppServer::new();
    let (tx, mut rx) = channel::<Vec<u8>>(2);
    server.register(3, tx);
    assert_eq!(server.notify_resize(3, 80, 24), Ok(Delivery::Sent));
    assert_eq!(rx.try_recv().unwrap(), b"\x1b[8;24;80t".to_vec());
    assert_eq!(server.notify_resize(4, 80, 24), Err(RegistryError::NotFound));
}

#[test]
fn broadcast_reaches_every_session_that_has_room() {
    let mut server = AppServer::new();
    let (a_tx, mut a_rx) = channel::<Vec<u8>>(1);
    let (b_tx, mut b_rx) = channel::<Vec<u8>>(1);
    let (c_tx, c_rx) = channel::<Vec<u8>>(1);
    server.register(1, a_tx);
    server.register(2, b_tx);
    server.register(3, c_tx);
    drop(c_rx);
    assert_eq!(server.send(2, b"fill".to_vec()), Ok(Delivery::Sent));
    assert_eq!(server.broadcast(b"all"), 1);
    assert_eq!(a_rx.try_recv().unwrap(), b"all".to_vec());
    assert_eq!(b_rx.try_recv().unwrap(), b"fill".to_vec());
    assert!(b_rx.try_recv().is_err());
    assert_eq!(server.len(), 3);
}

#[test]
fn shutdown_interrupts_every_session_and_empties_the_registry() {
    let mut server = AppServer::new();
    let (a_tx, mut a_rx) = channel::<Vec<u8>>(1);
    let (b_tx, mut b_rx) = channel::<Vec<u8>>(1);
    server.register(1, a_tx);
    server.register(2, b_tx);
    let next = server.new_client();
    server.shutdown();
    assert_eq!(server.len(), 0);
    assert_eq!(a_rx.try_recv().unwrap(), vec![3]);
    assert_eq!(b_rx.try_recv().unwrap(), vec![3]);
    assert!(a_rx.try_recv().is_err());
    assert_eq!(server.new_client(), next.map(|id| id + 1));
}

#[test]
fn clear_empties_the_registry() {
    let mut server = AppServer::new();
    let (tx, mut rx) = channel::<Vec<u8>>(1);
    server.register(1, tx);
    server.clear();
    assert_eq!(server.len(), 0);
    assert!(rx.try_recv().is_err());
}

#[test]
fn a_registered_channel_can_be_looked_up() {
    let mut server = AppServer::new();
    let (tx, mut rx) = channel::<Vec<u8>>(1);
    assert!(server.lookup(9).is_none());
    server.register(9, tx);
    let handle = server.lookup(9).unwrap();
    assert!(handle.try_send(b"direct".to_vec()).is_ok());
    assert_eq!(rx.try_recv().unwrap(), b"direct".to_vec());
    assert!(server.lookup(8).is_none());
}

#[test]
fn the_message_of_a_flush_holds_what_was_written() {
    let (tx, mut rx) = channel::<CryptoVec>(1);
    let mut sink = TerminalHandle::start(tx);
    assert!(sink.take_message().is_none());
    sink.write(&[1, 2, 3]);
    sink.write(&[4]);
    let message = sink.take_message().unwrap();
    assert_eq!(&message[..], &[1, 2, 3, 4]);
    assert!(sink.take_message().is_none());
    assert_eq!(sink.flush(), Ok(Flushed::Idle));
    assert!(rx.try_recv().is_err());
}

#[test]
fn only_offers_that_were_taken_are_counted() {
    assert_eq!(count_sent(&vec![]), 0);
    assert_eq!(count_sent(&vec![SendOutcome::Full, SendOutcome::Closed]), 0);
    assert_eq!(
        count_sent(&vec![
            SendOutcome::Sent,
            SendOutcome::Full,
            SendOutcome::Sent,
            SendOutcome::Closed,
            SendOutcome::Sent
        ]),
        3
    );
}

#[test]
fn broadcast_to_nobody_reaches_nobody() {
    let server = AppServer::new();
    assert_eq!(server.broadcast(b"anyone?"), 0);
}

#[test]
fn broadcast_counts_every_session_that_took_the_bytes() {
    let mut server = AppServer::new();
    let mut receivers = Vec::new();
    for id in 0..5 {
        let (tx, rx) = channel::<Vec<u8>>(2);
        server.register(id, tx);
        receivers.push(rx);
    }
    assert_eq!(server.broadcast(b"one"), 5);
    assert_eq!(server.broadcast(b"two"), 5);
    assert_eq!(server.broadcast(b"three"), 0);
    for rx in receivers.iter_mut() {
        assert_eq!(rx.try_recv().unwrap(), b"one".to_vec());
        assert_eq!(rx.try_recv().unwrap(), b"two".to_vec());
        assert!(rx.try_recv().is_err());
    }
}
