use chat_server::registry::{Outbound, Registry};
use tokio::sync::mpsc::{unbounded_channel, UnboundedReceiver};

fn client() -> (Outbound, UnboundedReceiver<String>) {
    unbounded_channel::<String>()
}

#[test]
fn new_registry_is_empty() {
    let reg = Registry::new();
    assert_eq!(reg.len(), 0);
}

#[test]
fn every_registration_is_counted() {
    let mut reg = Registry::new();
    let mut receivers = Vec::new();
    for _ in 0..7 {
        let (tx, rx) = client();
        reg.register(tx);
        receivers.push(rx);
    }
    assert_eq!(reg.len(), 7);
}

#[test]
fn broadcast_reaches_live_clients_and_prunes_dead_ones() {
    let mut reg = Registry::new();
    let (t1, mut r1) = client();
    let (t2, r2) = client();
    let (t3, mut r3) = client();
    reg.register(t1);
    reg.register(t2);
    reg.register(t3);
    drop(r2);
    let delivered = reg.broadcast("hello");
    assert_eq!(delivered, vec![true, false, true]);
    assert_eq!(reg.len(), 2);
    assert_eq!(r1.try_recv().unwrap(), "hello");
    assert_eq!(r3.try_recv().unwrap(), "hello");
    assert!(r1.try_recv().is_err());
}

#[test]
fn broadcast_on_empty_registry_delivers_nothing() {
    let mut reg = Registry::new();
    let delivered = reg.broadcast("x");
    assert!(delivered.is_empty());
    assert_eq!(reg.len(), 0);
}

#[test]
fn second_broadcast_keeps_first_receivers() {
    let mut reg = Registry::new();
    let (t1, mut r1) = client();
    let (t2, r2) = client();
    let (t3, mut r3) = client();
    reg.register(t1);
    reg.register(t2);
    reg.register(t3);
    drop(r2);
    assert_eq!(reg.broadcast("one"), vec![true, false, true]);
    assert_eq!(reg.broadcast("two"), vec![true, true]);
    assert_eq!(reg.len(), 2);
    assert_eq!(r1.try_recv().unwrap(), "one");
    assert_eq!(r1.try_recv().unwrap(), "two");
    assert_eq!(r3.try_recv().unwrap(), "one");
    assert_eq!(r3.try_recv().unwrap(), "two");
}

#[test]
fn all_dead_clients_are_pruned() {
    let mut reg = Registry::new();
    for _ in 0..4 {
        let (tx, rx) = client();
        reg.register(tx);
        drop(rx);
    }
    assert_eq!(reg.broadcast("gone"), vec![false, false, false, false]);
    assert_eq!(reg.len(), 0);
}

#[test]
fn prune_removes_flagged_positions_in_order() {
    let mut reg = Registry::new();
    let (t1, mut r1) = client();
    let (t2, mut r2) = client();
    let (t3, mut r3) = client();
    let (t4, mut r4) = client();
    reg.register(t1);
    reg.register(t2);
    reg.register(t3);
    reg.register(t4);
    reg.prune(&vec![false, true, false, true]);
    assert_eq!(reg.len(), 2);
    assert_eq!(reg.broadcast("m"), vec![true, true]);
    assert!(r1.try_recv().is_err());
    assert_eq!(r2.try_recv().unwrap(), "m");
    assert!(r3.try_recv().is_err());
    assert_eq!(r4.try_recv().unwrap(), "m");
}

#[test]
fn client_gone_before_any_message_is_dropped_by_next_broadcast() {
    let mut reg = Registry::new();
    let (ta, ra) = client();
    reg.register(ta);
    drop(ra);
    let (tb, mut rb) = client();
    reg.register(tb);
    assert_eq!(reg.len(), 2);
    let delivered = reg.broadcast("from b");
    assert_eq!(delivered, vec![false, true]);
    assert_eq!(reg.len(), 1);
    assert_eq!(rb.try_recv().unwrap(), "from b");
}
