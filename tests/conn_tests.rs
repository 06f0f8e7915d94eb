use nostr_relay::conn::ClientConn;
use nostr_relay::error::RelayError;
use nostr_relay::event::Event;
use nostr_relay::subscription::{Close, ReqFilter, Subscription};

fn event(n: u64, pubkey: u64, created_at: i64, kind: u64, tags: Vec<Vec<&str>>) -> Event {
    Event {
        id: format!("{:064x}", n),
        pubkey: format!("{:064x}", pubkey),
        created_at,
        kind,
        tags: tags.into_iter().map(|t| t.into_iter().map(|s| s.to_owned()).collect()).collect(),
        content: String::new(),
        sig: "0".repeat(128),
    }
}

fn kinds_sub(id: &str, kinds: Vec<u64>) -> Subscription {
    Subscription {
        id: id.to_owned(),
        filters: vec![ReqFilter { kinds: Some(kinds), ..Default::default() }],
    }
}

#[test]
fn new_connection_has_no_subscriptions() {
    let c = ClientConn::new();
    assert_eq!(c.subscription_count(), 0);
}

#[test]
fn client_prefix_is_first_eight_uuid_chars() {
    let c = ClientConn::new();
    let p = c.get_client_prefix();
    assert_eq!(p.chars().count(), 8);
    assert!(p.chars().all(|x| x.is_ascii_hexdigit()));
}

#[test]
fn sub_id_of_257_bytes_is_refused() {
    let mut c = ClientConn::new();
    let long = "a".repeat(257);
    let r = c.subscribe(kinds_sub(&long, vec![1]));
    assert!(matches!(r, Err(RelayError::SubIdMaxLengthError)));
    assert_eq!(c.subscription_count(), 0);
    let ok = "a".repeat(256);
    assert!(c.subscribe(kinds_sub(&ok, vec![1])).is_ok());
    assert_eq!(c.subscription_count(), 1);
}

#[test]
fn sub_id_length_counts_bytes() {
    let mut c = ClientConn::new();
    // 129 two-byte characters: 258 bytes
    let long = "é".repeat(129);
    assert!(matches!(c.subscribe(kinds_sub(&long, vec![1])), Err(RelayError::SubIdMaxLengthError)));
}

#[test]
fn thirty_third_subscription_is_refused() {
    let mut c = ClientConn::new();
    for i in 0..32 {
        assert!(c.subscribe(kinds_sub(&format!("s{}", i), vec![1])).is_ok());
    }
    assert_eq!(c.subscription_count(), 32);
    let r = c.subscribe(kinds_sub("s32", vec![1]));
    assert!(matches!(r, Err(RelayError::SubMaxExceededError)));
    assert_eq!(c.subscription_count(), 32);
    // replacing an existing one still works at the limit
    assert!(c.subscribe(kinds_sub("s5", vec![2])).is_ok());
    assert_eq!(c.subscription_count(), 32);
}

#[test]
fn resubscribe_keeps_count_and_uses_new_filters() {
    let mut c = ClientConn::new();
    c.subscribe(kinds_sub("a", vec![1])).unwrap();
    c.subscribe(kinds_sub("b", vec![7])).unwrap();
    assert_eq!(c.subscription_count(), 2);
    let e1 = event(1, 1, 10, 1, vec![]);
    let e2 = event(2, 1, 10, 2, vec![]);
    assert_eq!(c.get_matching_subscriptions(&e1), vec!["a".to_owned()]);
    c.subscribe(kinds_sub("a", vec![2])).unwrap();
    assert_eq!(c.subscription_count(), 2);
    assert!(c.get_matching_subscriptions(&e1).is_empty());
    assert_eq!(c.get_matching_subscriptions(&e2), vec!["a".to_owned()]);
}

#[test]
fn unsubscribe_removes_and_ignores_unknown() {
    let mut c = ClientConn::new();
    c.subscribe(kinds_sub("a", vec![1])).unwrap();
    c.subscribe(kinds_sub("b", vec![1])).unwrap();
    c.unsubscribe(Close { id: "zzz".to_owned() });
    assert_eq!(c.subscription_count(), 2);
    c.unsubscribe(Close { id: "a".to_owned() });
    assert_eq!(c.subscription_count(), 1);
    let e = event(1, 1, 10, 1, vec![]);
    assert_eq!(c.get_matching_subscriptions(&e), vec!["b".to_owned()]);
}

#[test]
fn matching_subscriptions_in_order() {
    let mut c = ClientConn::new();
    c.subscribe(kinds_sub("x", vec![1])).unwrap();
    c.subscribe(kinds_sub("y", vec![3])).unwrap();
    c.subscribe(kinds_sub("z", vec![1, 3])).unwrap();
    let e = event(1, 1, 10, 1, vec![]);
    assert_eq!(c.get_matching_subscriptions(&e), vec!["x".to_owned(), "z".to_owned()]);
}

#[test]
fn live_fanout_between_two_clients() {
    let a = ClientConn::new();
    let mut b = ClientConn::new();
    b.subscribe(kinds_sub("sub1", vec![1])).unwrap();
    let e = event(9, 4, 100, 1, vec![]);
    assert_eq!(b.get_matching_subscriptions(&e), vec!["sub1".to_owned()]);
    assert!(a.get_matching_subscriptions(&e).is_empty());
}
