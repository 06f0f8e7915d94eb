use nostr_relay::event::{str_eq, Event};
use nostr_relay::subscription::{ReqFilter, Subscription};

fn event(id: &str, pubkey: &str, created_at: i64, kind: u64, tags: Vec<Vec<&str>>) -> Event {
    Event {
        id: id.to_owned(),
        pubkey: pubkey.to_owned(),
        created_at,
        kind,
        tags: tags.into_iter().map(|t| t.into_iter().map(|s| s.to_owned()).collect()).collect(),
        content: "hello".to_owned(),
        sig: "0".repeat(128),
    }
}

fn sample() -> Event {
    event("abcdef01", "p1p1", 100, 1, vec![vec!["e", "ee11"], vec!["p", "pp22"], vec!["e"], vec!["x", "ee99"]])
}

#[test]
fn tag_values_by_name() {
    let e = sample();
    assert_eq!(e.get_event_tags(), vec!["ee11".to_owned()]);
    assert_eq!(e.get_pubkey_tags(), vec!["pp22".to_owned()]);
    assert_eq!(e.get_tag_values("x"), vec!["ee99".to_owned()]);
}

#[test]
fn string_equality() {
    assert!(str_eq("abc", "abc"));
    assert!(!str_eq("abc", "abd"));
    assert!(!str_eq("abc", "ab"));
    assert!(str_eq("", ""));
}

#[test]
fn empty_filter_matches_everything() {
    assert!(ReqFilter::default().interested_in_event(&sample()));
}

#[test]
fn ids_match_by_prefix() {
    let e = sample();
    let f = ReqFilter { ids: Some(vec!["abc".to_owned()]), ..Default::default() };
    assert!(f.interested_in_event(&e));
    let f = ReqFilter { ids: Some(vec!["abd".to_owned(), "bc".to_owned()]), ..Default::default() };
    assert!(!f.interested_in_event(&e));
}

#[test]
fn authors_match_exactly() {
    let e = sample();
    assert!(ReqFilter { authors: Some(vec!["p1p1".to_owned()]), ..Default::default() }.interested_in_event(&e));
    assert!(!ReqFilter { authors: Some(vec!["p1".to_owned()]), ..Default::default() }.interested_in_event(&e));
}

#[test]
fn kinds_and_tag_references() {
    let e = sample();
    assert!(ReqFilter { kinds: Some(vec![0, 1]), ..Default::default() }.interested_in_event(&e));
    assert!(!ReqFilter { kinds: Some(vec![]), ..Default::default() }.interested_in_event(&e));
    assert!(ReqFilter { events: Some(vec!["ee11".to_owned()]), ..Default::default() }.interested_in_event(&e));
    assert!(!ReqFilter { events: Some(vec!["ee99".to_owned()]), ..Default::default() }.interested_in_event(&e));
    assert!(ReqFilter { pubkeys: Some(vec!["zz".to_owned(), "pp22".to_owned()]), ..Default::default() }.interested_in_event(&e));
    assert!(!ReqFilter { pubkeys: Some(vec!["ee11".to_owned()]), ..Default::default() }.interested_in_event(&e));
}

#[test]
fn time_bounds_are_exclusive() {
    let e = sample();
    assert!(ReqFilter { since: Some(99), until: Some(101), ..Default::default() }.interested_in_event(&e));
    assert!(!ReqFilter { since: Some(100), ..Default::default() }.interested_in_event(&e));
    assert!(!ReqFilter { until: Some(100), ..Default::default() }.interested_in_event(&e));
}

#[test]
fn since_equal_until_matches_nothing() {
    for t in [0u64, 99, 100, 101] {
        let f = ReqFilter { since: Some(t), until: Some(t), ..Default::default() };
        assert!(!f.interested_in_event(&sample()));
    }
}

#[test]
fn fields_combine_with_and_filters_with_or() {
    let e = sample();
    let f1 = ReqFilter { kinds: Some(vec![1]), authors: Some(vec!["other".to_owned()]), ..Default::default() };
    let f2 = ReqFilter { kinds: Some(vec![2]), ..Default::default() };
    assert!(!f1.interested_in_event(&e));
    let s = Subscription { id: "s".to_owned(), filters: vec![f1.clone(), f2.clone()] };
    assert!(!s.interested_in_event(&e));
    let f3 = ReqFilter { authors: Some(vec!["p1p1".to_owned()]), ..Default::default() };
    let s = Subscription { id: "s".to_owned(), filters: vec![f1, f2, f3] };
    assert!(s.interested_in_event(&e));
    let none = Subscription { id: "s".to_owned(), filters: vec![] };
    assert!(!none.interested_in_event(&e));
}
