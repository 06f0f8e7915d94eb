use nostr_relay::conn::ClientConn;
use nostr_relay::db::{
    classify_write, db_version, plan_write, publishes, schema_action, upgrade_db, write_event, write_quota,
    SchemaAction, WriteOutcome,
};
use nostr_relay::db::{
    after_insert, event_insert, upgrade_plan, write_statements, InsertOutcome, HIDE_IF_NEWER_SQL, HIDE_OLDER_SQL,
    INIT_SQL, INSERT_EVENT_REF_SQL, INSERT_EVENT_SQL, INSERT_PUBKEY_REF_SQL, UPGRADE_V1_SQL,
};
use nostr_relay::error::RelayError;
use nostr_relay::sql::SqlValue;
use nostr_relay::event::Event;
use nostr_relay::query::query_from_sub;
use nostr_relay::subscription::{ReqFilter, Subscription};

fn event(n: u64, pubkey: u64, created_at: i64, kind: u64, tags: Vec<Vec<String>>) -> Event {
    Event {
        id: format!("{:064x}", n),
        pubkey: format!("{:064x}", pubkey),
        created_at,
        kind,
        tags,
        content: String::new(),
        sig: "0".repeat(128),
    }
}

fn open() -> rusqlite::Connection {
    let mut conn = rusqlite::Connection::open_in_memory().unwrap();
    upgrade_db(&mut conn).unwrap();
    conn
}

// The stored content of each event is its id, so results read as ids.
fn store(conn: &mut rusqlite::Connection, e: &Event) -> usize {
    write_event(conn, e, &e.id).unwrap()
}

fn run(conn: &rusqlite::Connection, filters: Vec<ReqFilter>) -> Vec<String> {
    let q = query_from_sub(&Subscription { id: "s".to_owned(), filters });
    let mut stmt = conn.prepare(&q).unwrap();
    let rows = stmt.query_map([], |r| r.get::<_, String>(0)).unwrap();
    rows.map(|r| r.unwrap()).collect()
}

fn count(conn: &rusqlite::Connection, sql: &str) -> i64 {
    conn.query_row(sql, [], |r| r.get(0)).unwrap()
}

#[test]
fn fresh_store_is_upgraded_to_current() {
    let mut conn = open();
    assert_eq!(db_version(&mut conn).unwrap(), 2);
    // a second upgrade of a current store is a no-op
    upgrade_db(&mut conn).unwrap();
    assert_eq!(db_version(&mut conn).unwrap(), 2);
}

#[test]
fn newer_schema_is_refused() {
    let mut conn = rusqlite::Connection::open_in_memory().unwrap();
    conn.execute_batch("PRAGMA user_version = 3;").unwrap();
    assert!(matches!(upgrade_db(&mut conn), Err(RelayError::DatabaseVersionError(3))));
}

#[test]
fn schema_actions() {
    assert_eq!(schema_action(0), SchemaAction::Create);
    assert_eq!(schema_action(1), SchemaAction::UpgradeFromV1);
    assert_eq!(schema_action(2), SchemaAction::Current);
    assert_eq!(schema_action(3), SchemaAction::Unsupported);
}

#[test]
fn duplicate_ingest_is_reported_and_ignored() {
    let mut conn = open();
    let e = event(1, 7, 100, 1, vec![vec!["e".to_owned(), format!("{:064x}", 2)]]);
    let first = write_event(&mut conn, &e, &e.id);
    assert_eq!(classify_write(&first), WriteOutcome::Inserted);
    assert!(publishes(&classify_write(&first)));
    let second = write_event(&mut conn, &e, &e.id);
    assert!(matches!(second, Ok(0)));
    assert_eq!(classify_write(&second), WriteOutcome::Duplicate);
    assert!(!publishes(&classify_write(&second)));
    assert_eq!(count(&conn, "SELECT COUNT(*) FROM event"), 1);
    assert_eq!(count(&conn, "SELECT COUNT(*) FROM event_ref"), 1);
}

#[test]
fn event_and_pubkey_tags_are_materialized() {
    let mut conn = open();
    let tags = vec![
        vec!["e".to_owned(), format!("{:064x}", 2)],
        vec!["e".to_owned(), format!("{:064x}", 3)],
        vec!["p".to_owned(), format!("{:064x}", 4)],
        vec!["e".to_owned(), "not hex".to_owned()],
    ];
    let e = event(1, 7, 100, 1, tags);
    assert_eq!(store(&mut conn, &e), 1);
    assert_eq!(count(&conn, "SELECT COUNT(*) FROM event_ref"), 2);
    assert_eq!(count(&conn, "SELECT COUNT(*) FROM pubkey_ref"), 1);
    let found = run(&conn, vec![ReqFilter { events: Some(vec![format!("{:064x}", 3)]), ..Default::default() }]);
    assert_eq!(found, vec![e.id.clone()]);
    let found = run(&conn, vec![ReqFilter { pubkeys: Some(vec![format!("{:064x}", 4)]), ..Default::default() }]);
    assert_eq!(found, vec![e.id.clone()]);
}

#[test]
fn plan_decodes_tags_and_marks_replaceable() {
    let e = event(1, 7, 100, 0, vec![vec!["e".to_owned(), "0aff".to_owned()], vec!["e".to_owned(), "xyz".to_owned()]]);
    let p = plan_write(&e).unwrap();
    assert_eq!(p.event_refs, vec![Some(vec![0x0a, 0xff]), None]);
    assert!(p.pubkey_refs.is_empty());
    assert!(p.hide_older);
    assert_eq!(p.id_blob.len(), 32);
    assert_eq!(p.id_blob[31], 1);
    assert_eq!(p.author_blob[31], 7);
    assert!(!plan_write(&event(1, 7, 100, 1, vec![])).unwrap().hide_older);
    assert!(plan_write(&event(1, 7, 100, 3, vec![])).unwrap().hide_older);
}

#[test]
fn malformed_event_is_refused() {
    let mut e = event(1, 7, 100, 1, vec![]);
    e.id = "zz".to_owned();
    assert!(matches!(plan_write(&e), Err(RelayError::EventMalformed)));
    let mut conn = open();
    assert!(matches!(write_event(&mut conn, &e, "{}"), Err(RelayError::EventMalformed)));
    let mut e = event(1, 7, 100, 1, vec![]);
    e.kind = u64::MAX;
    assert!(matches!(plan_write(&e), Err(RelayError::EventMalformed)));
}

#[test]
fn replaceable_metadata_hides_older() {
    let mut conn = open();
    let m1 = event(1, 0xa, 100, 0, vec![]);
    let m2 = event(2, 0xa, 200, 0, vec![]);
    store(&mut conn, &m1);
    store(&mut conn, &m2);
    assert_eq!(count(&conn, "SELECT COUNT(*) FROM event WHERE hidden=TRUE"), 1);
    let hidden: String = conn
        .query_row("SELECT content FROM event WHERE hidden=TRUE", [], |r| r.get(0))
        .unwrap();
    assert_eq!(hidden, m1.id);
    // a filter without predicates returns the visible one only
    assert_eq!(run(&conn, vec![ReqFilter::default()]), vec![m2.id.clone()]);
}

#[test]
fn contact_lists_of_other_authors_stay_visible() {
    let mut conn = open();
    store(&mut conn, &event(1, 0xa, 100, 3, vec![]));
    store(&mut conn, &event(2, 0xb, 200, 3, vec![]));
    store(&mut conn, &event(3, 0xa, 300, 1, vec![]));
    assert_eq!(count(&conn, "SELECT COUNT(*) FROM event WHERE hidden=TRUE"), 0);
    store(&mut conn, &event(4, 0xa, 400, 3, vec![]));
    assert_eq!(count(&conn, "SELECT COUNT(*) FROM event WHERE hidden=TRUE"), 1);
}

#[test]
fn historical_query_then_live_match() {
    let mut conn = open();
    let e1 = event(1, 5, 100, 1, vec![]);
    store(&mut conn, &e1);
    let mut c = ClientConn::new();
    let filters = vec![ReqFilter { kinds: Some(vec![1]), ..Default::default() }];
    c.subscribe(Subscription { id: "h".to_owned(), filters: filters.clone() }).unwrap();
    assert_eq!(run(&conn, filters.clone()), vec![e1.id.clone()]);
    let e2 = event(2, 6, 150, 1, vec![]);
    assert_eq!(store(&mut conn, &e2), 1);
    assert_eq!(c.get_matching_subscriptions(&e2), vec!["h".to_owned()]);
    // the same event is found by a fresh query with the matching filter
    assert_eq!(run(&conn, filters), vec![e1.id.clone(), e2.id.clone()]);
}

#[test]
fn results_ascend_by_created_at() {
    let mut conn = open();
    store(&mut conn, &event(1, 5, 300, 1, vec![]));
    store(&mut conn, &event(2, 5, 100, 1, vec![]));
    store(&mut conn, &event(3, 5, 200, 1, vec![]));
    let found = run(&conn, vec![ReqFilter { authors: Some(vec![format!("{:064x}", 5)]), ..Default::default() }]);
    assert_eq!(found, vec![format!("{:064x}", 2), format!("{:064x}", 3), format!("{:064x}", 1)]);
}

#[test]
fn since_equal_until_returns_nothing() {
    let mut conn = open();
    store(&mut conn, &event(1, 5, 100, 1, vec![]));
    let found = run(&conn, vec![ReqFilter { since: Some(100), until: Some(100), ..Default::default() }]);
    assert!(found.is_empty());
    let found = run(&conn, vec![ReqFilter { since: Some(99), until: Some(101), ..Default::default() }]);
    assert_eq!(found.len(), 1);
}

#[test]
fn injection_attempt_leaves_store_intact() {
    let mut conn = open();
    let m1 = event(1, 0xa, 100, 0, vec![]);
    let m2 = event(2, 0xa, 200, 0, vec![]);
    store(&mut conn, &m1);
    store(&mut conn, &m2);
    let found = run(&conn, vec![ReqFilter {
        authors: Some(vec!["aa'; DROP TABLE event; --".to_owned()]),
        ..Default::default()
    }]);
    assert_eq!(found, vec![m2.id.clone()]);
    assert_eq!(count(&conn, "SELECT COUNT(*) FROM event"), 2);
}

#[test]
fn write_quota_per_minute() {
    assert_eq!(write_quota(None), None);
    assert_eq!(write_quota(Some(0)), None);
    assert_eq!(write_quota(Some(5)), Some(300));
    assert_eq!(write_quota(Some(u32::MAX)), Some(u32::MAX));
}

#[test]
fn persist_and_live_fanout() {
    let mut conn = open();
    let a = ClientConn::new();
    let mut b = ClientConn::new();
    b.subscribe(Subscription {
        id: "sub1".to_owned(),
        filters: vec![ReqFilter { kinds: Some(vec![1]), ..Default::default() }],
    })
    .unwrap();
    let e = event(42, 0xa, 100, 1, vec![]);
    let r = write_event(&mut conn, &e, &e.id);
    assert!(publishes(&classify_write(&r)));
    assert_eq!(b.get_matching_subscriptions(&e), vec!["sub1".to_owned()]);
    assert!(a.get_matching_subscriptions(&e).is_empty());
    assert_eq!(count(&conn, &format!("SELECT COUNT(*) FROM event WHERE event_hash = x'{}'", e.id)), 1);
}

#[test]
fn predicates_do_not_exclude_hidden_rows() {
    // Only a filter without predicates excludes hidden events; a filter
    // naming kind and author also returns the replaced metadata event.
    let mut conn = open();
    let m1 = event(1, 0xa, 100, 0, vec![]);
    let m2 = event(2, 0xa, 200, 0, vec![]);
    store(&mut conn, &m1);
    store(&mut conn, &m2);
    let found = run(&conn, vec![ReqFilter {
        kinds: Some(vec![0]),
        authors: Some(vec![format!("{:064x}", 0xa)]),
        ..Default::default()
    }]);
    assert_eq!(found, vec![m1.id.clone(), m2.id.clone()]);
}

#[test]
fn older_replaceable_event_arriving_late_is_hidden() {
    let mut conn = open();
    let newer = event(2, 0xa, 200, 0, vec![]);
    let older = event(1, 0xa, 100, 0, vec![]);
    store(&mut conn, &newer);
    store(&mut conn, &older);
    assert_eq!(count(&conn, "SELECT COUNT(*) FROM event WHERE hidden!=TRUE"), 1);
    assert_eq!(run(&conn, vec![ReqFilter::default()]), vec![newer.id.clone()]);
}

#[test]
fn upgrade_plans_by_version() {
    assert_eq!(upgrade_plan(0).unwrap(), Some(INIT_SQL));
    assert_eq!(upgrade_plan(1).unwrap(), Some(UPGRADE_V1_SQL));
    assert_eq!(upgrade_plan(2).unwrap(), None);
    assert!(matches!(upgrade_plan(7), Err(RelayError::DatabaseVersionError(7))));
}

#[test]
fn version_one_store_gains_hidden_column() {
    let mut conn = rusqlite::Connection::open_in_memory().unwrap();
    conn.execute_batch(
        "CREATE TABLE event (id INTEGER PRIMARY KEY, event_hash BLOB NOT NULL, first_seen INTEGER NOT NULL, created_at INTEGER NOT NULL, author BLOB NOT NULL, kind INTEGER NOT NULL, content TEXT NOT NULL); PRAGMA user_version = 1;",
    )
    .unwrap();
    upgrade_db(&mut conn).unwrap();
    assert_eq!(db_version(&mut conn).unwrap(), 2);
    assert_eq!(count(&conn, "SELECT COUNT(*) FROM pragma_table_info('event') WHERE name='hidden'"), 1);
}

#[test]
fn statements_of_a_write() {
    let tags = vec![
        vec!["e".to_owned(), "0a".to_owned()],
        vec!["p".to_owned(), "0b".to_owned()],
        vec!["e".to_owned(), "zz".to_owned()],
    ];
    let e = event(1, 7, 100, 3, tags);
    let p = plan_write(&e).unwrap();
    let ins = event_insert(&p, e.created_at, "{json}");
    assert_eq!(ins.sql, INSERT_EVENT_SQL);
    assert!(matches!(&ins.args[0], SqlValue::Blob(b) if b[31] == 1));
    assert!(matches!(ins.args[1], SqlValue::Integer(100)));
    assert!(matches!(ins.args[2], SqlValue::Integer(3)));
    assert!(matches!(&ins.args[3], SqlValue::Blob(b) if b[31] == 7));
    assert!(matches!(&ins.args[4], SqlValue::Text(t) if t == "{json}"));
    let steps = write_statements(&p, e.created_at, 42);
    let sqls: Vec<&str> = steps.iter().map(|s| s.sql).collect();
    assert_eq!(
        sqls,
        vec![INSERT_EVENT_REF_SQL, INSERT_EVENT_REF_SQL, INSERT_PUBKEY_REF_SQL, HIDE_IF_NEWER_SQL, HIDE_OLDER_SQL]
    );
    assert!(matches!(steps[0].args[0], SqlValue::Integer(42)));
    assert!(matches!(&steps[0].args[1], SqlValue::Blob(b) if b == &vec![0x0a]));
    assert!(matches!(steps[1].args[1], SqlValue::Null));
    assert!(matches!(&steps[2].args[1], SqlValue::Blob(b) if b == &vec![0x0b]));
    assert!(matches!(steps[4].args[3], SqlValue::Integer(100)));
    let plain = plan_write(&event(1, 7, 100, 1, vec![])).unwrap();
    assert!(write_statements(&plain, 100, 1).is_empty());
    assert_eq!(after_insert(0), InsertOutcome::Duplicate);
    assert_eq!(after_insert(1), InsertOutcome::Inserted);
}
