//! The event store: schema versioning and the write path.
use vstd::prelude::*;
use vstd::string::StringExecFns;
use crate::error::RelayError;
use crate::event::{Event, tag_values, strings_view};
use crate::query::all_hex;
use crate::sql::{SqlValue, execute, execute_batch, last_insert_rowid, query_usize};

verus! {

/// The store's file name inside the data directory.
pub const DB_FILE: &'static str = "nostr.db";

/// The schema version this relay writes.
pub const CURRENT_VERSION: usize = 2;

/// Pragmas applied on every open.
pub const STARTUP_SQL: &'static str = "PRAGMA main.synchronous=NORMAL;
PRAGMA foreign_keys = ON;
pragma mmap_size = 536870912;
";

/// The schema, created on a store that has none.
pub const INIT_SQL: &'static str = "PRAGMA encoding = \"UTF-8\";
PRAGMA journal_mode=WAL;
PRAGMA main.synchronous=NORMAL;
PRAGMA foreign_keys = ON;
PRAGMA application_id = 1654008667;
PRAGMA user_version = 2;
CREATE TABLE IF NOT EXISTS event (
id INTEGER PRIMARY KEY,
event_hash BLOB NOT NULL,
first_seen INTEGER NOT NULL,
created_at INTEGER NOT NULL,
author BLOB NOT NULL,
kind INTEGER NOT NULL,
hidden INTEGER,
content TEXT NOT NULL
);
CREATE UNIQUE INDEX IF NOT EXISTS event_hash_index ON event(event_hash);
CREATE INDEX IF NOT EXISTS created_at_index ON event(created_at);
CREATE INDEX IF NOT EXISTS author_index ON event(author);
CREATE INDEX IF NOT EXISTS kind_index ON event(kind);
CREATE TABLE IF NOT EXISTS event_ref (
id INTEGER PRIMARY KEY,
event_id INTEGER NOT NULL,
referenced_event BLOB NOT NULL,
FOREIGN KEY(event_id) REFERENCES event(id) ON UPDATE CASCADE ON DELETE CASCADE
);
CREATE INDEX IF NOT EXISTS event_ref_index ON event_ref(referenced_event);
CREATE TABLE IF NOT EXISTS pubkey_ref (
id INTEGER PRIMARY KEY,
event_id INTEGER NOT NULL,
referenced_pubkey BLOB NOT NULL,
FOREIGN KEY(event_id) REFERENCES event(id) ON UPDATE RESTRICT ON DELETE CASCADE
);
CREATE INDEX IF NOT EXISTS pubkey_ref_index ON pubkey_ref(referenced_pubkey);
";

/// The migration from schema version 1: events gain the `hidden` column.
pub const UPGRADE_V1_SQL: &'static str = "ALTER TABLE event ADD hidden INTEGER;
UPDATE event SET hidden=FALSE;
PRAGMA user_version = 2;
";

const VERSION_SQL: &'static str = "PRAGMA user_version;";

/// Inserts the event row unless its hash is already stored.
pub const INSERT_EVENT_SQL: &'static str = "INSERT OR IGNORE INTO event (event_hash, created_at, kind, author, content, first_seen, hidden) VALUES (?1, ?2, ?3, ?4, ?5, strftime('%s','now'), FALSE);";

/// Records one event reference of a stored event.
pub const INSERT_EVENT_REF_SQL: &'static str = "INSERT OR IGNORE INTO event_ref (event_id, referenced_event) VALUES (?1, ?2)";

/// Records one public-key reference of a stored event.
pub const INSERT_PUBKEY_REF_SQL: &'static str = "INSERT OR IGNORE INTO pubkey_ref (event_id, referenced_pubkey) VALUES (?1, ?2)";

/// Opens the transaction of one event write.
pub const BEGIN_SQL: &'static str = "BEGIN";

/// Commits the transaction of one event write.
pub const COMMIT_SQL: &'static str = "COMMIT";

/// Abandons the transaction of one event write.
pub const ROLLBACK_SQL: &'static str = "ROLLBACK";

/// Hides the new event when a newer visible event of the same author and
/// kind is already stored.
pub const HIDE_IF_NEWER_SQL: &'static str = "UPDATE event SET hidden=TRUE WHERE id=?1 AND EXISTS (SELECT 1 FROM event WHERE id!=?1 AND kind=?2 AND author=?3 AND created_at > ?4 AND hidden!=TRUE)";

/// Hides the older visible events of the same author and kind.
pub const HIDE_OLDER_SQL: &'static str = "UPDATE event SET hidden=TRUE WHERE id!=?1 AND kind=?2 AND author=?3 AND created_at <= ?4 AND hidden!=TRUE";

/// The value of a hex digit.
pub open spec fn hex_val(c: char) -> nat {
    if '0' <= c && c <= '9' {
        (c as nat - '0' as nat) as nat
    } else if 'a' <= c && c <= 'f' {
        (c as nat - 'a' as nat + 10) as nat
    } else {
        (c as nat - 'A' as nat + 10) as nat
    }
}

/// A string of hex digit pairs.
pub open spec fn hex_decodable(s: Seq<char>) -> bool {
    s.len() % 2 == 0 && all_hex(s)
}

/// The bytes that a string of hex digit pairs stands for.
pub open spec fn hex_bytes(s: Seq<char>) -> Seq<u8> {
    Seq::new(s.len() / 2, |i: int| (16 * hex_val(s[2 * i]) + hex_val(s[2 * i + 1])) as u8)
}

/// The decoding of a hex string: its bytes, or none where it is not hex.
pub open spec fn decode_spec(s: Seq<char>) -> Option<Seq<u8>> {
    if hex_decodable(s) {
        Some(hex_bytes(s))
    } else {
        None
    }
}

/// Relies on hex::decode: pairs of hex digits, either case, become bytes;
/// an odd length or another character is an error.
#[verifier::external_body]
fn decode_hex(s: &str) -> (r: Option<Vec<u8>>)
    ensures
        r is Some <==> hex_decodable(s@),
        r matches Some(b) ==> b@ == hex_bytes(s@),
{
    hex::decode(s).ok()
}

/// The kinds whose newest event per author replaces the older ones.
pub open spec fn is_replaceable(kind: u64) -> bool {
    kind == 0 || kind == 3
}

/// The view of an optional byte vector.
pub open spec fn opt_bytes(o: Option<Vec<u8>>) -> Option<Seq<u8>> {
    match o {
        Some(b) => Some(b@),
        None => None,
    }
}

/// The views of a list of optional byte vectors.
pub open spec fn ref_views(v: Seq<Option<Vec<u8>>>) -> Seq<Option<Seq<u8>>> {
    v.map_values(|o: Option<Vec<u8>>| opt_bytes(o))
}

/// The decodings of a list of tag values, in order.
pub open spec fn decoded_refs(vals: Seq<Seq<char>>) -> Seq<Option<Seq<u8>>> {
    vals.map_values(|v: Seq<char>| decode_spec(v))
}

/// What one event write stores: the event's key columns, the decoded tag
/// references, and whether older replaceable events are hidden.
#[derive(Debug)]
pub struct WritePlan {
    /// The event hash as bytes.
    pub id_blob: Vec<u8>,
    /// The author key as bytes.
    pub author_blob: Vec<u8>,
    /// The kind, as the store's signed integer.
    pub kind: i64,
    /// One entry per `e` tag: its decoded value, or none where not hex.
    pub event_refs: Vec<Option<Vec<u8>>>,
    /// One entry per `p` tag: its decoded value, or none where not hex.
    pub pubkey_refs: Vec<Option<Vec<u8>>>,
    /// Whether the write hides older events of the same author and kind.
    pub hide_older: bool,
}

/// The event can be stored: hex id and author, and a kind that fits the
/// store's integer.
pub open spec fn storable(e: Event) -> bool {
    hex_decodable(e.id@) && hex_decodable(e.pubkey@) && e.kind <= i64::MAX
}

/// The plan is exactly what storing `e` writes.
pub open spec fn plan_of(p: WritePlan, e: Event) -> bool {
    &&& p.id_blob@ == hex_bytes(e.id@)
    &&& p.author_blob@ == hex_bytes(e.pubkey@)
    &&& p.kind == e.kind as i64
    &&& ref_views(p.event_refs@) == decoded_refs(tag_values(e.tags@, "e"@))
    &&& ref_views(p.pubkey_refs@) == decoded_refs(tag_values(e.tags@, "p"@))
    &&& p.hide_older == is_replaceable(e.kind)
}

/// An event produced by a subscription's historical query.
#[derive(Clone, Debug)]
pub struct QueryResult {
    /// The subscription the event answers.
    pub sub_id: String,
    /// The event.
    pub event: Event,
}

/// Sixty times the rate, capped at the largest `u32`, for a present nonzero rate.
pub open spec fn quota_spec(messages_per_sec: Option<u32>) -> Option<u32> {
    match messages_per_sec {
        Some(n) => if n == 0 {
            None
        } else if n * 60 <= u32::MAX {
            Some((n * 60) as u32)
        } else {
            Some(u32::MAX)
        },
        None => None,
    }
}

/// The size of the writer's token bucket per minute for a configured rate of
/// events per second: none when the rate is absent or zero.
pub fn write_quota(messages_per_sec: Option<u32>) -> (r: Option<u32>)
    ensures
        r == quota_spec(messages_per_sec),
{
    match messages_per_sec {
        Some(n) => {
            if n == 0 {
                None
            } else {
                if n <= u32::MAX / 60 {
                    Some(n * 60)
                } else {
                    Some(u32::MAX)
                }
            }
        },
        None => None,
    }
}

/// What the writer does after a write.
#[derive(Debug, PartialEq, Eq)]
pub enum WriteOutcome {
    /// The event was new: publish it to live subscribers.
    Inserted,
    /// An event with the same hash was already stored: do nothing more.
    Duplicate,
    /// The store failed: the event is dropped.
    Failed,
}

/// The decoded values of a list of tag values.
fn decode_refs(vals: &Vec<String>) -> (r: Vec<Option<Vec<u8>>>)
    ensures
        ref_views(r@) == decoded_refs(strings_view(vals@)),
{
    let mut r: Vec<Option<Vec<u8>>> = Vec::new();
    let mut i: usize = 0;
    while i < vals.len()
        invariant
            i <= vals@.len(),
            r@.len() == i,
            forall|j: int| 0 <= j < i ==> opt_bytes(#[trigger] r@[j]) == decode_spec(vals@[j]@),
        decreases vals@.len() - i,
    {
        let d = decode_hex(vals[i].as_str());
        r.push(d);
        i = i + 1;
    }
    assert(ref_views(r@) =~= decoded_refs(strings_view(vals@)));
    r
}

/// Work out what storing `e` writes, or refuse an event that cannot be stored.
pub fn plan_write(e: &Event) -> (r: Result<WritePlan, RelayError>)
    ensures
        storable(*e) <==> r is Ok,
        r matches Ok(p) ==> plan_of(p, *e),
        r matches Err(err) ==> err is EventMalformed,
{
    let id_blob = match decode_hex(e.id.as_str()) {
        Some(b) => b,
        None => return Err(RelayError::EventMalformed),
    };
    let author_blob = match decode_hex(e.pubkey.as_str()) {
        Some(b) => b,
        None => return Err(RelayError::EventMalformed),
    };
    if e.kind > i64::MAX as u64 {
        return Err(RelayError::EventMalformed);
    }
    let etags = e.get_event_tags();
    let ptags = e.get_pubkey_tags();
    let event_refs = decode_refs(&etags);
    let pubkey_refs = decode_refs(&ptags);
    Ok(WritePlan {
        id_blob,
        author_blob,
        kind: e.kind as i64,
        event_refs,
        pubkey_refs,
        hide_older: e.kind == 0 || e.kind == 3,
    })
}

/// How the writer classifies the result of a write.
pub open spec fn outcome_of(r: Result<usize, RelayError>) -> WriteOutcome {
    match r {
        Ok(0) => WriteOutcome::Duplicate,
        Ok(_) => WriteOutcome::Inserted,
        Err(_) => WriteOutcome::Failed,
    }
}

/// Classify the result of a write: no rows inserted means a duplicate.
pub fn classify_write(r: &Result<usize, RelayError>) -> (o: WriteOutcome)
    ensures
        o == outcome_of(*r),
{
    match r {
        Ok(0) => WriteOutcome::Duplicate,
        Ok(_) => WriteOutcome::Inserted,
        Err(_) => WriteOutcome::Failed,
    }
}

/// Whether the writer publishes an event after a write with this outcome.
pub fn publishes(o: &WriteOutcome) -> (r: bool)
    ensures
        r == (*o is Inserted),
{
    match o {
        WriteOutcome::Inserted => true,
        _ => false,
    }
}

/// The store's schema version.
pub fn db_version(conn: &mut rusqlite::Connection) -> (r: Result<usize, RelayError>)
    ensures
        r matches Err(err) ==> err is SqlError,
{
    match query_usize(conn, VERSION_SQL) {
        Ok(v) => Ok(v),
        Err(err) => Err(RelayError::SqlError(err)),
    }
}

/// What opening a store of a given schema version requires.
#[derive(Debug, PartialEq, Eq)]
pub enum SchemaAction {
    /// No schema yet: create it.
    Create,
    /// Version 1: add the `hidden` column.
    UpgradeFromV1,
    /// Already current.
    Current,
    /// Newer than this relay knows.
    Unsupported,
}

/// Decide how to bring a store of version `v` to the current schema.
pub fn schema_action(v: usize) -> (r: SchemaAction)
    ensures
        v == 0 <==> r is Create,
        v == 1 <==> r is UpgradeFromV1,
        v == CURRENT_VERSION <==> r is Current,
        v > CURRENT_VERSION <==> r is Unsupported,
{
    if v == 0 {
        SchemaAction::Create
    } else if v == 1 {
        SchemaAction::UpgradeFromV1
    } else if v == CURRENT_VERSION {
        SchemaAction::Current
    } else {
        SchemaAction::Unsupported
    }
}

/// The script that brings a store of version `v` to the current schema:
/// none when it is current; a version newer than the current one is refused.
pub fn upgrade_plan(v: usize) -> (r: Result<Option<&'static str>, RelayError>)
    ensures
        v == 0 ==> (r matches Ok(Some(sql)) && sql@ == INIT_SQL@),
        v == 1 ==> (r matches Ok(Some(sql)) && sql@ == UPGRADE_V1_SQL@),
        v == CURRENT_VERSION ==> r matches Ok(None),
        v > CURRENT_VERSION ==> (r matches Err(RelayError::DatabaseVersionError(x)) && x == v),
{
    match schema_action(v) {
        SchemaAction::Create => Ok(Some(INIT_SQL)),
        SchemaAction::UpgradeFromV1 => Ok(Some(UPGRADE_V1_SQL)),
        SchemaAction::Current => Ok(None),
        SchemaAction::Unsupported => Err(RelayError::DatabaseVersionError(v)),
    }
}

/// Bring the store's schema to the current version, then apply the startup
/// pragmas: run the script of `upgrade_plan` for the stored version, if any,
/// then `STARTUP_SQL`. A version newer than the current one is refused.
pub fn upgrade_db(conn: &mut rusqlite::Connection) -> (r: Result<(), RelayError>)
    ensures
        r matches Err(err) ==> (err is SqlError || (err matches RelayError::DatabaseVersionError(v) && v > CURRENT_VERSION)),
{
    let v = db_version(conn)?;
    if let Some(sql) = upgrade_plan(v)? {
        if let Err(err) = execute_batch(conn, sql) {
            return Err(RelayError::SqlError(err));
        }
    }
    match execute_batch(conn, STARTUP_SQL) {
        Ok(()) => Ok(()),
        Err(err) => Err(RelayError::SqlError(err)),
    }
}

/// A statement with the values bound to its parameters, in order.
pub struct Statement {
    /// The statement text.
    pub sql: &'static str,
    /// The bound values.
    pub args: Vec<SqlValue>,
}

/// The mathematical value of a bound value.
pub enum ValueView {
    /// SQL NULL.
    Null,
    /// A signed integer.
    Integer(i64),
    /// A text string.
    Text(Seq<char>),
    /// A blob of bytes.
    Blob(Seq<u8>),
}

/// The view of a bound value.
pub open spec fn value_view(v: SqlValue) -> ValueView {
    match v {
        SqlValue::Null => ValueView::Null,
        SqlValue::Integer(i) => ValueView::Integer(i),
        SqlValue::Text(t) => ValueView::Text(t@),
        SqlValue::Blob(b) => ValueView::Blob(b@),
    }
}

/// The view of a statement: its text and its bound values.
pub open spec fn stmt_view(s: Statement) -> (Seq<char>, Seq<ValueView>) {
    (s.sql@, s.args@.map_values(|v: SqlValue| value_view(v)))
}

/// The views of a list of statements.
pub open spec fn stmts_view(s: Seq<Statement>) -> Seq<(Seq<char>, Seq<ValueView>)> {
    s.map_values(|x: Statement| stmt_view(x))
}

/// The values bound to the event insert: hash, creation time, kind, author
/// and serialized form.
pub open spec fn insert_event_args(p: WritePlan, created_at: i64, json: Seq<char>) -> Seq<ValueView> {
    seq![
        ValueView::Blob(p.id_blob@),
        ValueView::Integer(created_at),
        ValueView::Integer(p.kind),
        ValueView::Blob(p.author_blob@),
        ValueView::Text(json),
    ]
}

/// The values bound to one reference insert: the event's row, then the
/// decoded reference or NULL where it was not hex.
pub open spec fn ref_args(row: i64, r: Option<Vec<u8>>) -> Seq<ValueView> {
    seq![
        ValueView::Integer(row),
        match r {
            Some(b) => ValueView::Blob(b@),
            None => ValueView::Null,
        },
    ]
}

/// One reference insert for each reference, in order.
pub open spec fn ref_script(sql: Seq<char>, row: i64, refs: Seq<Option<Vec<u8>>>) -> Seq<(Seq<char>, Seq<ValueView>)> {
    Seq::new(refs.len(), |i: int| (sql, ref_args(row, refs[i])))
}

/// The values bound to the hiding updates: the event's row, kind, author and
/// creation time.
pub open spec fn hide_args(p: WritePlan, created_at: i64, row: i64) -> Seq<ValueView> {
    seq![
        ValueView::Integer(row),
        ValueView::Integer(p.kind),
        ValueView::Blob(p.author_blob@),
        ValueView::Integer(created_at),
    ]
}

/// What follows a successful event insert at row `row`: the `e` references,
/// the `p` references and, for a replaceable kind, hiding the new event when
/// a newer visible one exists, then hiding the older ones.
pub open spec fn write_script(p: WritePlan, created_at: i64, row: i64) -> Seq<(Seq<char>, Seq<ValueView>)> {
    ref_script(INSERT_EVENT_REF_SQL@, row, p.event_refs@) + ref_script(INSERT_PUBKEY_REF_SQL@, row, p.pubkey_refs@)
        + if p.hide_older {
        seq![(HIDE_IF_NEWER_SQL@, hide_args(p, created_at, row)), (HIDE_OLDER_SQL@, hide_args(p, created_at, row))]
    } else {
        Seq::empty()
    }
}

proof fn lemma_stmts_view_push(v: Seq<Statement>, x: Statement)
    ensures
        stmts_view(v.push(x)) == stmts_view(v).push(stmt_view(x)),
{
    assert(stmts_view(v.push(x)) =~= stmts_view(v).push(stmt_view(x)));
}

/// The event insert of a plan.
pub fn event_insert(p: &WritePlan, created_at: i64, event_json: &str) -> (r: Statement)
    ensures
        stmt_view(r) == (INSERT_EVENT_SQL@, insert_event_args(*p, created_at, event_json@)),
{
    let mut args: Vec<SqlValue> = Vec::new();
    args.push(SqlValue::Blob(p.id_blob.clone()));
    args.push(SqlValue::Integer(created_at));
    args.push(SqlValue::Integer(p.kind));
    args.push(SqlValue::Blob(p.author_blob.clone()));
    args.push(SqlValue::Text(String::from_str(event_json)));
    let r = Statement { sql: INSERT_EVENT_SQL, args };
    assert(stmt_view(r).1 =~= insert_event_args(*p, created_at, event_json@));
    r
}

/// Append one reference insert for each reference.
fn push_ref_statements(sql: &'static str, row: i64, refs: &Vec<Option<Vec<u8>>>, out: &mut Vec<Statement>)
    ensures
        stmts_view(final(out)@) == stmts_view(old(out)@) + ref_script(sql@, row, refs@),
{
    let ghost start = stmts_view(out@);
    let mut i: usize = 0;
    while i < refs.len()
        invariant
            i <= refs@.len(),
            stmts_view(out@) == start + ref_script(sql@, row, refs@.subrange(0, i as int)),
        decreases refs@.len() - i,
    {
        let mut args: Vec<SqlValue> = Vec::new();
        args.push(SqlValue::Integer(row));
        match &refs[i] {
            Some(b) => args.push(SqlValue::Blob(b.clone())),
            None => args.push(SqlValue::Null),
        }
        let st = Statement { sql, args };
        assert(stmt_view(st).1 =~= ref_args(row, refs@[i as int]));
        let ghost before = out@;
        out.push(st);
        proof {
            lemma_stmts_view_push(before, st);
            assert(ref_script(sql@, row, refs@.subrange(0, i + 1)) =~= ref_script(sql@, row, refs@.subrange(0, i as int)).push((sql@, ref_args(row, refs@[i as int]))));
            assert(stmts_view(out@) =~= start + ref_script(sql@, row, refs@.subrange(0, i + 1)));
        }
        i = i + 1;
    }
    assert(refs@.subrange(0, refs@.len() as int) == refs@);
}

/// A hiding update of a plan.
fn hide_statement(sql: &'static str, p: &WritePlan, created_at: i64, row: i64) -> (r: Statement)
    ensures
        stmt_view(r) == (sql@, hide_args(*p, created_at, row)),
{
    let mut args: Vec<SqlValue> = Vec::new();
    args.push(SqlValue::Integer(row));
    args.push(SqlValue::Integer(p.kind));
    args.push(SqlValue::Blob(p.author_blob.clone()));
    args.push(SqlValue::Integer(created_at));
    let r = Statement { sql, args };
    assert(stmt_view(r).1 =~= hide_args(*p, created_at, row));
    r
}

/// The statements that follow a successful event insert at row `row`.
pub fn write_statements(p: &WritePlan, created_at: i64, row: i64) -> (r: Vec<Statement>)
    ensures
        stmts_view(r@) == write_script(*p, created_at, row),
{
    let mut out: Vec<Statement> = Vec::new();
    push_ref_statements(INSERT_EVENT_REF_SQL, row, &p.event_refs, &mut out);
    push_ref_statements(INSERT_PUBKEY_REF_SQL, row, &p.pubkey_refs, &mut out);
    let ghost refs_part = stmts_view(out@);
    if p.hide_older {
        let s1 = hide_statement(HIDE_IF_NEWER_SQL, p, created_at, row);
        let ghost b1 = out@;
        out.push(s1);
        proof { lemma_stmts_view_push(b1, s1); }
        let s2 = hide_statement(HIDE_OLDER_SQL, p, created_at, row);
        let ghost b2 = out@;
        out.push(s2);
        proof { lemma_stmts_view_push(b2, s2); }
    }
    assert(stmts_view(out@) =~= write_script(*p, created_at, row));
    out
}

/// What an event insert's row count means.
#[derive(Debug, PartialEq, Eq)]
pub enum InsertOutcome {
    /// No row was inserted: the hash was already stored. The transaction is
    /// rolled back and nothing more is written.
    Duplicate,
    /// The row was inserted: the references and hiding updates follow.
    Inserted,
}

/// Classify the row count of the event insert.
pub fn after_insert(n: usize) -> (r: InsertOutcome)
    ensures
        r is Duplicate <==> n == 0,
        r is Inserted <==> n > 0,
{
    if n == 0 {
        InsertOutcome::Duplicate
    } else {
        InsertOutcome::Inserted
    }
}

/// Run statements in order, stopping at the first that fails.
fn run_statements(conn: &rusqlite::Connection, stmts: Vec<Statement>) -> (r: Result<(), rusqlite::Error>) {
    let mut rest = stmts;
    while rest.len() > 0
        decreases rest@.len(),
    {
        let st = rest.remove(0);
        execute(conn, st.sql, st.args)?;
    }
    Ok(())
}

/// Undo the open transaction and report the store's error.
fn abandon(conn: &rusqlite::Connection, err: rusqlite::Error) -> (r: Result<usize, RelayError>)
    ensures
        r matches Err(e) && e is SqlError,
{
    let _ = execute_batch(conn, ROLLBACK_SQL);
    Err(RelayError::SqlError(err))
}

/// Persist an event with its serialized form `event_json`, in one
/// transaction.
///
/// After `BEGIN`, the statement of `event_insert` runs. By `after_insert`,
/// no inserted row (a duplicate hash) means `ROLLBACK` and `Ok(0)`; otherwise
/// the statements of `write_statements` for the new row run in order, then
/// `COMMIT`, and the result is `Ok(1)`. Any failure of the store after
/// `BEGIN` means `ROLLBACK` and the store's error.
pub fn write_event(conn: &mut rusqlite::Connection, e: &Event, event_json: &str) -> (r: Result<usize, RelayError>)
    ensures
        !storable(*e) ==> (r matches Err(err) && err is EventMalformed),
        storable(*e) ==> (r matches Err(err) ==> err is SqlError),
        r matches Ok(n) ==> n <= 1,
{
    let plan = plan_write(e)?;
    if let Err(err) = execute_batch(conn, BEGIN_SQL) {
        return Err(RelayError::SqlError(err));
    }
    let insert = event_insert(&plan, e.created_at, event_json);
    let n = match execute(conn, insert.sql, insert.args) {
        Ok(n) => n,
        Err(err) => return abandon(conn, err),
    };
    match after_insert(n) {
        InsertOutcome::Duplicate => {
            let _ = execute_batch(conn, ROLLBACK_SQL);
            return Ok(0);
        },
        InsertOutcome::Inserted => {},
    }
    let row = last_insert_rowid(conn);
    let script = write_statements(&plan, e.created_at, row);
    if let Err(err) = run_statements(conn, script) {
        return abandon(conn, err);
    }
    if let Err(err) = execute_batch(conn, COMMIT_SQL) {
        return abandon(conn, err);
    }
    Ok(1)
}

} // verus!
