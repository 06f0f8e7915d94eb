//! Building the store query for a subscription.
//!
//! Every value taken from a filter enters the query text either as a decimal
//! integer or as a blob literal of hex digits; any other value is dropped.
use vstd::prelude::*;
use vstd::string::{StrSliceExecFns, StringExecFns};
use crate::event::strings_view;
use crate::subscription::{ReqFilter, Subscription};

verus! {

/// The fixed start of every query.
pub open spec fn query_prefix() -> Seq<char> {
    "SELECT DISTINCT(e.content) FROM event e LEFT JOIN event_ref er ON e.id=er.event_id LEFT JOIN pubkey_ref pr ON e.id=pr.event_id "@
}

/// A hex digit, either case.
pub open spec fn is_hex_char(c: char) -> bool {
    ('0' <= c && c <= '9') || ('a' <= c && c <= 'f') || ('A' <= c && c <= 'F')
}

/// Every character is a hex digit.
pub open spec fn all_hex(s: Seq<char>) -> bool {
    forall|i: int| 0 <= i < s.len() ==> is_hex_char(#[trigger] s[i])
}

/// The decimal text of a natural number, without leading zeros.
pub open spec fn decimal(n: nat) -> Seq<char>
    decreases n,
{
    if n < 10 {
        seq!["0123456789"@[n as int]]
    } else {
        decimal(n / 10).push("0123456789"@[(n % 10) as int])
    }
}

/// The parts joined, with `sep` between each two.
pub open spec fn join(parts: Seq<Seq<char>>, sep: Seq<char>) -> Seq<char>
    decreases parts.len(),
{
    if parts.len() == 0 {
        Seq::empty()
    } else if parts.len() == 1 {
        parts[0]
    } else {
        join(parts.drop_last(), sep) + sep + parts.last()
    }
}

/// A blob literal of the hex digits `v`.
pub open spec fn hex_blob(v: Seq<char>) -> Seq<char> {
    "x'"@ + v + "'"@
}

/// A value that can stand in a blob literal: an even number of hex digits.
pub open spec fn blob_hex(s: Seq<char>) -> bool {
    s.len() % 2 == 0 && all_hex(s)
}

/// The blob literals of the values that are an even number of hex digits,
/// in order; the other values are dropped.
pub open spec fn escaped_hex(vals: Seq<Seq<char>>) -> Seq<Seq<char>>
    decreases vals.len(),
{
    if vals.len() == 0 {
        Seq::empty()
    } else {
        let rest = escaped_hex(vals.drop_last());
        if blob_hex(vals.last()) {
            rest.push(hex_blob(vals.last()))
        } else {
            rest
        }
    }
}

/// `column IN (item, item, ...)`.
pub open spec fn in_clause(column: Seq<char>, items: Seq<Seq<char>>) -> Seq<char> {
    column + " IN ("@ + join(items, ", "@) + ")"@
}

/// The clause on `column` for a list of items: none when the list is empty.
pub open spec fn list_clause(column: Seq<char>, items: Seq<Seq<char>>) -> Seq<Seq<char>> {
    if items.len() > 0 {
        seq![in_clause(column, items)]
    } else {
        Seq::empty()
    }
}

/// The clause on `column` for a present list of hex values.
pub open spec fn hex_field(column: Seq<char>, vals: Option<Vec<String>>) -> Seq<Seq<char>> {
    match vals {
        Some(v) => list_clause(column, escaped_hex(strings_view(v@))),
        None => Seq::empty(),
    }
}

/// The decimal texts of the kinds, in order.
pub open spec fn kind_texts(ks: Seq<u64>) -> Seq<Seq<char>> {
    ks.map_values(|k: u64| decimal(k as nat))
}

/// The clause on `kind` for a present list of kinds.
pub open spec fn kinds_field(kinds: Option<Vec<u64>>) -> Seq<Seq<char>> {
    match kinds {
        Some(v) => list_clause("kind"@, kind_texts(v@)),
        None => Seq::empty(),
    }
}

/// A comparison of `created_at` with a present bound.
pub open spec fn bound_field(op: Seq<char>, bound: Option<u64>) -> Seq<Seq<char>> {
    match bound {
        Some(t) => seq![op + decimal(t as nat)],
        None => Seq::empty(),
    }
}

/// The clauses of a filter, in a fixed order of fields.
pub open spec fn filter_components(f: ReqFilter) -> Seq<Seq<char>> {
    hex_field("author"@, f.authors) + kinds_field(f.kinds) + hex_field("event_hash"@, f.ids)
        + hex_field("referenced_event"@, f.events) + hex_field("referenced_pubkey"@, f.pubkeys)
        + bound_field("created_at > "@, f.since) + bound_field("created_at < "@, f.until)
}

/// The condition of a filter: its clauses joined with AND, or, for a filter
/// without clauses, the condition that excludes hidden events.
pub open spec fn filter_condition(f: ReqFilter) -> Seq<char> {
    let comps = filter_components(f);
    if comps.len() > 0 {
        "( "@ + join(comps, " AND "@) + " )"@
    } else {
        "hidden!=TRUE"@
    }
}

/// The conditions of the filters, in order.
pub open spec fn conditions(fs: Seq<ReqFilter>) -> Seq<Seq<char>> {
    fs.map_values(|f: ReqFilter| filter_condition(f))
}

/// The full query text for a subscription.
pub open spec fn query_text(s: Subscription) -> Seq<char> {
    let conds = conditions(s.filters@);
    let where_part = if conds.len() > 0 {
        " WHERE "@ + join(conds, " OR "@)
    } else {
        Seq::empty()
    };
    query_prefix() + where_part + " ORDER BY created_at ASC"@
}

proof fn lemma_strings_view_push(v: Seq<String>, x: String)
    ensures
        strings_view(v.push(x)) == strings_view(v).push(x@),
{
    assert(strings_view(v.push(x)) =~= strings_view(v).push(x@));
}

/// Whether a string holds only hex digits.
pub fn is_hex(s: &str) -> (r: bool)
    ensures
        r == all_hex(s@),
{
    let n = s.unicode_len();
    let mut i: usize = 0;
    while i < n
        invariant
            n == s@.len(),
            i <= n,
            forall|j: int| 0 <= j < i ==> is_hex_char(#[trigger] s@[j]),
        decreases n - i,
    {
        let c = s.get_char(i);
        if !(('0' <= c && c <= '9') || ('a' <= c && c <= 'f') || ('A' <= c && c <= 'F')) {
            return false;
        }
        i = i + 1;
    }
    true
}

/// The decimal text of `n`.
pub fn decimal_string(n: u64) -> (r: String)
    ensures
        r@ == decimal(n as nat),
    decreases n,
{
    let digits = "0123456789";
    proof {
        reveal_strlit("0123456789");
    }
    let d = (n % 10) as usize;
    if n < 10 {
        String::from_str(digits.substring_char(d, d + 1))
    } else {
        let mut r = decimal_string(n / 10);
        r.append(digits.substring_char(d, d + 1));
        assert(digits@.subrange(d as int, d + 1) =~= seq![digits@[d as int]]);
        r
    }
}

/// The parts joined, with `sep` between each two.
pub fn join_strings(parts: &Vec<String>, sep: &str) -> (r: String)
    ensures
        r@ == join(strings_view(parts@), sep@),
{
    let mut r = String::new();
    let mut i: usize = 0;
    while i < parts.len()
        invariant
            i <= parts@.len(),
            r@ == join(strings_view(parts@.subrange(0, i as int)), sep@),
        decreases parts@.len() - i,
    {
        let ghost pre = strings_view(parts@.subrange(0, i + 1));
        assert(pre.drop_last() =~= strings_view(parts@.subrange(0, i as int)));
        if i > 0 {
            r.append(sep);
        }
        r.append(parts[i].as_str());
        assert(r@ == join(pre, sep@)) by {
            if i == 0 {
                assert(r@ =~= pre[0]);
            }
        }
        i = i + 1;
    }
    assert(parts@.subrange(0, parts@.len() as int) == parts@);
    r
}

/// `column IN (items)`, built from the joined items.
fn in_clause_string(column: &str, items: &Vec<String>) -> (r: String)
    ensures
        r@ == in_clause(column@, strings_view(items@)),
{
    let mut c = String::from_str(column);
    c.append(" IN (");
    let joined = join_strings(items, ", ");
    c.append(joined.as_str());
    c.append(")");
    c
}

/// Append the clause on `column` for a present list of hex values.
fn push_hex_clause(column: &str, vals: &Vec<String>, comps: &mut Vec<String>)
    ensures
        strings_view(final(comps)@) == strings_view(old(comps)@) + list_clause(column@, escaped_hex(strings_view(vals@))),
{
    let mut escaped: Vec<String> = Vec::new();
    let mut i: usize = 0;
    while i < vals.len()
        invariant
            i <= vals@.len(),
            strings_view(escaped@) == escaped_hex(strings_view(vals@.subrange(0, i as int))),
        decreases vals@.len() - i,
    {
        let ghost pre = strings_view(vals@.subrange(0, i + 1));
        assert(pre.drop_last() =~= strings_view(vals@.subrange(0, i as int)));
        assert(pre.last() == vals@[i as int]@);
        if vals[i].as_str().unicode_len() % 2 == 0 && is_hex(vals[i].as_str()) {
            let mut b = String::from_str("x'");
            b.append(vals[i].as_str());
            b.append("'");
            escaped.push(b);
        }
        assert(strings_view(escaped@) =~= escaped_hex(pre));
        i = i + 1;
    }
    assert(vals@.subrange(0, vals@.len() as int) == vals@);
    if escaped.len() > 0 {
        let clause = in_clause_string(column, &escaped);
        comps.push(clause);
    }
    assert(strings_view(comps@) =~= strings_view(old(comps)@) + list_clause(column@, escaped_hex(strings_view(vals@))));
}

/// Append the clause on `kind` for a present list of kinds.
fn push_kinds_clause(kinds: &Vec<u64>, comps: &mut Vec<String>)
    ensures
        strings_view(final(comps)@) == strings_view(old(comps)@) + list_clause("kind"@, kind_texts(kinds@)),
{
    let mut items: Vec<String> = Vec::new();
    let mut i: usize = 0;
    while i < kinds.len()
        invariant
            i <= kinds@.len(),
            strings_view(items@) == kind_texts(kinds@.subrange(0, i as int)),
        decreases kinds@.len() - i,
    {
        let ghost before = items@;
        items.push(decimal_string(kinds[i]));
        proof {
            lemma_strings_view_push(before, items@[i as int]);
            assert(kinds@.subrange(0, i + 1).drop_last() =~= kinds@.subrange(0, i as int));
            assert(kind_texts(kinds@.subrange(0, i + 1)) =~= kind_texts(kinds@.subrange(0, i as int)).push(decimal(kinds@[i as int] as nat)));
        }
        i = i + 1;
    }
    assert(kinds@.subrange(0, kinds@.len() as int) == kinds@);
    if items.len() > 0 {
        let clause = in_clause_string("kind", &items);
        comps.push(clause);
    }
    assert(strings_view(comps@) =~= strings_view(old(comps)@) + list_clause("kind"@, kind_texts(kinds@)));
}

/// Append a comparison of `created_at` with a bound.
fn push_bound_clause(op: &str, t: u64, comps: &mut Vec<String>)
    ensures
        strings_view(final(comps)@) == strings_view(old(comps)@) + seq![op@ + decimal(t as nat)],
{
    let mut c = String::from_str(op);
    let d = decimal_string(t);
    c.append(d.as_str());
    comps.push(c);
    assert(strings_view(comps@) =~= strings_view(old(comps)@) + seq![op@ + decimal(t as nat)]);
}

/// The condition of one filter.
fn filter_condition_string(f: &ReqFilter) -> (r: String)
    ensures
        r@ == filter_condition(*f),
{
    let mut comps: Vec<String> = Vec::new();
    if let Some(v) = &f.authors {
        push_hex_clause("author", v, &mut comps);
    }
    assert(strings_view(comps@) =~= hex_field("author"@, f.authors));
    let ghost c1 = strings_view(comps@);
    if let Some(v) = &f.kinds {
        push_kinds_clause(v, &mut comps);
    }
    assert(strings_view(comps@) =~= c1 + kinds_field(f.kinds));
    let ghost c2 = strings_view(comps@);
    if let Some(v) = &f.ids {
        push_hex_clause("event_hash", v, &mut comps);
    }
    assert(strings_view(comps@) =~= c2 + hex_field("event_hash"@, f.ids));
    let ghost c3 = strings_view(comps@);
    if let Some(v) = &f.events {
        push_hex_clause("referenced_event", v, &mut comps);
    }
    assert(strings_view(comps@) =~= c3 + hex_field("referenced_event"@, f.events));
    let ghost c4 = strings_view(comps@);
    if let Some(v) = &f.pubkeys {
        push_hex_clause("referenced_pubkey", v, &mut comps);
    }
    assert(strings_view(comps@) =~= c4 + hex_field("referenced_pubkey"@, f.pubkeys));
    let ghost c5 = strings_view(comps@);
    if let Some(t) = f.since {
        push_bound_clause("created_at > ", t, &mut comps);
    }
    assert(strings_view(comps@) =~= c5 + bound_field("created_at > "@, f.since));
    let ghost c6 = strings_view(comps@);
    if let Some(t) = f.until {
        push_bound_clause("created_at < ", t, &mut comps);
    }
    assert(strings_view(comps@) =~= c6 + bound_field("created_at < "@, f.until));
    assert(strings_view(comps@) =~= filter_components(*f));
    if comps.len() > 0 {
        let mut fc = String::from_str("( ");
        let joined = join_strings(&comps, " AND ");
        fc.append(joined.as_str());
        fc.append(" )");
        fc
    } else {
        String::from_str("hidden!=TRUE")
    }
}

/// Build the query text for a subscription: the conditions of its filters
/// joined with OR, results in ascending `created_at` order.
pub fn query_from_sub(sub: &Subscription) -> (r: String)
    ensures
        r@ == query_text(*sub),
{
    let mut query = String::from_str(
        "SELECT DISTINCT(e.content) FROM event e LEFT JOIN event_ref er ON e.id=er.event_id LEFT JOIN pubkey_ref pr ON e.id=pr.event_id ",
    );
    let filters = sub.get_filters();
    let mut clauses: Vec<String> = Vec::new();
    let mut i: usize = 0;
    while i < filters.len()
        invariant
            filters == &sub.filters,
            i <= filters@.len(),
            strings_view(clauses@) == conditions(filters@.subrange(0, i as int)),
        decreases filters@.len() - i,
    {
        let c = filter_condition_string(&filters[i]);
        let ghost before = clauses@;
        clauses.push(c);
        proof {
            lemma_strings_view_push(before, clauses@[i as int]);
            assert(conditions(filters@.subrange(0, i + 1)) =~= conditions(filters@.subrange(0, i as int)).push(filter_condition(filters@[i as int])));
        }
        i = i + 1;
    }
    assert(filters@.subrange(0, filters@.len() as int) == filters@);
    if clauses.len() > 0 {
        query.append(" WHERE ");
        let joined = join_strings(&clauses, " OR ");
        query.append(joined.as_str());
    }
    query.append(" ORDER BY created_at ASC");
    query
}

} // verus!
