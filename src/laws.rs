//! Laws that relate the relay's operations.
use vstd::prelude::*;
use crate::conn::{ClientConn, ids_unique, matching_ids};
use crate::db::{WritePlan, ValueView, write_script, ref_script, ref_args, hide_args, INSERT_EVENT_REF_SQL, HIDE_IF_NEWER_SQL, HIDE_OLDER_SQL, hex_bytes, hex_decodable, outcome_of, ref_views, opt_bytes, decoded_refs, plan_of, decode_spec};
use crate::error::RelayError;
use crate::event::{Event, tag_values, strings_view};
use crate::query::{all_hex, blob_hex, join, list_clause, kinds_field, kind_texts, decimal, is_hex_char, hex_blob, escaped_hex, filter_components, filter_condition, hex_field};
use crate::subscription::{ReqFilter, Subscription, filter_matches, sub_matches};

verus! {

/// A well-formed connection never holds more subscriptions than its limit.
pub proof fn lemma_subscription_count_bounded(c: ClientConn)
    requires
        c.wf(),
    ensures
        c.subs().len() <= c.max(),
{
}

/// The identifier `id` is among the matching identifiers exactly when some
/// subscription with that identifier matches the event.
pub proof fn lemma_matching_ids_contains(subs: Seq<Subscription>, e: Event, id: Seq<char>)
    ensures
        matching_ids(subs, e).contains(id) <==> exists|j: int|
            0 <= j < subs.len() && #[trigger] subs[j].id@ == id && sub_matches(subs[j], e),
    decreases subs.len(),
{
    if subs.len() > 0 {
        let init = subs.drop_last();
        lemma_matching_ids_contains(init, e, id);
        if matching_ids(subs, e).contains(id) {
            if !matching_ids(init, e).contains(id) {
                let k = choose|k: int| 0 <= k < matching_ids(subs, e).len() && matching_ids(subs, e)[k] == id;
                assert(subs[subs.len() - 1].id@ == id);
            } else {
                let j = choose|j: int| 0 <= j < init.len() && #[trigger] init[j].id@ == id && sub_matches(init[j], e);
                assert(subs[j] == init[j]);
            }
        }
        if exists|j: int| 0 <= j < subs.len() && #[trigger] subs[j].id@ == id && sub_matches(subs[j], e) {
            let j = choose|j: int| 0 <= j < subs.len() && #[trigger] subs[j].id@ == id && sub_matches(subs[j], e);
            if j < subs.len() - 1 {
                assert(init[j] == subs[j]);
                let k = choose|k: int| 0 <= k < matching_ids(init, e).len() && matching_ids(init, e)[k] == id;
                if sub_matches(subs.last(), e) {
                    assert(matching_ids(subs, e)[k] == id);
                }
            } else {
                assert(matching_ids(subs, e).last() == id);
            }
        }
    }
}

/// Replacing the subscription with a given identifier keeps the count, and
/// afterwards that identifier matches an event exactly when the new
/// subscription does.
pub proof fn lemma_resubscribe_uses_new_filters(subs: Seq<Subscription>, i: int, s: Subscription, e: Event)
    requires
        ids_unique(subs),
        0 <= i < subs.len(),
        subs[i].id@ == s.id@,
    ensures
        subs.update(i, s).len() == subs.len(),
        matching_ids(subs.update(i, s), e).contains(s.id@) <==> sub_matches(s, e),
{
    let new_subs = subs.update(i, s);
    lemma_matching_ids_contains(new_subs, e, s.id@);
    if matching_ids(new_subs, e).contains(s.id@) {
        let j = choose|j: int| 0 <= j < new_subs.len() && #[trigger] new_subs[j].id@ == s.id@ && sub_matches(new_subs[j], e);
        if j != i {
            assert(subs[j].id@ != subs[i].id@);
        }
    }
    if sub_matches(s, e) {
        assert(new_subs[i].id@ == s.id@);
    }
}

/// Hex values make up no blob literal when none of them is hex.
proof fn lemma_no_hex_no_blobs(vals: Seq<Seq<char>>)
    requires
        forall|k: int| 0 <= k < vals.len() ==> !all_hex(#[trigger] vals[k]),
    ensures
        escaped_hex(vals).len() == 0,
    decreases vals.len(),
{
    if vals.len() > 0 {
        lemma_no_hex_no_blobs(vals.drop_last());
        assert(!all_hex(vals[vals.len() - 1]));
    }
}

/// Every blob literal made from filter values wraps a value that is all hex
/// digits, taken from the values, so no value can close the literal early.
pub proof fn lemma_blob_literals_are_hex(vals: Seq<Seq<char>>, k: int)
    requires
        0 <= k < escaped_hex(vals).len(),
    ensures
        exists|v: Seq<char>| #![trigger hex_blob(v)] vals.contains(v) && blob_hex(v) && escaped_hex(vals)[k] == hex_blob(v)
            && forall|j: int| 0 <= j < v.len() ==> v[j] != '\'',
    decreases vals.len(),
{
    let init = vals.drop_last();
    let rest = escaped_hex(init);
    if k < rest.len() {
        lemma_blob_literals_are_hex(init, k);
        let v = choose|v: Seq<char>| #![trigger hex_blob(v)] init.contains(v) && blob_hex(v) && rest[k] == hex_blob(v)
            && forall|j: int| 0 <= j < v.len() ==> v[j] != '\'';
        let i = choose|i: int| 0 <= i < init.len() && init[i] == v;
        assert(vals[i] == v);
        assert(escaped_hex(vals)[k] == hex_blob(v));
    } else {
        let v = vals.last();
        assert(vals[vals.len() - 1] == v);
        assert forall|j: int| 0 <= j < v.len() implies v[j] != '\'' by {
            assert(is_hex_char(v[j]));
        }
    }
}

/// A filter without any field becomes the condition that excludes hidden
/// events.
pub proof fn lemma_empty_filter_excludes_hidden(f: ReqFilter)
    requires
        f.ids is None,
        f.authors is None,
        f.kinds is None,
        f.events is None,
        f.pubkeys is None,
        f.since is None,
        f.until is None,
    ensures
        filter_condition(f) == "hidden!=TRUE"@,
{
    assert(filter_components(f) =~= Seq::<Seq<char>>::empty());
}

/// Author values that are not hex are dropped; a filter with only such
/// authors degenerates to the condition that excludes hidden events.
pub proof fn lemma_non_hex_authors_dropped(f: ReqFilter)
    requires
        f.authors matches Some(v) && forall|k: int| 0 <= k < v@.len() ==> !all_hex(#[trigger] v@[k]@),
        f.ids is None,
        f.kinds is None,
        f.events is None,
        f.pubkeys is None,
        f.since is None,
        f.until is None,
    ensures
        filter_condition(f) == "hidden!=TRUE"@,
{
    let v = f.authors.unwrap();
    let sv = strings_view(v@);
    assert forall|k: int| 0 <= k < sv.len() implies !all_hex(#[trigger] sv[k]) by {
        assert(sv[k] == v@[k]@);
    }
    lemma_no_hex_no_blobs(sv);
    assert(hex_field("author"@, f.authors) =~= Seq::<Seq<char>>::empty());
    assert(filter_components(f) =~= Seq::<Seq<char>>::empty());
}

/// Equal `since` and `until` bounds match no event.
pub proof fn lemma_empty_time_window(f: ReqFilter, e: Event)
    requires
        f.since is Some,
        f.since == f.until,
    ensures
        !filter_matches(f, e),
{
}

/// Every `e` tag whose value is hex is stored as a reference to the
/// decoded hash: the statement at the tag's position after the event insert
/// binds the new row and the decoded bytes.
pub proof fn lemma_event_tags_referenced(p: WritePlan, e: Event, row: i64, i: int)
    requires
        plan_of(p, e),
        0 <= i < tag_values(e.tags@, "e"@).len(),
        hex_decodable(tag_values(e.tags@, "e"@)[i]),
    ensures
        i < p.event_refs@.len(),
        p.event_refs@[i] matches Some(b) && b@ == hex_bytes(tag_values(e.tags@, "e"@)[i]),
        write_script(p, e.created_at, row)[i] == (INSERT_EVENT_REF_SQL@,
            seq![ValueView::Integer(row), ValueView::Blob(hex_bytes(tag_values(e.tags@, "e"@)[i]))]),
{
    let tv = tag_values(e.tags@, "e"@);
    let views = ref_views(p.event_refs@);
    assert(views == decoded_refs(tv));
    assert(decoded_refs(tv).len() == tv.len());
    assert(views.len() == p.event_refs@.len());
    assert(decoded_refs(tv)[i] == decode_spec(tv[i]));
    assert(views[i] == opt_bytes(p.event_refs@[i]));
    let script = write_script(p, e.created_at, row);
    let refs = ref_script(INSERT_EVENT_REF_SQL@, row, p.event_refs@);
    assert(script[i] == refs[i]);
    assert(ref_args(row, p.event_refs@[i]) =~= seq![ValueView::Integer(row), ValueView::Blob(hex_bytes(tv[i]))]);
}

/// A write hides events exactly for the replaceable kinds: after the
/// references, the new event is hidden when a newer visible one exists, then
/// the older ones of the same author and kind are hidden.
pub proof fn lemma_replaceable_kinds_hide_older(p: WritePlan, e: Event, row: i64)
    requires
        plan_of(p, e),
    ensures
        p.hide_older <==> (e.kind == 0 || e.kind == 3),
        ({
            let script = write_script(p, e.created_at, row);
            let n = (p.event_refs@.len() + p.pubkey_refs@.len()) as int;
            &&& (e.kind == 0 || e.kind == 3) ==> script.len() == n + 2
                && script[n] == (HIDE_IF_NEWER_SQL@, hide_args(p, e.created_at, row))
                && script[n + 1] == (HIDE_OLDER_SQL@, hide_args(p, e.created_at, row))
            &&& !(e.kind == 0 || e.kind == 3) ==> script.len() == n
        }),
{
}

/// The list of every IN clause of the list fields is non-empty.
pub open spec fn in_lists_nonempty(clauses: Seq<Seq<char>>, column: Seq<char>) -> bool {
    forall|k: int| 0 <= k < clauses.len() ==> exists|j: Seq<char>| j.len() > 0 && #[trigger] clauses[k] == column + " IN ("@ + j + ")"@
}

proof fn lemma_join_long(parts: Seq<Seq<char>>, sep: Seq<char>)
    requires
        parts.len() > 0,
    ensures
        join(parts, sep).len() >= parts[0].len(),
    decreases parts.len(),
{
    if parts.len() > 1 {
        lemma_join_long(parts.drop_last(), sep);
        assert(parts.drop_last()[0] == parts[0]);
    }
}

proof fn lemma_list_clause_nonempty(column: Seq<char>, items: Seq<Seq<char>>)
    requires
        forall|k: int| 0 <= k < items.len() ==> #[trigger] items[k].len() > 0,
    ensures
        in_lists_nonempty(list_clause(column, items), column),
{
    if items.len() > 0 {
        lemma_join_long(items, ", "@);
        let j = join(items, ", "@);
        assert(list_clause(column, items)[0] == column + " IN ("@ + j + ")"@);
    }
}

proof fn lemma_hex_field_nonempty(column: Seq<char>, vals: Option<Vec<String>>)
    ensures
        in_lists_nonempty(hex_field(column, vals), column),
{
    if let Some(v) = vals {
        let items = escaped_hex(strings_view(v@));
        assert forall|k: int| 0 <= k < items.len() implies #[trigger] items[k].len() > 0 by {
            lemma_blob_literals_are_hex(strings_view(v@), k);
            let w = choose|w: Seq<char>| #![trigger hex_blob(w)] strings_view(v@).contains(w) && blob_hex(w)
                && items[k] == hex_blob(w) && forall|j: int| 0 <= j < w.len() ==> w[j] != '\'';
            reveal_strlit("'");
            assert(hex_blob(w).len() >= 1);
        }
        lemma_list_clause_nonempty(column, items);
    }
}

/// No IN clause of a filter's list fields has an empty list: a field whose
/// values are all dropped contributes no clause.
pub proof fn lemma_no_empty_in_list(f: ReqFilter)
    ensures
        in_lists_nonempty(hex_field("author"@, f.authors), "author"@),
        in_lists_nonempty(kinds_field(f.kinds), "kind"@),
        in_lists_nonempty(hex_field("event_hash"@, f.ids), "event_hash"@),
        in_lists_nonempty(hex_field("referenced_event"@, f.events), "referenced_event"@),
        in_lists_nonempty(hex_field("referenced_pubkey"@, f.pubkeys), "referenced_pubkey"@),
{
    lemma_hex_field_nonempty("author"@, f.authors);
    lemma_hex_field_nonempty("event_hash"@, f.ids);
    lemma_hex_field_nonempty("referenced_event"@, f.events);
    lemma_hex_field_nonempty("referenced_pubkey"@, f.pubkeys);
    if let Some(v) = f.kinds {
        let items = kind_texts(v@);
        assert forall|k: int| 0 <= k < items.len() implies #[trigger] items[k].len() > 0 by {
            assert(items[k] == decimal(v@[k] as nat));
        }
        lemma_list_clause_nonempty("kind"@, items);
    }
}

/// A write that inserted no row is a duplicate, and is not published.
pub proof fn lemma_duplicate_not_published()
    ensures
        outcome_of(Ok::<usize, RelayError>(0)) is Duplicate,
        !(outcome_of(Ok::<usize, RelayError>(0)) is Inserted),
{
}

} // verus!
