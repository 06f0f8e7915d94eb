//! Filters, subscriptions, and when a subscription is interested in an event.
use vstd::prelude::*;
use vstd::string::StrSliceExecFns;
use crate::event::{Event, tag_values, str_eq};

verus! {

/// A predicate over events. Absent fields are unconstrained; present fields
/// must all match.
#[derive(Clone, Debug, Default)]
pub struct ReqFilter {
    /// Event-hash prefixes.
    pub ids: Option<Vec<String>>,
    /// Author public keys.
    pub authors: Option<Vec<String>>,
    /// Event kinds.
    pub kinds: Option<Vec<u64>>,
    /// Referenced event hashes (`#e`).
    pub events: Option<Vec<String>>,
    /// Referenced public keys (`#p`).
    pub pubkeys: Option<Vec<String>>,
    /// Exclusive lower bound on `created_at`.
    pub since: Option<u64>,
    /// Exclusive upper bound on `created_at`.
    pub until: Option<u64>,
}

/// A client-named list of filters, combined with OR.
#[derive(Clone, Debug)]
pub struct Subscription {
    /// The client's name for this subscription.
    pub id: String,
    /// The filters; an event matches when any of them matches.
    pub filters: Vec<ReqFilter>,
}

/// A request to cancel a subscription.
#[derive(Clone, Debug)]
pub struct Close {
    /// The subscription to cancel.
    pub id: String,
}

/// `p` is a prefix of `s`.
pub open spec fn is_prefix_of(p: Seq<char>, s: Seq<char>) -> bool {
    p.len() <= s.len() && s.subrange(0, p.len() as int) == p
}

/// Some string of `vals` is a prefix of `s`.
pub open spec fn any_prefix(vals: Seq<String>, s: Seq<char>) -> bool {
    exists|i: int| 0 <= i < vals.len() && is_prefix_of(#[trigger] vals[i]@, s)
}

/// Some string of `vals` equals `s`.
pub open spec fn any_equal(vals: Seq<String>, s: Seq<char>) -> bool {
    exists|i: int| 0 <= i < vals.len() && #[trigger] vals[i]@ == s
}

/// Some string of `vals` occurs in `targets`.
pub open spec fn any_in(vals: Seq<String>, targets: Seq<Seq<char>>) -> bool {
    exists|i: int| 0 <= i < vals.len() && targets.contains(#[trigger] vals[i]@)
}

/// The filter matches the event: every present field matches.
pub open spec fn filter_matches(f: ReqFilter, e: Event) -> bool {
    &&& (f.ids matches Some(v) ==> any_prefix(v@, e.id@))
    &&& (f.authors matches Some(v) ==> any_equal(v@, e.pubkey@))
    &&& (f.kinds matches Some(v) ==> v@.contains(e.kind))
    &&& (f.events matches Some(v) ==> any_in(v@, tag_values(e.tags@, "e"@)))
    &&& (f.pubkeys matches Some(v) ==> any_in(v@, tag_values(e.tags@, "p"@)))
    &&& (f.since matches Some(t) ==> e.created_at > t)
    &&& (f.until matches Some(t) ==> e.created_at < t)
}

/// The subscription matches the event: some filter matches it.
pub open spec fn sub_matches(s: Subscription, e: Event) -> bool {
    exists|i: int| 0 <= i < s.filters@.len() && filter_matches(#[trigger] s.filters@[i], e)
}

/// Whether `p` is a prefix of `s`.
fn prefix_of(p: &str, s: &str) -> (r: bool)
    ensures
        r == is_prefix_of(p@, s@),
{
    let n = p.unicode_len();
    if n > s.unicode_len() {
        return false;
    }
    let mut i: usize = 0;
    while i < n
        invariant
            n == p@.len(),
            n <= s@.len(),
            i <= n,
            p@.subrange(0, i as int) == s@.subrange(0, i as int),
        decreases n - i,
    {
        if p.get_char(i) != s.get_char(i) {
            assert(p@[i as int] != s@.subrange(0, n as int)[i as int]);
            return false;
        }
        assert(p@.subrange(0, i + 1) == p@.subrange(0, i as int).push(p@[i as int]));
        assert(s@.subrange(0, i + 1) == s@.subrange(0, i as int).push(s@[i as int]));
        i = i + 1;
    }
    assert(p@ == p@.subrange(0, n as int));
    true
}

fn contains_prefix_of(vals: &Vec<String>, s: &str) -> (r: bool)
    ensures
        r == any_prefix(vals@, s@),
{
    let mut i: usize = 0;
    while i < vals.len()
        invariant
            i <= vals@.len(),
            forall|j: int| 0 <= j < i ==> !is_prefix_of(#[trigger] vals@[j]@, s@),
        decreases vals@.len() - i,
    {
        if prefix_of(vals[i].as_str(), s) {
            return true;
        }
        i = i + 1;
    }
    false
}

fn contains_equal(vals: &Vec<String>, s: &str) -> (r: bool)
    ensures
        r == any_equal(vals@, s@),
{
    let mut i: usize = 0;
    while i < vals.len()
        invariant
            i <= vals@.len(),
            forall|j: int| 0 <= j < i ==> #[trigger] vals@[j]@ != s@,
        decreases vals@.len() - i,
    {
        if str_eq(vals[i].as_str(), s) {
            return true;
        }
        i = i + 1;
    }
    false
}

fn contains_kind(vals: &Vec<u64>, k: u64) -> (r: bool)
    ensures
        r == vals@.contains(k),
{
    let mut i: usize = 0;
    while i < vals.len()
        invariant
            i <= vals@.len(),
            forall|j: int| 0 <= j < i ==> vals@[j] != k,
        decreases vals@.len() - i,
    {
        if vals[i] == k {
            assert(vals@[i as int] == k);
            return true;
        }
        i = i + 1;
    }
    false
}

fn contains_any_of(vals: &Vec<String>, targets: &Vec<String>) -> (r: bool)
    ensures
        r == any_in(vals@, crate::event::strings_view(targets@)),
{
    let ghost tv = crate::event::strings_view(targets@);
    let mut i: usize = 0;
    while i < vals.len()
        invariant
            i <= vals@.len(),
            tv == crate::event::strings_view(targets@),
            forall|j: int| 0 <= j < i ==> !tv.contains(#[trigger] vals@[j]@),
        decreases vals@.len() - i,
    {
        if contains_equal(targets, vals[i].as_str()) {
            let ghost k = choose|k: int| 0 <= k < targets@.len() && #[trigger] targets@[k]@ == vals@[i as int]@;
            assert(tv[k] == vals@[i as int]@);
            return true;
        }
        assert forall|k: int| 0 <= k < tv.len() implies tv[k] != vals@[i as int]@ by {
            assert(targets@[k]@ == tv[k]);
        }
        i = i + 1;
    }
    false
}

impl ReqFilter {
    /// Whether this filter matches the event.
    pub fn interested_in_event(&self, e: &Event) -> (r: bool)
        ensures
            r == filter_matches(*self, *e),
    {
        if let Some(v) = &self.ids {
            if !contains_prefix_of(v, e.id.as_str()) {
                return false;
            }
        }
        if let Some(v) = &self.authors {
            if !contains_equal(v, e.pubkey.as_str()) {
                return false;
            }
        }
        if let Some(v) = &self.kinds {
            if !contains_kind(v, e.kind) {
                return false;
            }
        }
        if let Some(v) = &self.events {
            let etags = e.get_event_tags();
            if !contains_any_of(v, &etags) {
                return false;
            }
        }
        if let Some(v) = &self.pubkeys {
            let ptags = e.get_pubkey_tags();
            if !contains_any_of(v, &ptags) {
                return false;
            }
        }
        if let Some(t) = self.since {
            if !(e.created_at as i128 > t as i128) {
                return false;
            }
        }
        if let Some(t) = self.until {
            if !((e.created_at as i128) < t as i128) {
                return false;
            }
        }
        true
    }
}

impl Subscription {
    /// The subscription's identifier.
    pub fn get_id(&self) -> (r: &String)
        ensures
            r == &self.id,
    {
        &self.id
    }

    /// The subscription's filters.
    pub fn get_filters(&self) -> (r: &Vec<ReqFilter>)
        ensures
            r == &self.filters,
    {
        &self.filters
    }

    /// Whether any filter of this subscription matches the event.
    pub fn interested_in_event(&self, e: &Event) -> (r: bool)
        ensures
            r == sub_matches(*self, *e),
    {
        let mut i: usize = 0;
        while i < self.filters.len()
            invariant
                i <= self.filters@.len(),
                forall|j: int| 0 <= j < i ==> !filter_matches(#[trigger] self.filters@[j], *e),
            decreases self.filters@.len() - i,
        {
            if self.filters[i].interested_in_event(e) {
                return true;
            }
            i = i + 1;
        }
        false
    }
}

} // verus!
