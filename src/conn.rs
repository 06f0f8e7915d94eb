//! Per-connection subscription state.
use vstd::prelude::*;
use vstd::string::{StrSliceExecFns, StringExecFns};
use crate::error::RelayError;
use crate::event::{Event, strings_view};
use crate::subscription::{Close, Subscription, sub_matches};

verus! {

/// A subscription identifier may hold at most this many bytes.
pub const MAX_SUBSCRIPTION_ID_LEN: usize = 256;

/// The number of concurrent subscriptions a new connection allows.
pub const DEFAULT_MAX_SUBS: usize = 32;

/// The canonical hyphenated text of the UUID whose 128-bit value is `v`.
pub uninterp spec fn uuid_text(v: u128) -> Seq<char>;

/// Relies on uuid::Uuid::new_v4 and Uuid::as_u128: a fresh random identifier.
#[verifier::external_body]
fn random_client_id() -> (r: u128) {
    uuid::Uuid::new_v4().as_u128()
}

/// Relies on uuid::Uuid::from_u128 and its Display impl, which writes the
/// 36-character hyphenated form.
#[verifier::external_body]
fn format_uuid(v: u128) -> (r: String)
    ensures
        r@ == uuid_text(v),
        r@.len() == 36,
{
    uuid::Uuid::from_u128(v).to_string()
}

/// The number of UTF-8 bytes of a string.
pub open spec fn byte_len(s: Seq<char>) -> nat {
    vstd::utf8::encode_utf8(s).len()
}

/// Some subscription of `subs` has the identifier `id`.
pub open spec fn has_id(subs: Seq<Subscription>, id: Seq<char>) -> bool {
    exists|i: int| 0 <= i < subs.len() && #[trigger] subs[i].id@ == id
}

/// No two subscriptions of `subs` share an identifier.
pub open spec fn ids_unique(subs: Seq<Subscription>) -> bool {
    forall|i: int, j: int|
        0 <= i < subs.len() && 0 <= j < subs.len() && i != j ==> #[trigger] subs[i].id@ != #[trigger] subs[j].id@
}

/// The identifiers of the subscriptions of `subs` that match `e`, in order.
pub open spec fn matching_ids(subs: Seq<Subscription>, e: Event) -> Seq<Seq<char>>
    decreases subs.len(),
{
    if subs.len() == 0 {
        Seq::empty()
    } else {
        let rest = matching_ids(subs.drop_last(), e);
        if sub_matches(subs.last(), e) {
            rest.push(subs.last().id@)
        } else {
            rest
        }
    }
}

/// State for a client connection.
pub struct ClientConn {
    /// Unique client identifier, the value of a random UUID.
    client_id: u128,
    /// The active subscriptions, identifiers unique.
    subscriptions: Vec<Subscription>,
    /// The most subscriptions this connection may hold.
    max_subs: usize,
}

impl Default for ClientConn {
    fn default() -> (r: Self)
        ensures
            r.wf(),
            r.subs().len() == 0,
            r.max() == DEFAULT_MAX_SUBS,
    {
        Self::new()
    }
}

impl ClientConn {
    /// The active subscriptions.
    pub closed spec fn subs(&self) -> Seq<Subscription> {
        self.subscriptions@
    }

    /// The most subscriptions this connection may hold.
    pub closed spec fn max(&self) -> nat {
        self.max_subs as nat
    }

    /// The client identifier.
    pub closed spec fn id(&self) -> u128 {
        self.client_id
    }

    /// Well-formedness: identifiers unique and within the length limit,
    /// and no more subscriptions than allowed.
    pub open spec fn wf(&self) -> bool {
        &&& ids_unique(self.subs())
        &&& self.subs().len() <= self.max()
        &&& forall|i: int| 0 <= i < self.subs().len() ==> byte_len(#[trigger] self.subs()[i].id@) <= MAX_SUBSCRIPTION_ID_LEN
    }

    /// Create a new, empty connection state.
    pub fn new() -> (r: Self)
        ensures
            r.wf(),
            r.subs().len() == 0,
            r.max() == DEFAULT_MAX_SUBS,
    {
        ClientConn { client_id: random_client_id(), subscriptions: Vec::new(), max_subs: DEFAULT_MAX_SUBS }
    }

    /// A short prefix of the client's identifier, suitable for logging.
    pub fn get_client_prefix(&self) -> (r: String)
        ensures
            r@ == uuid_text(self.id()).subrange(0, 8),
    {
        let full = format_uuid(self.client_id);
        String::from_str(full.as_str().substring_char(0, 8))
    }

    /// The number of active subscriptions.
    pub fn subscription_count(&self) -> (r: usize)
        ensures
            r == self.subs().len(),
    {
        self.subscriptions.len()
    }

    /// The identifiers of all subscriptions that match the event.
    pub fn get_matching_subscriptions(&self, e: &Event) -> (r: Vec<String>)
        ensures
            strings_view(r@) == matching_ids(self.subs(), *e),
    {
        let mut v: Vec<String> = Vec::new();
        let mut i: usize = 0;
        while i < self.subscriptions.len()
            invariant
                i <= self.subscriptions@.len(),
                strings_view(v@) == matching_ids(self.subscriptions@.subrange(0, i as int), *e),
            decreases self.subscriptions@.len() - i,
        {
            let ghost pre = self.subscriptions@.subrange(0, i + 1);
            assert(pre.drop_last() == self.subscriptions@.subrange(0, i as int));
            if self.subscriptions[i].interested_in_event(e) {
                v.push(self.subscriptions[i].id.clone());
            }
            assert(strings_view(v@) =~= matching_ids(pre, *e));
            i = i + 1;
        }
        assert(self.subscriptions@.subrange(0, self.subscriptions@.len() as int) == self.subscriptions@);
        v
    }

    /// Whether a subscription named `id` is active.
    pub fn has_subscription(&self, id: &String) -> (r: bool)
        ensures
            r == has_id(self.subs(), id@),
    {
        self.position_of(id).is_some()
    }

    /// The position of the subscription named `id`, if any.
    fn position_of(&self, id: &String) -> (r: Option<usize>)
        ensures
            r matches Some(i) ==> i < self.subs().len() && self.subs()[i as int].id@ == id@,
            r is None ==> !has_id(self.subs(), id@),
    {
        let mut i: usize = 0;
        while i < self.subscriptions.len()
            invariant
                i <= self.subscriptions@.len(),
                forall|j: int| 0 <= j < i ==> #[trigger] self.subscriptions@[j].id@ != id@,
            decreases self.subscriptions@.len() - i,
        {
            if self.subscriptions[i].id == *id {
                return Some(i);
            }
            i = i + 1;
        }
        assert forall|j: int| 0 <= j < self.subs().len() implies #[trigger] self.subs()[j].id@ != id@ by {
            assert(self.subscriptions@[j].id@ != id@);
        }
        None
    }

    /// Add a subscription, or replace the one with the same identifier.
    ///
    /// An identifier over the length limit is refused. A new identifier is
    /// refused when the connection already holds `max` subscriptions.
    pub fn subscribe(&mut self, s: Subscription) -> (r: Result<(), RelayError>)
        requires
            old(self).wf(),
        ensures
            final(self).wf(),
            final(self).max() == old(self).max(),
            final(self).id() == old(self).id(),
            byte_len(s.id@) > MAX_SUBSCRIPTION_ID_LEN ==> (r matches Err(RelayError::SubIdMaxLengthError))
                && final(self).subs() == old(self).subs(),
            byte_len(s.id@) <= MAX_SUBSCRIPTION_ID_LEN && has_id(old(self).subs(), s.id@) ==> r is Ok
                && final(self).subs().len() == old(self).subs().len()
                && exists|i: int| 0 <= i < old(self).subs().len() && old(self).subs()[i].id@ == s.id@
                    && final(self).subs() == old(self).subs().update(i, s),
            byte_len(s.id@) <= MAX_SUBSCRIPTION_ID_LEN && !has_id(old(self).subs(), s.id@)
                && old(self).subs().len() >= old(self).max() ==> (r matches Err(RelayError::SubMaxExceededError))
                && final(self).subs() == old(self).subs(),
            byte_len(s.id@) <= MAX_SUBSCRIPTION_ID_LEN && !has_id(old(self).subs(), s.id@)
                && old(self).subs().len() < old(self).max() ==> r is Ok
                && final(self).subs() == old(self).subs().push(s),
    {
        let sub_id_len = s.id.as_str().as_bytes().len();
        if sub_id_len > MAX_SUBSCRIPTION_ID_LEN {
            return Err(RelayError::SubIdMaxLengthError);
        }
        match self.position_of(&s.id) {
            Some(i) => {
                let ghost old_subs = self.subscriptions@;
                self.subscriptions.remove(i);
                self.subscriptions.insert(i, s);
                assert(self.subscriptions@ =~= old_subs.update(i as int, s));
                assert forall|a: int, b: int|
                    0 <= a < self.subscriptions@.len() && 0 <= b < self.subscriptions@.len() && a != b
                    implies #[trigger] self.subscriptions@[a].id@ != #[trigger] self.subscriptions@[b].id@ by {
                    if a != i && b != i {
                        assert(old_subs[a].id@ != old_subs[b].id@);
                    } else if a == i {
                        assert(old_subs[b].id@ != old_subs[a].id@);
                    } else {
                        assert(old_subs[a].id@ != old_subs[b].id@);
                    }
                }
                assert forall|a: int| 0 <= a < self.subscriptions@.len() implies byte_len(#[trigger] self.subscriptions@[a].id@) <= MAX_SUBSCRIPTION_ID_LEN by {
                    if a != i {
                        assert(byte_len(old_subs[a].id@) <= MAX_SUBSCRIPTION_ID_LEN);
                    }
                }
                return Ok(());
            },
            None => {},
        }
        if self.subscriptions.len() >= self.max_subs {
            return Err(RelayError::SubMaxExceededError);
        }
        let ghost old_subs = self.subscriptions@;
        self.subscriptions.push(s);
        assert(self.subscriptions@ == old_subs.push(s));
        assert forall|a: int, b: int|
            0 <= a < self.subscriptions@.len() && 0 <= b < self.subscriptions@.len() && a != b
            implies #[trigger] self.subscriptions@[a].id@ != #[trigger] self.subscriptions@[b].id@ by {
            if a < old_subs.len() && b < old_subs.len() {
                assert(old_subs[a].id@ != old_subs[b].id@);
            } else if a < old_subs.len() {
                assert(old_subs[a].id@ != s.id@);
            } else {
                assert(old_subs[b].id@ != s.id@);
            }
        }
        assert forall|a: int| 0 <= a < self.subscriptions@.len() implies byte_len(#[trigger] self.subscriptions@[a].id@) <= MAX_SUBSCRIPTION_ID_LEN by {
            if a < old_subs.len() {
                assert(byte_len(old_subs[a].id@) <= MAX_SUBSCRIPTION_ID_LEN);
            }
        }
        Ok(())
    }

    /// Remove the subscription named by `c`; nothing happens if there is none.
    pub fn unsubscribe(&mut self, c: Close)
        requires
            old(self).wf(),
        ensures
            final(self).wf(),
            final(self).max() == old(self).max(),
            final(self).id() == old(self).id(),
            !has_id(final(self).subs(), c.id@),
            !has_id(old(self).subs(), c.id@) ==> final(self).subs() == old(self).subs(),
            has_id(old(self).subs(), c.id@) ==> exists|i: int| 0 <= i < old(self).subs().len()
                && old(self).subs()[i].id@ == c.id@ && final(self).subs() == old(self).subs().remove(i),
    {
        match self.position_of(&c.id) {
            Some(i) => {
                let ghost old_subs = self.subscriptions@;
                self.subscriptions.remove(i);
                assert(self.subscriptions@ =~= old_subs.remove(i as int));
                assert forall|a: int, b: int|
                    0 <= a < self.subscriptions@.len() && 0 <= b < self.subscriptions@.len() && a != b
                    implies #[trigger] self.subscriptions@[a].id@ != #[trigger] self.subscriptions@[b].id@ by {
                    let oa = if a < i { a } else { a + 1 };
                    let ob = if b < i { b } else { b + 1 };
                    assert(old_subs[oa].id@ != old_subs[ob].id@);
                }
                assert forall|a: int| 0 <= a < self.subscriptions@.len() implies #[trigger] self.subscriptions@[a].id@ != c.id@ by {
                    let oa = if a < i { a } else { a + 1 };
                    assert(old_subs[oa].id@ != old_subs[i as int].id@);
                }
                assert forall|a: int| 0 <= a < self.subscriptions@.len() implies byte_len(#[trigger] self.subscriptions@[a].id@) <= MAX_SUBSCRIPTION_ID_LEN by {
                    let oa = if a < i { a } else { a + 1 };
                    assert(byte_len(old_subs[oa].id@) <= MAX_SUBSCRIPTION_ID_LEN);
                }
            },
            None => {},
        }
    }
}

} // verus!
