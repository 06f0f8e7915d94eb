//! The decisions of the server: command-line arguments, HTTP routing, and
//! the per-connection reaction to each inbound protocol message.
use vstd::prelude::*;
use vstd::string::{StrSliceExecFns, StringExecFns};
use crate::conn::{ClientConn, MAX_SUBSCRIPTION_ID_LEN, byte_len, has_id};
use crate::error::{RelayError, fixed_message};
use crate::event::{Event, str_eq};
use crate::query::{query_from_sub, query_text};
use crate::subscription::{Close, Subscription};

verus! {

/// The data directory named by `--db <directory>`, when the arguments are
/// exactly the program name and that pair.
pub fn db_from_args(args: Vec<String>) -> (r: Option<String>)
    ensures
        args@.len() == 3 && args@[1]@ == "--db"@ ==> (r matches Some(d) && d@ == args@[2]@),
        !(args@.len() == 3 && args@[1]@ == "--db"@) ==> r is None,
{
    if args.len() == 3 && str_eq(args[1].as_str(), "--db") {
        return Some(args[2].clone());
    }
    None
}

/// `pat` occurs in `s`.
pub open spec fn contains_text(s: Seq<char>, pat: Seq<char>) -> bool {
    exists|i: int| 0 <= i && i + pat.len() <= s.len() && #[trigger] s.subrange(i, i + pat.len()) == pat
}

/// Whether `pat` occurs in `s`.
pub fn contains_str(s: &str, pat: &str) -> (r: bool)
    ensures
        r == contains_text(s@, pat@),
{
    let n = s.unicode_len();
    let m = pat.unicode_len();
    if m > n {
        return false;
    }
    let mut i: usize = 0;
    loop
        invariant
            n == s@.len(),
            m == pat@.len(),
            m <= n,
            i <= n - m,
            forall|j: int| 0 <= j < i ==> #[trigger] s@.subrange(j, j + m) != pat@,
        decreases n - m - i,
    {
        let window = s.substring_char(i, i + m);
        if str_eq(window, pat) {
            return true;
        }
        if i == n - m {
            assert forall|j: int| 0 <= j && j + pat@.len() <= s@.len() implies #[trigger] s@.subrange(j, j + pat@.len()) != pat@ by {
                assert(j <= i);
            }
            return false;
        }
        i = i + 1;
    }
}

/// The media type that asks for the relay information document.
pub open spec fn info_media_type() -> Seq<char> {
    "application/nostr+json"@
}

/// How an HTTP request is answered.
#[derive(Debug, PartialEq, Eq)]
pub enum Route {
    /// Upgrade to a websocket carrying the relay protocol.
    WebSocket,
    /// Answer with the relay information document.
    RelayInfo,
    /// Answer with a short text asking for a relay client.
    Greeting,
    /// Answer 404.
    NotFound,
}

/// Route a request by its path, whether it asks for an upgrade, and its
/// `Accept` header, if that header is present and readable.
pub fn route_request(path: &str, has_upgrade: bool, accept: Option<&str>) -> (r: Route)
    ensures
        path@ != "/"@ ==> r is NotFound,
        path@ == "/"@ && has_upgrade ==> r is WebSocket,
        path@ == "/"@ && !has_upgrade ==> (r is RelayInfo <==> (accept matches Some(a) && contains_text(a@, info_media_type()))),
        path@ == "/"@ && !has_upgrade ==> (r is RelayInfo || r is Greeting),
{
    if !str_eq(path, "/") {
        return Route::NotFound;
    }
    if has_upgrade {
        return Route::WebSocket;
    }
    match accept {
        Some(a) => {
            if contains_str(a, "application/nostr+json") {
                Route::RelayInfo
            } else {
                Route::Greeting
            }
        },
        None => Route::Greeting,
    }
}

/// A message from the client, or what happened to the transport instead.
#[derive(Debug)]
pub enum Inbound {
    /// `EVENT`: an event submitted for storage.
    Event(Event),
    /// `REQ`: open or replace a subscription.
    Req(Subscription),
    /// `CLOSE`: cancel a subscription.
    Close(Close),
    /// The client closed the websocket.
    Closed,
    /// The transport failed.
    ConnError,
    /// A message over the size limit, of this many bytes.
    Oversize(usize),
    /// A message that could not be understood.
    Invalid,
}

/// What the connection task does in answer to an inbound message.
#[derive(Debug)]
pub enum Action {
    /// Send the event to the writer.
    Ingest(Event),
    /// Run the historical query `query` and deliver its rows under `sub_id`.
    StartQuery { sub_id: String, query: String },
    /// Send the client a notice.
    Notice(String),
    /// Stop any query still running for `sub_id`.
    Cancel(String),
    /// Leave the connection loop.
    Exit,
    /// Nothing to do.
    Ignore,
}

/// The notice for a message over the size limit.
pub open spec fn oversize_notice() -> Seq<char> {
    "event exceeded max size"@
}

/// React to one inbound message: update the subscriptions and say what to do.
pub fn handle_message(conn: &mut ClientConn, msg: Inbound) -> (a: Action)
    requires
        old(conn).wf(),
    ensures
        final(conn).wf(),
        final(conn).max() == old(conn).max(),
        msg matches Inbound::Event(e) ==> (a matches Action::Ingest(x) && x == e) && final(conn).subs() == old(conn).subs(),
        msg matches Inbound::Req(s) ==> {
            let ok = byte_len(s.id@) <= MAX_SUBSCRIPTION_ID_LEN
                && (has_id(old(conn).subs(), s.id@) || old(conn).subs().len() < old(conn).max());
            &&& ok ==> (a matches Action::StartQuery { sub_id, query } && sub_id@ == s.id@ && query@ == query_text(s))
            &&& ok && has_id(old(conn).subs(), s.id@) ==> exists|i: int| 0 <= i < old(conn).subs().len()
                && old(conn).subs()[i].id@ == s.id@ && final(conn).subs() == old(conn).subs().update(i, s)
            &&& ok && !has_id(old(conn).subs(), s.id@) ==> final(conn).subs() == old(conn).subs().push(s)
            &&& !ok ==> (a matches Action::Notice(n) && final(conn).subs() == old(conn).subs())
            &&& byte_len(s.id@) > MAX_SUBSCRIPTION_ID_LEN ==> (a matches Action::Notice(n)
                && Some(n@) == fixed_message(RelayError::SubIdMaxLengthError))
            &&& byte_len(s.id@) <= MAX_SUBSCRIPTION_ID_LEN && !ok ==> (a matches Action::Notice(n)
                && Some(n@) == fixed_message(RelayError::SubMaxExceededError))
        },
        msg matches Inbound::Close(c) ==> {
            &&& (a matches Action::Cancel(id) && id@ == c.id@)
            &&& !has_id(final(conn).subs(), c.id@)
            &&& !has_id(old(conn).subs(), c.id@) ==> final(conn).subs() == old(conn).subs()
            &&& has_id(old(conn).subs(), c.id@) ==> exists|i: int| 0 <= i < old(conn).subs().len()
                && old(conn).subs()[i].id@ == c.id@ && final(conn).subs() == old(conn).subs().remove(i)
        },
        (msg is Closed || msg is ConnError) ==> a is Exit && final(conn).subs() == old(conn).subs(),
        msg is Oversize ==> (a matches Action::Notice(n) && n@ == oversize_notice()) && final(conn).subs() == old(conn).subs(),
        msg is Invalid ==> a is Ignore && final(conn).subs() == old(conn).subs(),
{
    match msg {
        Inbound::Event(e) => Action::Ingest(e),
        Inbound::Req(s) => {
            let sub_id = s.id.clone();
            let query = query_from_sub(&s);
            match conn.subscribe(s) {
                Ok(()) => {
                    Action::StartQuery { sub_id, query }
                },
                Err(err) => Action::Notice(err.message()),
            }
        },
        Inbound::Close(c) => {
            let id = c.id.clone();
            conn.unsubscribe(c);
            Action::Cancel(id)
        },
        Inbound::Closed => Action::Exit,
        Inbound::ConnError => Action::Exit,
        Inbound::Oversize(_) => Action::Notice(String::from_str("event exceeded max size")),
        Inbound::Invalid => Action::Ignore,
    }
}

} // verus!

verus! {

/// Whether a historical query result for `sub_id` is delivered: only while
/// that subscription is active, so nothing arrives for it after `CLOSE`.
pub fn should_deliver(conn: &ClientConn, sub_id: &String) -> (r: bool)
    ensures
        r == has_id(conn.subs(), sub_id@),
{
    conn.has_subscription(sub_id)
}

} // verus!
