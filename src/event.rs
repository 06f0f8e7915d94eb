//! Events and the tag references they carry.
use vstd::prelude::*;
use vstd::string::StrSliceExecFns;

verus! {

/// A signed event, as received from a client.
#[derive(Clone, Debug)]
pub struct Event {
    /// Content hash, 64 lowercase hex characters.
    pub id: String,
    /// Author public key, 64 hex characters.
    pub pubkey: String,
    /// Creation time, seconds since the epoch.
    pub created_at: i64,
    /// Event kind.
    pub kind: u64,
    /// Tags; the first string of a tag is its name.
    pub tags: Vec<Vec<String>>,
    /// Free-form content.
    pub content: String,
    /// Signature, 128 hex characters.
    pub sig: String,
}

/// The values of the tags named `name`: the second string of each tag with
/// that name and at least two strings, in tag order.
pub open spec fn tag_values(tags: Seq<Vec<String>>, name: Seq<char>) -> Seq<Seq<char>>
    decreases tags.len(),
{
    if tags.len() == 0 {
        Seq::empty()
    } else {
        let rest = tag_values(tags.drop_last(), name);
        let t = tags.last()@;
        if t.len() >= 2 && t[0]@ == name {
            rest.push(t[1]@)
        } else {
            rest
        }
    }
}

/// The view of a vector of strings as a sequence of character sequences.
pub open spec fn strings_view(v: Seq<String>) -> Seq<Seq<char>> {
    v.map_values(|s: String| s@)
}

/// Character-wise equality of two strings.
pub fn str_eq(a: &str, b: &str) -> (r: bool)
    ensures
        r == (a@ == b@),
{
    let n = a.unicode_len();
    if n != b.unicode_len() {
        return false;
    }
    let mut i: usize = 0;
    while i < n
        invariant
            n == a@.len(),
            n == b@.len(),
            i <= n,
            a@.subrange(0, i as int) == b@.subrange(0, i as int),
        decreases n - i,
    {
        if a.get_char(i) != b.get_char(i) {
            return false;
        }
        assert(a@.subrange(0, i + 1) == a@.subrange(0, i as int).push(a@[i as int]));
        assert(b@.subrange(0, i + 1) == b@.subrange(0, i as int).push(b@[i as int]));
        i = i + 1;
    }
    assert(a@ == a@.subrange(0, n as int));
    assert(b@ == b@.subrange(0, n as int));
    true
}

impl Event {
    /// The values of all tags named `name`, in tag order.
    pub fn get_tag_values(&self, name: &str) -> (r: Vec<String>)
        ensures
            strings_view(r@) == tag_values(self.tags@, name@),
    {
        let mut r: Vec<String> = Vec::new();
        let mut i: usize = 0;
        while i < self.tags.len()
            invariant
                i <= self.tags@.len(),
                strings_view(r@) == tag_values(self.tags@.subrange(0, i as int), name@),
            decreases self.tags@.len() - i,
        {
            let t = &self.tags[i];
            let ghost pre = self.tags@.subrange(0, i + 1);
            assert(pre.drop_last() == self.tags@.subrange(0, i as int));
            if t.len() >= 2 && str_eq(t[0].as_str(), name) {
                r.push(t[1].clone());
            }
            assert(strings_view(r@) =~= tag_values(pre, name@));
            i = i + 1;
        }
        assert(self.tags@.subrange(0, self.tags@.len() as int) == self.tags@);
        r
    }

    /// The referenced event hashes: the values of the `e` tags.
    pub fn get_event_tags(&self) -> (r: Vec<String>)
        ensures
            strings_view(r@) == tag_values(self.tags@, "e"@),
    {
        self.get_tag_values("e")
    }

    /// The referenced public keys: the values of the `p` tags.
    pub fn get_pubkey_tags(&self) -> (r: Vec<String>)
        ensures
            strings_view(r@) == tag_values(self.tags@, "p"@),
    {
        self.get_tag_values("p")
    }
}

} // verus!
