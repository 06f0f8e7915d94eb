//! The relay information document served over HTTP.
use vstd::prelude::*;
use vstd::string::StringExecFns;

verus! {

/// The protocol extensions this relay supports.
pub open spec fn supported_nips_spec() -> Seq<i64> {
    seq![1, 2, 11]
}

/// The configured description of the relay.
#[derive(Clone, Debug, Default)]
pub struct Info {
    /// The relay's public URL.
    pub relay_url: Option<String>,
    /// The relay's name.
    pub name: Option<String>,
    /// A description of the relay.
    pub description: Option<String>,
    /// The operator's public key, hex.
    pub pubkey: Option<String>,
    /// How to reach the operator.
    pub contact: Option<String>,
}

/// The public relay information document.
#[derive(Clone, Debug)]
pub struct RelayInfo {
    /// The relay's public URL.
    pub id: Option<String>,
    /// The relay's name.
    pub name: Option<String>,
    /// A description of the relay.
    pub description: Option<String>,
    /// The operator's public key, hex.
    pub pubkey: Option<String>,
    /// How to reach the operator.
    pub contact: Option<String>,
    /// The protocol extensions supported.
    pub supported_nips: Option<Vec<i64>>,
    /// Where the software comes from.
    pub software: Option<String>,
    /// The software's version.
    pub version: Option<String>,
}

impl RelayInfo {
    /// The document for a configured relay running software `version`.
    pub fn from_info(i: Info, version: Option<String>) -> (r: RelayInfo)
        ensures
            r.id == i.relay_url,
            r.name == i.name,
            r.description == i.description,
            r.pubkey == i.pubkey,
            r.contact == i.contact,
            r.supported_nips matches Some(v) && v@ == supported_nips_spec(),
            r.software matches Some(s) && s@ == "https://github.com/rajarshimaitra/rust-nostr"@,
            r.version == version,
    {
        let mut nips: Vec<i64> = Vec::new();
        nips.push(1);
        nips.push(2);
        nips.push(11);
        assert(nips@ =~= supported_nips_spec());
        RelayInfo {
            id: i.relay_url,
            name: i.name,
            description: i.description,
            pubkey: i.pubkey,
            contact: i.contact,
            supported_nips: Some(nips),
            software: Some(String::from_str("https://github.com/rajarshimaitra/rust-nostr")),
            version,
        }
    }
}

} // verus!
