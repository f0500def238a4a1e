//! Bodies of the requests sent to the provider's API, as plain values.
use vstd::prelude::*;

verus! {

/// The key pair that authenticates every request.
pub struct Auth {
    pub secret_api_key: String,
    pub api_key: String,
}

/// Body of the call that creates a DNS record.
pub struct CreateRecord {
    pub auth: Auth,
    /// The subdomain label, without the domain.
    pub name: String,
    pub record_type: String,
    pub content: String,
    /// Time to live in seconds.
    pub ttl: String,
}

/// Body of the call that edits a DNS record, named by domain and id.
pub struct EditRecord {
    pub auth: Auth,
    /// The subdomain for the record; blank for the root domain, `*` for a
    /// wildcard.
    pub name: String,
    /// One of A, MX, CNAME, ALIAS, TXT, NS, AAAA, SRV, TLSA, CAA.
    pub record_type: String,
    /// The answer content for the record.
    pub content: String,
    /// Time to live in seconds; the provider's minimum and default is 600.
    pub ttl: Option<String>,
    /// Priority, for the types that have one.
    pub prio: Option<String>,
}

} // verus!
