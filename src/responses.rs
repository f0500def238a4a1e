//! Bodies that the provider's API answers with, as plain values.
use vstd::prelude::*;

verus! {

/// Answer to the ping call: carries the caller's public address.
pub struct PingResponse {
    pub status: String,
    pub your_ip: String,
}

/// One DNS record as the provider lists it.
pub struct DnsRecord {
    pub id: String,
    pub name: String,
    pub record_type: String,
    pub content: String,
    pub ttl: String,
    pub prio: Option<String>,
    pub notes: Option<String>,
}

/// The mathematical value of a [`DnsRecord`]: every field as a character sequence.
pub struct RecordView {
    pub id: Seq<char>,
    pub name: Seq<char>,
    pub record_type: Seq<char>,
    pub content: Seq<char>,
    pub ttl: Seq<char>,
    pub prio: Option<Seq<char>>,
    pub notes: Option<Seq<char>>,
}

pub open spec fn opt_view(o: Option<String>) -> Option<Seq<char>> {
    match o {
        Some(s) => Some(s@),
        None => None,
    }
}

fn copy_opt(o: &Option<String>) -> (r: Option<String>)
    ensures
        opt_view(r) == opt_view(*o),
{
    match o {
        Some(s) => Some(s.clone()),
        None => None,
    }
}

impl View for DnsRecord {
    type V = RecordView;

    open spec fn view(&self) -> RecordView {
        RecordView {
            id: self.id@,
            name: self.name@,
            record_type: self.record_type@,
            content: self.content@,
            ttl: self.ttl@,
            prio: opt_view(self.prio),
            notes: opt_view(self.notes),
        }
    }
}

impl DnsRecord {
    /// A field-by-field copy of the record.
    pub fn duplicate(&self) -> (r: DnsRecord)
        ensures
            r@ == self@,
    {
        DnsRecord {
            id: self.id.clone(),
            name: self.name.clone(),
            record_type: self.record_type.clone(),
            content: self.content.clone(),
            ttl: self.ttl.clone(),
            prio: copy_opt(&self.prio),
            notes: copy_opt(&self.notes),
        }
    }
}

/// The views of a sequence of records, in order.
pub open spec fn record_views(s: Seq<DnsRecord>) -> Seq<RecordView> {
    s.map_values(|r: DnsRecord| r@)
}

/// Answer to the call that lists a domain's records.
pub struct RetrieveRecordsResponse {
    pub status: String,
    pub records: Vec<DnsRecord>,
}

/// Answer to the call that deletes a record.
pub struct DeleteRecordResponse {
    pub status: String,
}

/// Answer to the call that creates a record: carries the id the provider gave it.
pub struct CrateRecordResponse {
    pub status: String,
    pub id: u64,
}

/// Answer to the call that edits a record.
pub struct EditRecordByDomainAndIdResponse {
    pub status: String,
}

/// Answer to the call that fetches a domain's certificate bundle: four PEM texts.
pub struct SSLRetrieveBundleResponse {
    pub status: String,
    pub intermediate_certificate: String,
    pub certificate_chain: String,
    pub private_key: String,
    pub public_key: String,
}

} // verus!
