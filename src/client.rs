//! What a client of the provider's API decides before and after each call:
//! the URL, the body, and whether an answer is a success.
use vstd::prelude::*;
use crate::requests::{Auth, CreateRecord, EditRecord};

verus! {

/// Base of every URL of the provider's JSON API.
pub const PORKBUN_ENDPOINT: &'static str = "https://porkbun.com/api/json/v3";

/// The only HTTP status that the API answers a successful call with.
pub const STATUS_OK: u16 = 200;

/// An answer of the API with another status than success.
pub struct ApiError {
    pub status: u16,
    pub body: String,
}

/// A client for one key pair: immutable once built.
pub struct PorkbunClient {
    api_key: String,
    api_secret: String,
    endpoint: String,
}

/// `base/segment`.
pub open spec fn slash_join(base: Seq<char>, segment: Seq<char>) -> Seq<char> {
    base + seq!['/'] + segment
}

fn push_segment(url: &mut String, segment: &str)
    ensures
        final(url)@ == slash_join(old(url)@, segment@),
{
    url.append("/");
    proof {
        reveal_strlit("/");
        assert("/"@ =~= seq!['/']);
    }
    url.append(segment);
}

/// The body of an answer with status `status`, or the error that carries both
/// when the status is not success.
pub fn check_status(status: u16, body: String) -> (r: Result<String, ApiError>)
    ensures
        status == STATUS_OK ==> (r matches Ok(b) && b@ == body@),
        status != STATUS_OK ==> (r matches Err(e) && e.status == status && e.body@ == body@),
{
    if status == STATUS_OK {
        Ok(body)
    } else {
        Err(ApiError { status, body })
    }
}

impl PorkbunClient {
    pub closed spec fn spec_api_key(&self) -> Seq<char> {
        self.api_key@
    }

    pub closed spec fn spec_api_secret(&self) -> Seq<char> {
        self.api_secret@
    }

    pub closed spec fn spec_endpoint(&self) -> Seq<char> {
        self.endpoint@
    }

    /// A client for the key pair, on the provider's fixed endpoint.
    pub fn new(api_key: String, api_secret: String) -> (c: Self)
        ensures
            c.spec_api_key() == api_key@,
            c.spec_api_secret() == api_secret@,
            c.spec_endpoint() == PORKBUN_ENDPOINT@,
    {
        PorkbunClient { api_key, api_secret, endpoint: PORKBUN_ENDPOINT.to_owned() }
    }

    pub fn api_key(&self) -> (r: &String)
        ensures
            r@ == self.spec_api_key(),
    {
        &self.api_key
    }

    pub fn api_secret(&self) -> (r: &String)
        ensures
            r@ == self.spec_api_secret(),
    {
        &self.api_secret
    }

    pub fn endpoint(&self) -> (r: &String)
        ensures
            r@ == self.spec_endpoint(),
    {
        &self.endpoint
    }

    /// The authentication part of every request body.
    pub fn auth(&self) -> (a: Auth)
        ensures
            a.api_key@ == self.spec_api_key(),
            a.secret_api_key@ == self.spec_api_secret(),
    {
        Auth { secret_api_key: self.api_secret.clone(), api_key: self.api_key.clone() }
    }

    /// `endpoint/ping`: answers with the caller's public address.
    pub fn ping_url(&self) -> (r: String)
        ensures
            r@ == slash_join(self.spec_endpoint(), "ping"@),
    {
        let mut url = self.endpoint.clone();
        push_segment(&mut url, "ping");
        url
    }

    /// `endpoint/dns/retrieve/domain`, followed by `/id` when one record is asked for.
    pub fn retrieve_records_url(&self, domain: &str, id: &Option<String>) -> (r: String)
        ensures
            r@ == match id {
                Some(i) => slash_join(
                    slash_join(slash_join(slash_join(self.spec_endpoint(), "dns"@), "retrieve"@), domain@),
                    i@,
                ),
                None => slash_join(
                    slash_join(slash_join(self.spec_endpoint(), "dns"@), "retrieve"@),
                    domain@,
                ),
            },
    {
        let mut url = self.endpoint.clone();
        push_segment(&mut url, "dns");
        push_segment(&mut url, "retrieve");
        push_segment(&mut url, domain);
        match id {
            Some(i) => push_segment(&mut url, i.as_str()),
            None => {},
        }
        url
    }

    /// `endpoint/dns/delete/domain/id`.
    pub fn delete_record_url(&self, domain: &str, id: &str) -> (r: String)
        ensures
            r@ == slash_join(
                slash_join(slash_join(slash_join(self.spec_endpoint(), "dns"@), "delete"@), domain@),
                id@,
            ),
    {
        let mut url = self.endpoint.clone();
        push_segment(&mut url, "dns");
        push_segment(&mut url, "delete");
        push_segment(&mut url, domain);
        push_segment(&mut url, id);
        url
    }

    /// `endpoint/dns/create/domain`.
    pub fn create_record_url(&self, domain: &str) -> (r: String)
        ensures
            r@ == slash_join(
                slash_join(slash_join(self.spec_endpoint(), "dns"@), "create"@),
                domain@,
            ),
    {
        let mut url = self.endpoint.clone();
        push_segment(&mut url, "dns");
        push_segment(&mut url, "create");
        push_segment(&mut url, domain);
        url
    }

    /// `endpoint/dns/edit/domain/id`.
    pub fn edit_record_url(&self, domain: &str, id: &str) -> (r: String)
        ensures
            r@ == slash_join(
                slash_join(slash_join(slash_join(self.spec_endpoint(), "dns"@), "edit"@), domain@),
                id@,
            ),
    {
        let mut url = self.endpoint.clone();
        push_segment(&mut url, "dns");
        push_segment(&mut url, "edit");
        push_segment(&mut url, domain);
        push_segment(&mut url, id);
        url
    }

    /// `endpoint/ssl/retrieve/domain`.
    pub fn ssl_retrieve_bundle_url(&self, domain: &str) -> (r: String)
        ensures
            r@ == slash_join(
                slash_join(slash_join(self.spec_endpoint(), "ssl"@), "retrieve"@),
                domain@,
            ),
    {
        let mut url = self.endpoint.clone();
        push_segment(&mut url, "ssl");
        push_segment(&mut url, "retrieve");
        push_segment(&mut url, domain);
        url
    }

    /// The body that creates a record under `name` with this client's keys.
    pub fn create_record_body(
        &self,
        name: &str,
        record_type: &str,
        content: &str,
        ttl: &str,
    ) -> (b: CreateRecord)
        ensures
            b.auth.api_key@ == self.spec_api_key(),
            b.auth.secret_api_key@ == self.spec_api_secret(),
            b.name@ == name@,
            b.record_type@ == record_type@,
            b.content@ == content@,
            b.ttl@ == ttl@,
    {
        CreateRecord {
            auth: self.auth(),
            name: name.to_owned(),
            record_type: record_type.to_owned(),
            content: content.to_owned(),
            ttl: ttl.to_owned(),
        }
    }

    /// The body that points a record at `content` with time to live `ttl`,
    /// keeping its name and type, with this client's keys; the priority is
    /// left to the provider.
    pub fn edit_record_body(
        &self,
        name: &str,
        record_type: &str,
        content: &str,
        ttl: &str,
    ) -> (b: EditRecord)
        ensures
            b.auth.api_key@ == self.spec_api_key(),
            b.auth.secret_api_key@ == self.spec_api_secret(),
            b.name@ == name@,
            b.record_type@ == record_type@,
            b.content@ == content@,
            b.ttl matches Some(t) && t@ == ttl@,
            b.prio is None,
    {
        EditRecord {
            auth: self.auth(),
            name: name.to_owned(),
            record_type: record_type.to_owned(),
            content: content.to_owned(),
            ttl: Some(ttl.to_owned()),
            prio: None,
        }
    }
}

} // verus!
