//! The program's configuration and where the certificate files live.
use vstd::prelude::*;
use crate::responses::opt_view;

verus! {

pub const DEFAULT_CERTIFICATE_CHAIN: &'static str = "domain.cert.pem";

pub const DEFAULT_INTERMEDIATE_CERTIFICATE: &'static str = "intermediate.cert.pem";

pub const DEFAULT_PRIVATE_KEY: &'static str = "private.key.pem";

pub const DEFAULT_PUBLIC_KEY: &'static str = "public.key.pem";

/// Where the certificate bundle is stored: a directory and, for each of the
/// four files, a name that replaces the default one.
pub struct SslConfig {
    pub path: String,
    pub certificate_chain: Option<String>,
    pub intermediate_certificate: Option<String>,
    pub private_key: Option<String>,
    pub public_key: Option<String>,
}

/// Credentials, the domain with its subdomains, and the certificate storage.
pub struct Config {
    pub api_key: String,
    pub api_secret: String,
    pub domain: String,
    pub sub_domains: Vec<String>,
    pub ssl: SslConfig,
}

/// `dir/file`.
pub open spec fn joined(dir: Seq<char>, file: Seq<char>) -> Seq<char> {
    dir + seq!['/'] + file
}

/// The configured name if there is one, else the default.
pub open spec fn chosen(name: Option<Seq<char>>, default: Seq<char>) -> Seq<char> {
    match name {
        Some(n) => n,
        None => default,
    }
}

/// `dir/name`, with `default` where no name is configured.
pub fn file_path(dir: &String, name: &Option<String>, default: &str) -> (r: String)
    ensures
        r@ == joined(dir@, chosen(opt_view(*name), default@)),
{
    let mut r = dir.clone();
    r.append("/");
    proof {
        reveal_strlit("/");
        assert("/"@ =~= seq!['/']);
    }
    match name {
        Some(n) => r.append(n.as_str()),
        None => r.append(default),
    }
    r
}

impl SslConfig {
    pub open spec fn spec_certificate_chain_path(&self) -> Seq<char> {
        joined(self.path@, chosen(opt_view(self.certificate_chain), DEFAULT_CERTIFICATE_CHAIN@))
    }

    pub open spec fn spec_intermediate_certificate_path(&self) -> Seq<char> {
        joined(
            self.path@,
            chosen(opt_view(self.intermediate_certificate), DEFAULT_INTERMEDIATE_CERTIFICATE@),
        )
    }

    pub open spec fn spec_private_key_path(&self) -> Seq<char> {
        joined(self.path@, chosen(opt_view(self.private_key), DEFAULT_PRIVATE_KEY@))
    }

    pub open spec fn spec_public_key_path(&self) -> Seq<char> {
        joined(self.path@, chosen(opt_view(self.public_key), DEFAULT_PUBLIC_KEY@))
    }

    /// Path of the certificate chain file, which the monitor reads.
    pub fn certificate_chain_path(&self) -> (r: String)
        ensures
            r@ == self.spec_certificate_chain_path(),
    {
        file_path(&self.path, &self.certificate_chain, DEFAULT_CERTIFICATE_CHAIN)
    }

    /// Path of the intermediate certificate file.
    pub fn intermediate_certificate_path(&self) -> (r: String)
        ensures
            r@ == self.spec_intermediate_certificate_path(),
    {
        file_path(&self.path, &self.intermediate_certificate, DEFAULT_INTERMEDIATE_CERTIFICATE)
    }

    /// Path of the private key file.
    pub fn private_key_path(&self) -> (r: String)
        ensures
            r@ == self.spec_private_key_path(),
    {
        file_path(&self.path, &self.private_key, DEFAULT_PRIVATE_KEY)
    }

    /// Path of the public key file.
    pub fn public_key_path(&self) -> (r: String)
        ensures
            r@ == self.spec_public_key_path(),
    {
        file_path(&self.path, &self.public_key, DEFAULT_PUBLIC_KEY)
    }
}

} // verus!
