//! The files that a downloaded certificate bundle is written to.
use vstd::prelude::*;
use crate::config::SslConfig;
use crate::responses::SSLRetrieveBundleResponse;

verus! {

/// One file to write: where, and what.
pub struct BundleFile {
    pub path: String,
    pub contents: String,
}

/// The four files of a bundle, in the order they are written: certificate
/// chain, intermediate certificate, private key, public key. Each goes to its
/// configured path, with its default name where none is configured.
pub fn bundle_files(ssl: &SslConfig, bundle: &SSLRetrieveBundleResponse) -> (files: Vec<BundleFile>)
    ensures
        files@.len() == 4,
        files@[0].path@ == ssl.spec_certificate_chain_path(),
        files@[0].contents@ == bundle.certificate_chain@,
        files@[1].path@ == ssl.spec_intermediate_certificate_path(),
        files@[1].contents@ == bundle.intermediate_certificate@,
        files@[2].path@ == ssl.spec_private_key_path(),
        files@[2].contents@ == bundle.private_key@,
        files@[3].path@ == ssl.spec_public_key_path(),
        files@[3].contents@ == bundle.public_key@,
{
    let mut files: Vec<BundleFile> = Vec::new();
    files.push(
        BundleFile { path: ssl.certificate_chain_path(), contents: bundle.certificate_chain.clone() },
    );
    files.push(
        BundleFile {
            path: ssl.intermediate_certificate_path(),
            contents: bundle.intermediate_certificate.clone(),
        },
    );
    files.push(BundleFile { path: ssl.private_key_path(), contents: bundle.private_key.clone() });
    files.push(BundleFile { path: ssl.public_key_path(), contents: bundle.public_key.clone() });
    files
}

} // verus!
