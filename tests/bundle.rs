use porkbun_ddns::bundle::bundle_files;
use porkbun_ddns::config::SslConfig;
use porkbun_ddns::responses::SSLRetrieveBundleResponse;

fn bundle() -> SSLRetrieveBundleResponse {
    SSLRetrieveBundleResponse {
        status: "SUCCESS".to_string(),
        intermediate_certificate: "INTER".to_string(),
        certificate_chain: "CHAIN".to_string(),
        private_key: "PRIV".to_string(),
        public_key: "PUB".to_string(),
    }
}

#[test]
fn default_names_are_used() {
    let ssl = SslConfig {
        path: "/etc/certs".to_string(),
        certificate_chain: None,
        intermediate_certificate: None,
        private_key: None,
        public_key: None,
    };
    assert_eq!(ssl.certificate_chain_path(), "/etc/certs/domain.cert.pem");
    let files = bundle_files(&ssl, &bundle());
    let got: Vec<(String, String)> = files.into_iter().map(|f| (f.path, f.contents)).collect();
    assert_eq!(
        got,
        vec![
            ("/etc/certs/domain.cert.pem".to_string(), "CHAIN".to_string()),
            ("/etc/certs/intermediate.cert.pem".to_string(), "INTER".to_string()),
            ("/etc/certs/private.key.pem".to_string(), "PRIV".to_string()),
            ("/etc/certs/public.key.pem".to_string(), "PUB".to_string()),
        ]
    );
}

#[test]
fn configured_names_replace_defaults() {
    let ssl = SslConfig {
        path: "certs".to_string(),
        certificate_chain: Some("fullchain.pem".to_string()),
        intermediate_certificate: None,
        private_key: Some("key.pem".to_string()),
        public_key: None,
    };
    assert_eq!(ssl.certificate_chain_path(), "certs/fullchain.pem");
    assert_eq!(ssl.intermediate_certificate_path(), "certs/intermediate.cert.pem");
    assert_eq!(ssl.private_key_path(), "certs/key.pem");
    assert_eq!(ssl.public_key_path(), "certs/public.key.pem");
    let files = bundle_files(&ssl, &bundle());
    assert_eq!(files.len(), 4);
    assert_eq!(files[0].path, "certs/fullchain.pem");
    assert_eq!(files[2].contents, "PRIV");
}
