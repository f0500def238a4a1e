use openssl::asn1::Asn1Time;
use openssl::ec::{EcGroup, EcKey};
use openssl::hash::MessageDigest;
use openssl::nid::Nid;
use openssl::pkey::PKey;
use openssl::x509::{X509NameBuilder, X509};
use porkbun_ddns::certificate::observe_certificate;
use porkbun_ddns::monitor::MonitorEvent;

fn certificate_valid_for(days: u32) -> Vec<u8> {
    let group = EcGroup::from_curve_name(Nid::X9_62_PRIME256V1).unwrap();
    let key = PKey::from_ec_key(EcKey::generate(&group).unwrap()).unwrap();
    let mut name = X509NameBuilder::new().unwrap();
    name.append_entry_by_text("CN", "example.com").unwrap();
    let name = name.build();
    let mut builder = X509::builder().unwrap();
    builder.set_version(2).unwrap();
    builder.set_subject_name(&name).unwrap();
    builder.set_issuer_name(&name).unwrap();
    builder.set_pubkey(&key).unwrap();
    builder
        .set_not_before(&Asn1Time::days_from_now(0).unwrap())
        .unwrap();
    builder
        .set_not_after(&Asn1Time::days_from_now(days).unwrap())
        .unwrap();
    builder.sign(&key, MessageDigest::sha256()).unwrap();
    builder.build().to_pem().unwrap()
}

#[test]
fn garbage_is_unreadable() {
    assert_eq!(
        observe_certificate(b"not a certificate"),
        MonitorEvent::CertificateUnreadable
    );
    assert_eq!(observe_certificate(b""), MonitorEvent::CertificateUnreadable);
}

#[test]
fn fresh_certificate_reports_its_days() {
    let pem = certificate_valid_for(30);
    match observe_certificate(&pem) {
        MonitorEvent::Expiry { days_remaining } => {
            assert!((29..=30).contains(&days_remaining), "{}", days_remaining)
        }
        other => panic!("unexpected event {:?}", other),
    }
}

#[test]
fn certificate_near_expiry_reports_few_days() {
    let pem = certificate_valid_for(3);
    match observe_certificate(&pem) {
        MonitorEvent::Expiry { days_remaining } => assert!((2..=3).contains(&days_remaining)),
        other => panic!("unexpected event {:?}", other),
    }
}
