//! Reading a stored certificate's remaining lifetime, through openssl.
use vstd::prelude::*;
use openssl::asn1::{Asn1Time, Asn1TimeRef};
use openssl::error::ErrorStack;
use openssl::x509::X509;
use crate::monitor::MonitorEvent;

verus! {

#[verifier::external_type_specification]
#[verifier::external_body]
pub struct ExX509(X509);

#[verifier::external_type_specification]
#[verifier::external_body]
pub struct ExAsn1Time(Asn1Time);

#[verifier::external_type_specification]
#[verifier::external_body]
pub struct ExAsn1TimeRef(Asn1TimeRef);

#[verifier::external_type_specification]
#[verifier::external_body]
pub struct ExErrorStack(ErrorStack);

/// Relies on `X509::from_pem`: parses the first PEM-encoded certificate in
/// `pem`, failing when there is none. Its memory buffer takes at most
/// `c_int::MAX` bytes and panics beyond that.
#[verifier::external_body]
fn parse_certificate(pem: &[u8]) -> (r: Result<X509, ErrorStack>)
    requires
        pem@.len() <= i32::MAX,
{
    X509::from_pem(pem)
}

/// Relies on `Asn1Time::days_from_now` with zero days: the current time, as
/// the clock gives it, so nothing is promised of the value.
#[verifier::external_body]
fn current_time() -> (r: Result<Asn1Time, ErrorStack>) {
    Asn1Time::days_from_now(0)
}

/// Relies on `X509Ref::not_after`: the end of the certificate's validity,
/// which every parsed certificate carries.
#[verifier::external_body]
fn not_after(cert: &X509) -> (r: &Asn1TimeRef) {
    cert.not_after()
}

/// Relies on `Asn1TimeRef::diff`: the whole days from `from` to `to`, or an
/// error when openssl cannot compare them.
#[verifier::external_body]
fn whole_days_between(from: &Asn1Time, to: &Asn1TimeRef) -> (r: Result<i32, ErrorStack>) {
    from.diff(to).map(|d| d.days)
}

/// What the monitor observes on reading the stored certificate `pem`: the
/// whole days left until it expires, or that it cannot be used. Bytes too
/// long for openssl cannot be used; for the others the outcome depends on
/// openssl's parser, which may ask for a pass phrase, and on the clock.
pub fn observe_certificate(pem: &[u8]) -> (e: MonitorEvent)
    ensures
        e is Expiry || e == MonitorEvent::CertificateUnreadable,
        pem@.len() > i32::MAX ==> e == MonitorEvent::CertificateUnreadable,
{
    if pem.len() > i32::MAX as usize {
        return MonitorEvent::CertificateUnreadable;
    }
    let cert = match parse_certificate(pem) {
        Ok(c) => c,
        Err(_) => return MonitorEvent::CertificateUnreadable,
    };
    let now = match current_time() {
        Ok(t) => t,
        Err(_) => return MonitorEvent::CertificateUnreadable,
    };
    match whole_days_between(&now, not_after(&cert)) {
        Ok(days_remaining) => MonitorEvent::Expiry { days_remaining },
        Err(_) => MonitorEvent::CertificateUnreadable,
    }
}

} // verus!
