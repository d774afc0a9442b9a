use vstd::prelude::*;

verus! {

/// Whether the certificate verifier accepts `ee` as a valid
/// TLS-server end-entity certificate at `time` (seconds since the Unix
/// epoch), chained through the intermediate DER `inter` to the single
/// trust-anchor DER `anchor`, under the fixed supported
/// signature-algorithm set.  A function of the four arguments alone.
pub uninterp spec fn chain_accepted(ee: Seq<u8>, inter: Seq<u8>, anchor: Seq<u8>, time: u64) -> bool;

/// Whether `sig` is accepted as an RSA PKCS#1 v1.5 SHA-256 signature
/// over `msg` by the subject public key of the DER certificate `ee`.
/// A function of the three arguments alone.
pub uninterp spec fn report_signature_accepted(ee: Seq<u8>, msg: Seq<u8>, sig: Seq<u8>) -> bool;

#[verifier::external_type_specification]
#[verifier::external_body]
pub struct ExSignatureAlgorithm(webpki::SignatureAlgorithm);

/// Relies on `webpki`'s algorithm set: ECDSA P-256/P-384 with
/// SHA-256/384, RSA-PSS (legacy key encoding) with SHA-256/384/512,
/// and RSA PKCS#1 v1.5 with SHA-256/384/512 at 2048-8192-bit keys
/// (SHA-384 also at 3072-8192).
#[verifier::external_body]
fn supported_sig_algs() -> [&'static webpki::SignatureAlgorithm; 11] {
    [
        &webpki::ECDSA_P256_SHA256,
        &webpki::ECDSA_P256_SHA384,
        &webpki::ECDSA_P384_SHA256,
        &webpki::ECDSA_P384_SHA384,
        &webpki::RSA_PSS_2048_8192_SHA256_LEGACY_KEY,
        &webpki::RSA_PSS_2048_8192_SHA384_LEGACY_KEY,
        &webpki::RSA_PSS_2048_8192_SHA512_LEGACY_KEY,
        &webpki::RSA_PKCS1_2048_8192_SHA256,
        &webpki::RSA_PKCS1_2048_8192_SHA384,
        &webpki::RSA_PKCS1_2048_8192_SHA512,
        &webpki::RSA_PKCS1_3072_8192_SHA384,
    ]
}


/// Relies on `webpki::TrustAnchor::try_from_cert_der`,
/// `webpki::EndEntityCert::try_from` and
/// `EndEntityCert::verify_is_valid_tls_server_cert`: parse the anchor
/// and the end-entity DER and validate the chain of trust at `time`;
/// any parse failure or broken link is a rejection.  Deterministic in
/// its arguments, so the outcome carries the name `chain_accepted`.
#[verifier::external_body]
pub(crate) fn verify_cert_chain(ee: &[u8], inter: &[u8], anchor: &[u8], time: u64) -> (r: bool)
    ensures
        r == chain_accepted(ee@, inter@, anchor@, time),
{
    let anchors = match webpki::TrustAnchor::try_from_cert_der(anchor) {
        Ok(a) => [a],
        Err(_) => return false,
    };
    let cert = match webpki::EndEntityCert::try_from(ee) {
        Ok(c) => c,
        Err(_) => return false,
    };
    cert.verify_is_valid_tls_server_cert(
        &supported_sig_algs(),
        &webpki::TlsServerTrustAnchors(&anchors),
        &[inter],
        webpki::Time::from_seconds_since_unix_epoch(time),
    )
    .is_ok()
}

/// Relies on `webpki::EndEntityCert::verify_signature` with
/// `RSA_PKCS1_2048_8192_SHA256`: whether `sig` verifies over `msg`
/// under the public key of the DER certificate `ee`; a malformed
/// certificate is a rejection.  Deterministic in its arguments, so the
/// outcome carries the name `report_signature_accepted`.
#[verifier::external_body]
pub(crate) fn verify_report_signature(ee: &[u8], msg: &[u8], sig: &[u8]) -> (r: bool)
    ensures
        r == report_signature_accepted(ee@, msg@, sig@),
{
    match webpki::EndEntityCert::try_from(ee) {
        Ok(cert) => cert.verify_signature(&webpki::RSA_PKCS1_2048_8192_SHA256, msg, sig).is_ok(),
        Err(_) => false,
    }
}

/// Relies on `std::time::SystemTime::now`: the wall clock as seconds
/// since the Unix epoch, zero when the clock reads earlier than the
/// epoch.  Nothing is promised of the value.
#[verifier::external_body]
pub(crate) fn now_unix_seconds() -> u64 {
    match std::time::SystemTime::now().duration_since(std::time::UNIX_EPOCH) {
        Ok(d) => d.as_secs(),
        Err(_) => 0,
    }
}

} // verus!
