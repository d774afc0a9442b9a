use remote_attestation::attest::{ias_report_ca, RAResponse};

#[test]
fn embedded_anchor_extraction_is_deterministic() {
    let a = RAResponse::decode_ias_report_ca().unwrap();
    let b = RAResponse::decode_ias_report_ca().unwrap();
    assert_eq!(a, b);
}

#[test]
fn embedded_anchor_decodes_to_der_of_expected_length() {
    let der = RAResponse::decode_ias_report_ca().unwrap();
    assert_eq!(der.len(), 823);
    // a DER certificate starts with a SEQUENCE tag
    assert_eq!(der[0], 0x30);
}

#[test]
fn embedded_anchor_pem_has_the_expected_delimiters() {
    let pem = ias_report_ca();
    assert!(pem.starts_with(b"-----BEGIN CERTIFICATE-----"));
    assert!(pem.ends_with(b"-----END CERTIFICATE-----\n"));
}
