use remote_attestation::decode::{
    base64_decode, extract_pem_payload, percent_decode, strip_crlf, strip_escaped_lf,
};
use remote_attestation::errors::RaError;

#[test]
fn percent_decoding_replaces_escapes_with_bytes() {
    assert_eq!(percent_decode(b"ABC%0ADEF").unwrap(), b"ABC\nDEF".to_vec());
}

#[test]
fn percent_decoding_handles_lowercase_hex() {
    assert_eq!(percent_decode(b"%2b%2F").unwrap(), b"+/".to_vec());
}

#[test]
fn percent_decoding_leaves_escape_free_input_unchanged() {
    assert_eq!(percent_decode(b"plain input, no escapes").unwrap(), b"plain input, no escapes".to_vec());
    assert_eq!(percent_decode(b"").unwrap(), b"".to_vec());
}

#[test]
fn percent_decoding_rejects_malformed_hex() {
    assert_eq!(percent_decode(b"AB%G1CD"), Err(RaError::Decode));
    assert_eq!(percent_decode(b"AB%4"), Err(RaError::Decode));
    assert_eq!(percent_decode(b"AB%"), Err(RaError::Decode));
    assert_eq!(percent_decode(b"%%41"), Err(RaError::Decode));
}

#[test]
fn escaped_newlines_are_removed_before_decoding() {
    assert_eq!(strip_escaped_lf(b"A%0AB%0A"), b"AB".to_vec());
    assert_eq!(strip_escaped_lf(b"%0A%0A"), b"".to_vec());
    // the removal is exact: lowercase hex is not the authority's escape
    assert_eq!(strip_escaped_lf(b"A%0aB"), b"A%0aB".to_vec());
}

#[test]
fn crlf_stripping_removes_both_bytes() {
    assert_eq!(strip_crlf(b"a\r\nb\nc\r"), b"abc".to_vec());
    assert_eq!(strip_crlf(b"plain"), b"plain".to_vec());
}

#[test]
fn pem_payload_is_the_segment_after_the_first_delimiter_pair() {
    let input = b"-----BEGIN CERTIFICATE-----PAYLOAD-----END CERTIFICATE-----";
    assert_eq!(extract_pem_payload(input).unwrap(), b"PAYLOAD".to_vec());
}

#[test]
fn pem_payload_of_concatenated_blocks_is_the_first_one() {
    let input = b"-----BEGIN A-----FIRST-----END A----------BEGIN B-----SECOND-----END B-----";
    assert_eq!(extract_pem_payload(input).unwrap(), b"FIRST".to_vec());
}

#[test]
fn pem_payload_needs_two_delimiters() {
    assert_eq!(extract_pem_payload(b"no delimiters"), Err(RaError::Decode));
    assert_eq!(extract_pem_payload(b"-----only one"), Err(RaError::Decode));
    assert_eq!(extract_pem_payload(b""), Err(RaError::Decode));
}

#[test]
fn base64_decoding_decodes_and_rejects() {
    assert_eq!(base64_decode(b"aGVsbG8=").unwrap(), b"hello".to_vec());
    assert_eq!(base64_decode(b"").unwrap(), b"".to_vec());
    assert_eq!(base64_decode(b"!!!"), Err(RaError::Decode));
}
