use remote_attestation::errors::RaError;
use remote_attestation::quote::{get_quote_outcome, init_quote_outcome, QUOTE_BUFFER_LEN};

fn patterned_buffer() -> Vec<u8> {
    (0..QUOTE_BUFFER_LEN).map(|i| (i % 251) as u8).collect()
}

#[test]
fn quote_is_truncated_to_the_reported_length() {
    let buf = patterned_buffer();
    let q = get_quote_outcome(0, 0, buf.clone(), 100).unwrap();
    assert_eq!(q.len(), 100);
    assert_eq!(q.as_slice(), &buf[..100]);
}

#[test]
fn quote_never_exceeds_the_buffer_whatever_length_is_claimed() {
    let buf = patterned_buffer();
    let q = get_quote_outcome(0, 0, buf.clone(), 1_000_000).unwrap();
    assert_eq!(q.len(), QUOTE_BUFFER_LEN);
    assert_eq!(q, buf);
}

#[test]
fn zero_reported_length_yields_an_empty_quote() {
    let q = get_quote_outcome(0, 0, patterned_buffer(), 0).unwrap();
    assert!(q.is_empty());
}

#[test]
fn non_success_statuses_are_fatal() {
    assert_eq!(get_quote_outcome(1, 0, patterned_buffer(), 10), Err(RaError::Quote));
    assert_eq!(get_quote_outcome(0, 7, patterned_buffer(), 10), Err(RaError::Quote));
}

#[test]
fn init_quote_outcome_requires_both_statuses_to_succeed() {
    assert_eq!(init_quote_outcome(0, 0), Ok(()));
    assert_eq!(init_quote_outcome(2, 0), Err(RaError::Quote));
    assert_eq!(init_quote_outcome(0, 3), Err(RaError::Quote));
}
