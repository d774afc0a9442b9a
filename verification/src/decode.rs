use vstd::prelude::*;

verus! {

use crate::errors::RaError;

// Byte constants used by the decoders: '%', '0', 'A', '-', CR, LF.
pub const PERCENT_BYTE: u8 = 37;
pub const ZERO_BYTE: u8 = 48;
pub const UPPER_A_BYTE: u8 = 65;
pub const DASH_BYTE: u8 = 45;
pub const CR_BYTE: u8 = 13;
pub const LF_BYTE: u8 = 10;

/// Whether `b` is an ASCII hexadecimal digit.
pub open spec fn is_hex_digit(b: u8) -> bool {
    (48 <= b && b <= 57) || (65 <= b && b <= 70) || (97 <= b && b <= 102)
}

/// Numeric value of an ASCII hexadecimal digit.
pub open spec fn hex_value(b: u8) -> u8 {
    if 48 <= b && b <= 57 {
        (b - 48) as u8
    } else if 65 <= b && b <= 70 {
        (b - 55) as u8
    } else {
        (b - 87) as u8
    }
}

/// Generic percent-decoding of a byte sequence: every `%` must be
/// followed by two hexadecimal digits and is replaced, together with
/// them, by the single byte they denote; any malformed escape makes
/// the whole input undecodable.
pub open spec fn percent_decoded(s: Seq<u8>) -> Option<Seq<u8>>
    decreases s.len(),
{
    if s.len() == 0 {
        Some(Seq::empty())
    } else if s[0] == PERCENT_BYTE {
        if s.len() >= 3 && is_hex_digit(s[1]) && is_hex_digit(s[2]) {
            match percent_decoded(s.skip(3)) {
                Some(rest) => Some(seq![(16 * hex_value(s[1]) + hex_value(s[2])) as u8] + rest),
                None => None,
            }
        } else {
            None
        }
    } else {
        match percent_decoded(s.skip(1)) {
            Some(rest) => Some(seq![s[0]] + rest),
            None => None,
        }
    }
}

/// A sequence without any `%` decodes to itself.
pub proof fn lemma_percent_decode_without_escapes(s: Seq<u8>)
    requires
        forall|i: int| 0 <= i < s.len() ==> s[i] != PERCENT_BYTE,
    ensures
        percent_decoded(s) == Some(s),
    decreases s.len(),
{
    if s.len() == 0 {
        assert(s =~= Seq::<u8>::empty());
    } else {
        lemma_percent_decode_without_escapes(s.skip(1));
        assert(seq![s[0]] + s.skip(1) =~= s);
    }
}

/// A `%` not followed by two hexadecimal digits spoils the whole
/// input, wherever it stands: every `%` of the input lies at a scan
/// position, because no `%` can be consumed as a hexadecimal digit.
pub proof fn lemma_percent_decode_malformed_escape(s: Seq<u8>, i: int)
    requires
        0 <= i < s.len(),
        s[i] == PERCENT_BYTE,
        !(i + 3 <= s.len() && is_hex_digit(s[i + 1]) && is_hex_digit(s[i + 2])),
    ensures
        percent_decoded(s) is None,
    decreases s.len(),
{
    if s[0] == PERCENT_BYTE {
        if s.len() >= 3 && is_hex_digit(s[1]) && is_hex_digit(s[2]) {
            assert(i >= 3);
            let t = s.skip(3);
            assert(t[i - 3] == s[i]);
            assert(i - 3 + 3 <= t.len() ==> t[i - 3 + 1] == s[i + 1] && t[i - 3 + 2] == s[i + 2]);
            lemma_percent_decode_malformed_escape(t, i - 3);
        }
    } else {
        assert(i >= 1);
        let t = s.skip(1);
        assert(t[i - 1] == s[i]);
        assert(i - 1 + 3 <= t.len() ==> t[i - 1 + 1] == s[i + 1] && t[i - 1 + 2] == s[i + 2]);
        lemma_percent_decode_malformed_escape(t, i - 1);
    }
}

fn hex_digit_value(b: u8) -> (r: Option<u8>)
    ensures
        r is Some <==> is_hex_digit(b),
        r matches Some(v) ==> v == hex_value(b),
{
    if 48 <= b && b <= 57 {
        Some(b - 48)
    } else if 65 <= b && b <= 70 {
        Some(b - 55)
    } else if 97 <= b && b <= 102 {
        Some(b - 87)
    } else {
        None
    }
}

/// Percent-decode `s`.  Returns the decoded bytes, or `Decode` if some
/// `%` is not followed by two hexadecimal digits.
pub fn percent_decode(s: &[u8]) -> (r: Result<Vec<u8>, RaError>)
    ensures
        r matches Ok(v) ==> percent_decoded(s@) == Some(v@),
        r matches Err(e) ==> percent_decoded(s@) is None && e == RaError::Decode,
{
    let mut out: Vec<u8> = Vec::new();
    let mut i: usize = 0;
    proof {
        assert(s@.skip(0) =~= s@);
        let pd = percent_decoded(s@);
        if pd is Some {
            assert(Seq::<u8>::empty() + pd.unwrap() =~= pd.unwrap());
        }
    }
    while i < s.len()
        invariant
            0 <= i <= s.len(),
            percent_decoded(s@) == (match percent_decoded(s@.skip(i as int)) {
                Some(t) => Some(out@ + t),
                None => None::<Seq<u8>>,
            }),
        decreases s.len() - i,
    {
        let b = s[i];
        proof {
            assert(s@.skip(i as int)[0] == s@[i as int]);
        }
        if b == PERCENT_BYTE {
            if s.len() - i < 3 {
                proof {
                    assert(s@.skip(i as int).len() < 3);
                    assert(percent_decoded(s@.skip(i as int)) is None);
                }
                return Err(RaError::Decode);
            }
            proof {
                assert(s@.skip(i as int)[1] == s@[i + 1]);
                assert(s@.skip(i as int)[2] == s@[i + 2]);
                assert(s@.skip(i as int).skip(3) =~= s@.skip(i + 3));
            }
            let h = hex_digit_value(s[i + 1]);
            let l = hex_digit_value(s[i + 2]);
            match (h, l) {
                (Some(hv), Some(lv)) => {
                    proof {
                        let tail = percent_decoded(s@.skip(i + 3));
                        if tail is Some {
                            let t = tail.unwrap();
                            assert(percent_decoded(s@.skip(i as int)) == Some(
                                seq![(16 * hex_value(s@[i + 1]) + hex_value(s@[i + 2])) as u8] + t,
                            ));
                            assert(out@ + (seq![(16 * hex_value(s@[i + 1]) + hex_value(
                                s@[i + 2],
                            )) as u8] + t) =~= out@.push(
                                (16 * hex_value(s@[i + 1]) + hex_value(s@[i + 2])) as u8,
                            ) + t);
                        }
                    }
                    out.push(16 * hv + lv);
                    i = i + 3;
                }
                _ => {
                    proof {
                        assert(percent_decoded(s@.skip(i as int)) is None);
                    }
                    return Err(RaError::Decode);
                }
            }
        } else {
            proof {
                assert(s@.skip(i as int).skip(1) =~= s@.skip(i + 1));
                let tail = percent_decoded(s@.skip(i + 1));
                if tail is Some {
                    let t = tail.unwrap();
                    assert(percent_decoded(s@.skip(i as int)) == Some(seq![s@[i as int]] + t));
                    assert(out@ + (seq![s@[i as int]] + t) =~= out@.push(s@[i as int]) + t);
                }
            }
            out.push(b);
            i = i + 1;
        }
    }
    proof {
        assert(s@.skip(i as int) =~= Seq::<u8>::empty());
        assert(out@ + Seq::<u8>::empty() =~= out@);
    }
    Ok(out)
}

/// The input with every literal three-byte `%0A` sequence removed,
/// scanning left to right.  The authority escapes the newlines inside
/// its certificate header this way, and they must go before generic
/// percent-decoding runs.
pub open spec fn escaped_lf_stripped(s: Seq<u8>) -> Seq<u8>
    decreases s.len(),
{
    if s.len() == 0 {
        Seq::empty()
    } else if s.len() >= 3 && s[0] == PERCENT_BYTE && s[1] == ZERO_BYTE && s[2] == UPPER_A_BYTE {
        escaped_lf_stripped(s.skip(3))
    } else {
        seq![s[0]] + escaped_lf_stripped(s.skip(1))
    }
}

/// Remove every literal `%0A` sequence from `s`.
pub fn strip_escaped_lf(s: &[u8]) -> (r: Vec<u8>)
    ensures
        r@ == escaped_lf_stripped(s@),
{
    let mut out: Vec<u8> = Vec::new();
    let mut i: usize = 0;
    proof {
        assert(s@.skip(0) =~= s@);
        assert(Seq::<u8>::empty() + escaped_lf_stripped(s@) =~= escaped_lf_stripped(s@));
    }
    while i < s.len()
        invariant
            0 <= i <= s.len(),
            escaped_lf_stripped(s@) == out@ + escaped_lf_stripped(s@.skip(i as int)),
        decreases s.len() - i,
    {
        if s.len() - i > 2 && s[i] == PERCENT_BYTE && s[i + 1] == ZERO_BYTE && s[i + 2]
            == UPPER_A_BYTE {
            proof {
                assert(s@.skip(i as int)[0] == s@[i as int]);
                assert(s@.skip(i as int)[1] == s@[i + 1]);
                assert(s@.skip(i as int)[2] == s@[i + 2]);
                assert(s@.skip(i as int).skip(3) =~= s@.skip(i + 3));
            }
            i = i + 3;
        } else {
            proof {
                assert(s@.skip(i as int)[0] == s@[i as int]);
                assert(s@.skip(i as int).skip(1) =~= s@.skip(i + 1));
                if s@.skip(i as int).len() >= 3 {
                    assert(s@.skip(i as int)[1] == s@[i + 1]);
                    assert(s@.skip(i as int)[2] == s@[i + 2]);
                }
                assert(escaped_lf_stripped(s@.skip(i as int)) == seq![s@[i as int]]
                    + escaped_lf_stripped(s@.skip(i + 1)));
                assert(out@ + escaped_lf_stripped(s@.skip(i as int)) =~= out@.push(s@[i as int])
                    + escaped_lf_stripped(s@.skip(i + 1)));
            }
            out.push(s[i]);
            i = i + 1;
        }
    }
    proof {
        assert(s@.skip(i as int) =~= Seq::<u8>::empty());
        assert(out@ + escaped_lf_stripped(s@.skip(i as int)) =~= out@);
    }
    out
}

/// The input with every CR and LF byte removed; this is how the
/// embedded trust-anchor PEM is flattened before its delimiters are
/// stripped.
pub open spec fn crlf_stripped(s: Seq<u8>) -> Seq<u8>
    decreases s.len(),
{
    if s.len() == 0 {
        Seq::empty()
    } else if s[0] == CR_BYTE || s[0] == LF_BYTE {
        crlf_stripped(s.skip(1))
    } else {
        seq![s[0]] + crlf_stripped(s.skip(1))
    }
}

/// Remove every CR and LF byte from `s`.
pub fn strip_crlf(s: &[u8]) -> (r: Vec<u8>)
    ensures
        r@ == crlf_stripped(s@),
{
    let mut out: Vec<u8> = Vec::new();
    let mut i: usize = 0;
    proof {
        assert(s@.skip(0) =~= s@);
        assert(Seq::<u8>::empty() + crlf_stripped(s@) =~= crlf_stripped(s@));
    }
    while i < s.len()
        invariant
            0 <= i <= s.len(),
            crlf_stripped(s@) == out@ + crlf_stripped(s@.skip(i as int)),
        decreases s.len() - i,
    {
        proof {
            assert(s@.skip(i as int)[0] == s@[i as int]);
            assert(s@.skip(i as int).skip(1) =~= s@.skip(i + 1));
        }
        let b = s[i];
        if b != CR_BYTE && b != LF_BYTE {
            proof {
                assert(out@ + crlf_stripped(s@.skip(i as int)) =~= out@.push(s@[i as int])
                    + crlf_stripped(s@.skip(i + 1)));
            }
            out.push(b);
        }
        i = i + 1;
    }
    proof {
        assert(s@.skip(i as int) =~= Seq::<u8>::empty());
        assert(out@ + crlf_stripped(s@.skip(i as int)) =~= out@);
    }
    out
}

/// True when five consecutive dash bytes stand at position `i` of `s`.
pub open spec fn is_dashes_at(s: Seq<u8>, i: int) -> bool {
    0 <= i && i + 5 <= s.len() && (forall|j: int| i <= j < i + 5 ==> s[j] == DASH_BYTE)
}

/// The segments of `s` between non-overlapping `-----` runs, scanning
/// left to right; with no delimiter the whole input is the one segment.
/// This mirrors how the certificate header is cut at PEM delimiters.
pub open spec fn dash_split(s: Seq<u8>) -> Seq<Seq<u8>>
    decreases s.len(),
{
    if is_dashes_at(s, 0) {
        seq![Seq::<u8>::empty()] + dash_split(s.skip(5))
    } else if s.len() == 0 {
        seq![Seq::<u8>::empty()]
    } else {
        let r = dash_split(s.skip(1));
        r.update(0, seq![s[0]] + r[0])
    }
}

pub proof fn lemma_dash_split_nonempty(s: Seq<u8>)
    ensures
        dash_split(s).len() >= 1,
    decreases s.len(),
{
    if is_dashes_at(s, 0) {
    } else if s.len() == 0 {
    } else {
        lemma_dash_split_nonempty(s.skip(1));
    }
}

/// Delimiter positions transfer through `skip`.
pub proof fn lemma_dashes_at_skip(s: Seq<u8>, m: int, q: int)
    requires
        0 <= m <= s.len(),
        0 <= q,
    ensures
        is_dashes_at(s.skip(m), q) <==> is_dashes_at(s, m + q),
{
    let t = s.skip(m);
    if is_dashes_at(t, q) {
        assert forall|j: int| m + q <= j < m + q + 5 implies s[j] == DASH_BYTE by {
            assert(t[j - m] == s[j]);
        }
    }
    if is_dashes_at(s, m + q) {
        assert forall|j: int| q <= j < q + 5 implies t[j] == DASH_BYTE by {
            assert(t[j] == s[j + m]);
        }
    }
}

/// With no delimiter anywhere, the split is the whole input.
pub proof fn lemma_dash_split_no_match(s: Seq<u8>)
    requires
        forall|j: int| !is_dashes_at(s, j),
    ensures
        dash_split(s) =~~= seq![s],
    decreases s.len(),
{
    if s.len() == 0 {
        assert(s =~= Seq::<u8>::empty());
    } else {
        assert forall|j: int| !is_dashes_at(s.skip(1), j) by {
            if 0 <= j {
                lemma_dashes_at_skip(s, 1, j);
            }
        }
        lemma_dash_split_no_match(s.skip(1));
        let r = dash_split(s.skip(1));
        assert(r[0] == s.skip(1));
        assert(seq![s[0]] + s.skip(1) =~= s);
    }
}

/// With the first delimiter at `p`, the split is the prefix before `p`
/// followed by the split of what comes after the delimiter.
pub proof fn lemma_dash_split_first_match(s: Seq<u8>, p: int)
    requires
        is_dashes_at(s, p),
        forall|j: int| 0 <= j < p ==> !is_dashes_at(s, j),
    ensures
        dash_split(s) =~~= seq![s.subrange(0, p)] + dash_split(s.skip(p + 5)),
    decreases p,
{
    if p == 0 {
        assert(s.subrange(0, 0) =~= Seq::<u8>::empty());
    } else {
        assert(s.len() > 0);
        assert(!is_dashes_at(s, 0));
        let t = s.skip(1);
        lemma_dashes_at_skip(s, 1, p - 1);
        assert(is_dashes_at(t, p - 1));
        assert forall|j: int| 0 <= j < p - 1 implies !is_dashes_at(t, j) by {
            lemma_dashes_at_skip(s, 1, j);
        }
        lemma_dash_split_first_match(t, p - 1);
        assert(t.skip(p - 1 + 5) =~= s.skip(p + 5));
        let r = dash_split(t);
        assert(r[0] == t.subrange(0, p - 1));
        assert(seq![s[0]] + t.subrange(0, p - 1) =~= s.subrange(0, p));
        assert(dash_split(s) == r.update(0, seq![s[0]] + r[0]));
    }
}

/// Find the first `-----` run at or after `from`; `None` when there is
/// none.
fn find_dashes(s: &[u8], from: usize) -> (r: Option<usize>)
    requires
        from <= s@.len(),
    ensures
        r matches Some(p) ==> from <= p && is_dashes_at(s@, p as int) && (forall|j: int|
            from <= j < p ==> !is_dashes_at(s@, j)),
        r is None ==> forall|j: int| from <= j ==> !is_dashes_at(s@, j),
{
    if s.len() < 5 {
        return None;
    }
    let mut i: usize = from;
    while i <= s.len() - 5
        invariant
            from <= i <= s@.len(),
            s@.len() >= 5,
            forall|j: int| from <= j < i ==> !is_dashes_at(s@, j),
        decreases s.len() - i,
    {
        if s[i] == DASH_BYTE && s[i + 1] == DASH_BYTE && s[i + 2] == DASH_BYTE && s[i + 3]
            == DASH_BYTE && s[i + 4] == DASH_BYTE {
            proof {
                assert forall|j: int| i <= j < i + 5 implies s@[j] == DASH_BYTE by {
                    if j == i {
                    } else if j == i + 1 {
                    } else if j == i + 2 {
                    } else if j == i + 3 {
                    } else {
                        assert(j == i + 4);
                    }
                }
            }
            return Some(i);
        }
        i = i + 1;
    }
    None
}

/// The base64 payload of the first PEM block of `s`: the segment at
/// fixed index 2 of the dash split, i.e. the text immediately after the
/// first `-----BEGIN ...-----` delimiter pair.  `None` when fewer than
/// two delimiters are present.
pub open spec fn pem_payload(s: Seq<u8>) -> Option<Seq<u8>> {
    let segs = dash_split(s);
    if segs.len() > 2 {
        Some(segs[2])
    } else {
        None
    }
}

/// Extract the base64 payload of the first PEM block, or `Decode` when
/// the input does not hold one.
pub fn extract_pem_payload(s: &[u8]) -> (r: Result<Vec<u8>, RaError>)
    ensures
        r matches Ok(v) ==> pem_payload(s@) == Some(v@),
        r matches Err(e) ==> pem_payload(s@) is None && e == RaError::Decode,
{
    let d0 = match find_dashes(s, 0) {
        Some(p) => p,
        None => {
            proof {
                lemma_dash_split_no_match(s@);
            }
            return Err(RaError::Decode);
        },
    };
    let n: usize = s.len();
    proof {
        lemma_dash_split_first_match(s@, d0 as int);
        assert(d0 + 5 <= n);
    }
    let t1_start = d0 + 5;
    let ghost t1 = s@.skip(t1_start as int);
    let d1 = match find_dashes(s, t1_start) {
        Some(p) => p,
        None => {
            proof {
                assert forall|j: int| !is_dashes_at(t1, j) by {
                    if 0 <= j {
                        lemma_dashes_at_skip(s@, t1_start as int, j);
                    }
                }
                lemma_dash_split_no_match(t1);
            }
            return Err(RaError::Decode);
        },
    };
    proof {
        lemma_dashes_at_skip(s@, t1_start as int, d1 - t1_start);
        assert forall|j: int| 0 <= j < d1 - t1_start implies !is_dashes_at(t1, j) by {
            lemma_dashes_at_skip(s@, t1_start as int, j);
        }
        lemma_dash_split_first_match(t1, d1 - t1_start);
    }
    proof {
        assert(d1 + 5 <= n);
    }
    let after = d1 + 5;
    let ghost t2 = s@.skip(after as int);
    proof {
        assert(t1.skip(d1 - t1_start + 5) =~= t2);
        lemma_dash_split_nonempty(t2);
        assert(dash_split(s@)[2] == dash_split(t2)[0]);
    }
    let end = match find_dashes(s, after) {
        Some(p) => {
            proof {
                lemma_dashes_at_skip(s@, after as int, p - after);
                assert forall|j: int| 0 <= j < p - after implies !is_dashes_at(t2, j) by {
                    lemma_dashes_at_skip(s@, after as int, j);
                }
                lemma_dash_split_first_match(t2, p - after);
                assert(dash_split(t2)[0] == t2.subrange(0, p - after));
                assert(t2.subrange(0, p - after) =~= s@.subrange(after as int, p as int));
            }
            p
        },
        None => {
            proof {
                assert forall|j: int| !is_dashes_at(t2, j) by {
                    if 0 <= j {
                        lemma_dashes_at_skip(s@, after as int, j);
                    }
                }
                lemma_dash_split_no_match(t2);
                assert(dash_split(t2)[0] == t2);
                assert(t2 =~= s@.subrange(after as int, s@.len() as int));
            }
            s.len()
        },
    };
    let payload = vstd::slice::slice_to_vec(vstd::slice::slice_subrange(s, after, end));
    Ok(payload)
}

#[verifier::external_type_specification]
#[verifier::external_body]
pub struct ExDecodeError(base64::DecodeError);

/// What `base64::decode` yields on `s`: the decoded bytes when `s` is
/// well-formed standard base64, nothing otherwise.  A function of the
/// input alone.
pub uninterp spec fn base64_decoding(s: Seq<u8>) -> Option<Seq<u8>>;

/// Relies on `base64::decode`: standard-alphabet, padded base64
/// decoding of the input bytes, deterministic in them, so the outcome
/// carries the name `base64_decoding`.
#[verifier::external_body]
fn base64_decode_raw(s: &[u8]) -> (r: Result<Vec<u8>, base64::DecodeError>)
    ensures
        r matches Ok(v) ==> base64_decoding(s@) == Some(v@),
        r is Err ==> base64_decoding(s@) is None,
{
    base64::decode(s)
}

/// Base64-decode `s`, or `Decode` on malformed input.
pub fn base64_decode(s: &[u8]) -> (r: Result<Vec<u8>, RaError>)
    ensures
        r matches Ok(v) ==> base64_decoding(s@) == Some(v@),
        r matches Err(e) ==> base64_decoding(s@) is None && e == RaError::Decode,
{
    match base64_decode_raw(s) {
        Ok(v) => Ok(v),
        Err(_) => Err(RaError::Decode),
    }
}

/// The signing-certificate DER recovered from the raw certificate
/// header value: literal `%0A` escapes removed, the rest
/// percent-decoded, the first PEM block's payload taken, and that
/// payload base64-decoded.
pub open spec fn signing_cert_der(header: Seq<u8>) -> Option<Seq<u8>> {
    match percent_decoded(escaped_lf_stripped(header)) {
        Some(d) => match pem_payload(d) {
            Some(p) => base64_decoding(p),
            None => None,
        },
        None => None,
    }
}

/// Recover the signing-certificate DER from the raw certificate header
/// value, or `Decode` when any stage of the unwrapping fails.
pub fn extract_signing_cert(header: &[u8]) -> (r: Result<Vec<u8>, RaError>)
    ensures
        r matches Ok(v) ==> signing_cert_der(header@) == Some(v@),
        r matches Err(e) ==> signing_cert_der(header@) is None && e == RaError::Decode,
{
    let stripped = strip_escaped_lf(header);
    let decoded = match percent_decode(stripped.as_slice()) {
        Ok(d) => d,
        Err(e) => {
            return Err(e);
        },
    };
    let payload = match extract_pem_payload(decoded.as_slice()) {
        Ok(p) => p,
        Err(e) => {
            return Err(e);
        },
    };
    base64_decode(payload.as_slice())
}

} // verus!
