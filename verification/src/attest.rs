use vstd::prelude::*;

verus! {

use vstd::string::StringSliceAdditionalSpecFns;
use vstd::string::StrSliceExecFns;
use crate::crypto::{
    chain_accepted, report_signature_accepted, verify_cert_chain, verify_report_signature,
    now_unix_seconds,
};
use crate::decode::{
    base64_decode, base64_decoding, crlf_stripped, extract_signing_cert, signing_cert_der,
};
use crate::errors::RaError;
use crate::headers::{header_lookup, ResponseHeaders};
use crate::request::{quote_body, AttestationRequest};

/// The PEM of the report-signing root certificate compiled into the
/// library: the sole trust anchor of chain validation, never fetched
/// or refreshed at run time.
pub open spec fn ias_report_ca_pem() -> Seq<u8> {
    ("-----BEGIN CERTIFICATE-----\nMIIDMzCCAhugAwIBAgIUVeNyvUNS4zAP6fD0CpHyDR/0QqIwDQYJKoZIhvcNAQEL\nBQAwITEfMB0GA1UEAwwWUmVwb3J0IFNpZ25pbmcgUm9vdCBDQTAeFw0yMDAxMDEw\nMDAwMDBaFw00MDAxMDEwMDAwMDBaMCExHzAdBgNVBAMMFlJlcG9ydCBTaWduaW5n\nIFJvb3QgQ0EwggEiMA0GCSqGSIb3DQEBAQUAA4IBDwAwggEKAoIBAQCnAjZwL0wQ\noghc6ht//Nb6tyDFsGR5gWzIrnjfbxkB0MZgM1g77Kvoqza4OQJG4yR/Qs5w9sPx\nJEhbF6zPAz2rD7SiCkyxjo5Scz9ycs0qTrtXxJr5GkGRwqoKxDzTEyfc8NvTOIo7\n/9WUQwUelSYftYy1x8GMkKxG7qs3iQ3XxXv6RyiSyxWaT4ib3aKZdDas6HYx68r7\n8yoJCG++UQ0bKDPBpt4zWhcxYoxLZbIT6+RyTSc/hNnJ+nfZaB1VugkL+YpI0aG0\n4AnFliVb7SFQSKF8g0oztdrwdQ5oGSkOxTceOwHYvlgPS2oafiZnQBdhpRIT2znL\n5aLjRhpIHhClAgMBAAGjYzBhMB0GA1UdDgQWBBTXlDq8/W7X4TmOW1J9ZVGRj2bK\nkjAfBgNVHSMEGDAWgBTXlDq8/W7X4TmOW1J9ZVGRj2bKkjAPBgNVHRMBAf8EBTAD\nAQH/MA4GA1UdDwEB/wQEAwIBBjANBgkqhkiG9w0BAQsFAAOCAQEAKC2QSKiW0i3T\nD8YX/xG2hoZkUGNwEOJ3schs8US3q5CK5V85tPc8W2hkxWw3jcqWO4aHPDdRpAUF\n9ufIjhjgToxXt/bXFml/TA+abzMr3iA6qrbW2y8lL6uhT5Z3VG+L6D+Au/HapN8P\n2US6hhdBBK6pdd0WC6cr58EoujCZIE4lCedHuknlw9vaQUUltVEwVu0gJRkdoIz5\nNrjYO8iN6U9KBVWQ+Eb2UL+tuVufjOScEDDEi0RTt5KAP5YjZXvFmLw+YeS+KjK6\nxu71RuJQhgD6cVn5/8wUsCUaVoh9e6bCyVs8EtvyUyTmAciaXsqRTEpQ0tzFPNK6\nZvuzSFUZug==\n-----END CERTIFICATE-----\n").spec_bytes()
}

/// The embedded trust-anchor PEM as bytes.
pub fn ias_report_ca() -> (r: Vec<u8>)
    ensures
        r@ == ias_report_ca_pem(),
{
    ("-----BEGIN CERTIFICATE-----\nMIIDMzCCAhugAwIBAgIUVeNyvUNS4zAP6fD0CpHyDR/0QqIwDQYJKoZIhvcNAQEL\nBQAwITEfMB0GA1UEAwwWUmVwb3J0IFNpZ25pbmcgUm9vdCBDQTAeFw0yMDAxMDEw\nMDAwMDBaFw00MDAxMDEwMDAwMDBaMCExHzAdBgNVBAMMFlJlcG9ydCBTaWduaW5n\nIFJvb3QgQ0EwggEiMA0GCSqGSIb3DQEBAQUAA4IBDwAwggEKAoIBAQCnAjZwL0wQ\noghc6ht//Nb6tyDFsGR5gWzIrnjfbxkB0MZgM1g77Kvoqza4OQJG4yR/Qs5w9sPx\nJEhbF6zPAz2rD7SiCkyxjo5Scz9ycs0qTrtXxJr5GkGRwqoKxDzTEyfc8NvTOIo7\n/9WUQwUelSYftYy1x8GMkKxG7qs3iQ3XxXv6RyiSyxWaT4ib3aKZdDas6HYx68r7\n8yoJCG++UQ0bKDPBpt4zWhcxYoxLZbIT6+RyTSc/hNnJ+nfZaB1VugkL+YpI0aG0\n4AnFliVb7SFQSKF8g0oztdrwdQ5oGSkOxTceOwHYvlgPS2oafiZnQBdhpRIT2znL\n5aLjRhpIHhClAgMBAAGjYzBhMB0GA1UdDgQWBBTXlDq8/W7X4TmOW1J9ZVGRj2bK\nkjAfBgNVHSMEGDAWgBTXlDq8/W7X4TmOW1J9ZVGRj2bKkjAPBgNVHRMBAf8EBTAD\nAQH/MA4GA1UdDwEB/wQEAwIBBjANBgkqhkiG9w0BAQsFAAOCAQEAKC2QSKiW0i3T\nD8YX/xG2hoZkUGNwEOJ3schs8US3q5CK5V85tPc8W2hkxWw3jcqWO4aHPDdRpAUF\n9ufIjhjgToxXt/bXFml/TA+abzMr3iA6qrbW2y8lL6uhT5Z3VG+L6D+Au/HapN8P\n2US6hhdBBK6pdd0WC6cr58EoujCZIE4lCedHuknlw9vaQUUltVEwVu0gJRkdoIz5\nNrjYO8iN6U9KBVWQ+Eb2UL+tuVufjOScEDDEi0RTt5KAP5YjZXvFmLw+YeS+KjK6\nxu71RuJQhgD6cVn5/8wUsCUaVoh9e6bCyVs8EtvyUyTmAciaXsqRTEpQ0tzFPNK6\nZvuzSFUZug==\n-----END CERTIFICATE-----\n").as_bytes_vec()
}

/// Byte length of the PEM delimiter `-----BEGIN CERTIFICATE-----`.
pub const PEM_HEADER_LEN: usize = 27;

/// Byte length of the PEM delimiter `-----END CERTIFICATE-----`.
pub const PEM_FOOTER_LEN: usize = 25;

/// Smallest plausible report-signature size: the output of a 2048-bit
/// RSA key.
pub const REPORT_SIG_MIN_LEN: usize = 256;

/// Largest plausible report-signature size: the output of an 8192-bit
/// RSA key.
pub const REPORT_SIG_MAX_LEN: usize = 1024;

/// A plausible report-signature length: non-empty, and consistent
/// with an RSA key of 2048 to 8192 bits.
pub open spec fn valid_sig_len(n: nat) -> bool {
    REPORT_SIG_MIN_LEN <= n <= REPORT_SIG_MAX_LEN
}

/// The base64 core of a PEM: CR and LF removed, then the fixed-length
/// header and footer delimiters cut off; nothing when the input is too
/// short to hold both.
pub open spec fn pem_core(pem: Seq<u8>) -> Option<Seq<u8>> {
    let flat = crlf_stripped(pem);
    if flat.len() >= PEM_HEADER_LEN + PEM_FOOTER_LEN {
        Some(flat.subrange(PEM_HEADER_LEN as int, flat.len() - PEM_FOOTER_LEN))
    } else {
        None
    }
}

/// The DER a PEM decodes to under the fixed-length delimiter scheme.
pub open spec fn pem_der(pem: Seq<u8>) -> Option<Seq<u8>> {
    match pem_core(pem) {
        Some(c) => base64_decoding(c),
        None => None,
    }
}

/// The DER of the embedded trust anchor.
pub open spec fn embedded_anchor_der() -> Option<Seq<u8>> {
    pem_der(ias_report_ca_pem())
}

/// A signed attestation report: the exact body bytes the authority's
/// signature was computed over, stored untouched.  Re-encoding them
/// before signature verification would invalidate the check.
#[derive(Debug, Clone, Default)]
pub struct Report(Vec<u8>);

impl View for Report {
    type V = Seq<u8>;

    closed spec fn view(&self) -> Seq<u8> {
        self.0@
    }
}

impl Report {
    pub fn new(report: Vec<u8>) -> (r: Self)
        ensures
            r@ == report@,
    {
        Report(report)
    }

    pub fn as_bytes(&self) -> (r: &[u8])
        ensures
            r@ == self@,
    {
        self.0.as_slice()
    }
}

/// The decoded signature the authority computed over the report body.
#[derive(Debug, Clone, Default)]
pub struct ReportSig(Vec<u8>);

impl View for ReportSig {
    type V = Seq<u8>;

    closed spec fn view(&self) -> Seq<u8> {
        self.0@
    }
}

impl ReportSig {
    /// Decode the base64 signature header value.
    pub fn base64_decode(v: &[u8]) -> (r: Result<Self, RaError>)
        ensures
            r matches Ok(s) ==> base64_decoding(v@) == Some(s@),
            r matches Err(e) ==> base64_decoding(v@) is None && e == RaError::Decode,
    {
        match base64_decode(v) {
            Ok(d) => Ok(ReportSig(d)),
            Err(e) => Err(e),
        }
    }

    pub fn new(report_sig: Vec<u8>) -> (r: Self)
        ensures
            r@ == report_sig@,
    {
        ReportSig(report_sig)
    }

    pub fn as_bytes(&self) -> (r: &[u8])
        ensures
            r@ == self@,
    {
        self.0.as_slice()
    }
}

/// The byte name of the header carrying the base64 report signature.
pub open spec fn sig_header_name() -> Seq<u8> {
    ("X-IASReport-Signature").spec_bytes()
}

/// The byte name of the header carrying the percent-encoded signing
/// certificate chain.
pub open spec fn cert_header_name() -> Seq<u8> {
    ("X-IASReport-Signing-Certificate").spec_bytes()
}

/// Both headers the parser needs are present.
pub open spec fn headers_present(h: Seq<(Seq<u8>, Seq<u8>)>) -> bool {
    header_lookup(h, sig_header_name()) is Some && header_lookup(h, cert_header_name()) is Some
}

/// The response parses: both headers present, the signature header
/// base64-decodes to a signature of plausible length, and the
/// certificate header unwraps to a DER certificate.
pub open spec fn response_parses(h: Seq<(Seq<u8>, Seq<u8>)>) -> bool {
    &&& header_lookup(h, sig_header_name()) matches Some(sv) && (base64_decoding(sv) matches Some(
        s,
    ) && valid_sig_len(s.len()))
    &&& header_lookup(h, cert_header_name()) matches Some(cv) && signing_cert_der(cv) is Some
}

/// A parsed authority response: the untouched report body, the decoded
/// report signature, and the DER of the signing certificate.
#[derive(Debug, Clone)]
pub struct RAResponse {
    pub body: Report,
    pub sig: ReportSig,
    pub cert: Vec<u8>,
}

impl RAResponse {
    /// Parse the raw body and headers of an authority response.
    ///
    /// `Protocol` exactly when a required header is absent; `Decode`
    /// exactly when both are present but the signature or certificate
    /// material does not decode.
    pub fn from_response(body: Vec<u8>, headers: &ResponseHeaders) -> (r: Result<
        RAResponse,
        RaError,
    >)
        ensures
            r is Ok <==> response_parses(headers@),
            r matches Ok(resp) ==> resp.body@ == body@ && Some(resp.sig@) == base64_decoding(
                header_lookup(headers@, sig_header_name()).unwrap(),
            ) && Some(resp.cert@) == signing_cert_der(
                header_lookup(headers@, cert_header_name()).unwrap(),
            ) && valid_sig_len(resp.sig@.len()),
            r matches Err(e) ==> (e == RaError::Protocol || e == RaError::Decode) && (e
                == RaError::Protocol <==> !headers_present(headers@)),
    {
        let sig_hdr = match headers.get(("X-IASReport-Signature").as_bytes()) {
            Some(v) => v,
            None => {
                return Err(RaError::Protocol);
            },
        };
        let cert_hdr = match headers.get(("X-IASReport-Signing-Certificate").as_bytes()) {
            Some(v) => v,
            None => {
                return Err(RaError::Protocol);
            },
        };
        let sig = match ReportSig::base64_decode(sig_hdr.as_slice()) {
            Ok(s) => s,
            Err(e) => {
                return Err(e);
            },
        };
        let sig_len = sig.as_bytes().len();
        if sig_len < REPORT_SIG_MIN_LEN || sig_len > REPORT_SIG_MAX_LEN {
            return Err(RaError::Decode);
        }
        let cert = match extract_signing_cert(cert_hdr.as_slice()) {
            Ok(c) => c,
            Err(e) => {
                return Err(e);
            },
        };
        Ok(RAResponse { body: Report::new(body), sig, cert })
    }

    /// Recover the embedded trust anchor's DER: strip CR and LF from
    /// the compiled-in PEM, cut the fixed-length delimiters, and
    /// base64-decode the remainder.
    pub fn decode_ias_report_ca() -> (r: Result<Vec<u8>, RaError>)
        ensures
            r matches Ok(v) ==> embedded_anchor_der() == Some(v@),
            r matches Err(e) ==> embedded_anchor_der() is None && e == RaError::Decode,
    {
        let pem = ias_report_ca();
        let flat = crate::decode::strip_crlf(pem.as_slice());
        if flat.len() < PEM_HEADER_LEN + PEM_FOOTER_LEN {
            return Err(RaError::Decode);
        }
        let core = vstd::slice::slice_subrange(
            flat.as_slice(),
            PEM_HEADER_LEN,
            flat.len() - PEM_FOOTER_LEN,
        );
        base64_decode(core)
    }

    /// Certificate Verifier at an explicit reference time `now`
    /// (seconds since the Unix epoch): validate the signing
    /// certificate against the embedded anchor, then verify the report
    /// signature over the untouched body bytes.
    ///
    /// `Certificate` exactly when the chain is rejected; `Signature`
    /// exactly when the chain holds but the signature does not verify;
    /// `Decode` only when the embedded anchor PEM itself does not
    /// decode.  No partial trust: the first failure is terminal.
    pub fn verify_sig_cert_at(&self, now: u64) -> (r: Result<(), RaError>)
        ensures
            r matches Ok(_) ==> embedded_anchor_der() matches Some(a) && chain_accepted(
                self.cert@,
                a,
                a,
                now,
            ) && report_signature_accepted(self.cert@, self.body@, self.sig@),
            r matches Err(e) ==> {
                ||| (e == RaError::Decode && embedded_anchor_der() is None)
                ||| (e == RaError::Certificate && (embedded_anchor_der() matches Some(a)
                    && !chain_accepted(self.cert@, a, a, now)))
                ||| (e == RaError::Signature && (embedded_anchor_der() matches Some(a)
                    && chain_accepted(self.cert@, a, a, now) && !report_signature_accepted(
                    self.cert@,
                    self.body@,
                    self.sig@,
                )))
            },
    {
        let anchor = match Self::decode_ias_report_ca() {
            Ok(a) => a,
            Err(e) => {
                return Err(e);
            },
        };
        if !verify_cert_chain(self.cert.as_slice(), anchor.as_slice(), anchor.as_slice(), now) {
            return Err(RaError::Certificate);
        }
        if !verify_report_signature(self.cert.as_slice(), self.body.as_bytes(), self.sig.as_bytes())
        {
            return Err(RaError::Signature);
        }
        Ok(())
    }

    /// Certificate Verifier at the current wall clock.  The clock is
    /// read once; success means the chain was accepted at that reading
    /// and the report signature verifies over the body bytes.
    pub fn verify_sig_cert(&self) -> (r: Result<(), RaError>)
        ensures
            r is Ok ==> (embedded_anchor_der() matches Some(a) && report_signature_accepted(
                self.cert@,
                self.body@,
                self.sig@,
            ) && (exists|t: u64| chain_accepted(self.cert@, a, a, t))),
            r matches Err(e) ==> {
                ||| (e == RaError::Decode && embedded_anchor_der() is None)
                ||| (e == RaError::Certificate && embedded_anchor_der() is Some)
                ||| (e == RaError::Signature && (embedded_anchor_der() matches Some(a)
                    && !report_signature_accepted(self.cert@, self.body@, self.sig@)))
            },
    {
        let now = now_unix_seconds();
        let r = self.verify_sig_cert_at(now);
        proof {
            if r is Ok {
                let a = embedded_anchor_der().unwrap();
                assert(chain_accepted(self.cert@, a, a, now));
            }
        }
        r
    }
}

/// Report Client: builds the signed request and interprets the
/// authority's response.  The single network round-trip stays with the
/// caller, and so does the decision to verify: the raw artifacts can
/// be audited before anything is trusted.
pub struct RAService;

impl RAService {
    /// Build the attestation request for the authority at `host` and
    /// `path`, carrying the subscription key and the base64-encoded
    /// quote.
    pub fn build_request(host: String, path: String, api_key: String, quote: &str) -> (r:
        AttestationRequest)
        requires
            host@.len() > 0,
            api_key@.len() > 0,
            quote@.len() > 0,
        ensures
            r.host == host,
            r.path == path,
            r.api_key == api_key,
            r.body@ == quote_body(quote@),
    {
        AttestationRequest::new(host, path, api_key, quote)
    }

    /// Interpret the response of the round-trip: the report body
    /// exactly as received, and the decoded signature over it.
    pub fn parse_response(body: Vec<u8>, headers: &ResponseHeaders) -> (r: Result<
        (Report, ReportSig),
        RaError,
    >)
        ensures
            r is Ok <==> response_parses(headers@),
            r matches Ok(p) ==> p.0@ == body@ && Some(p.1@) == base64_decoding(
                header_lookup(headers@, sig_header_name()).unwrap(),
            ) && valid_sig_len(p.1@.len()),
            r matches Err(e) ==> (e == RaError::Protocol || e == RaError::Decode) && (e
                == RaError::Protocol <==> !headers_present(headers@)),
    {
        match RAResponse::from_response(body, headers) {
            Ok(resp) => Ok((resp.body, resp.sig)),
            Err(e) => Err(e),
        }
    }
}

} // verus!
