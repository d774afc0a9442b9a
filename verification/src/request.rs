use vstd::prelude::*;

verus! {

use vstd::string::StringSliceAdditionalSpecFns;
use vstd::string::StringExecFns;
use vstd::utf8::encode_utf8;

/// The character for decimal digit `d`.
pub open spec fn dec_digit_char(d: int) -> char {
    if d == 0 {
        '0'
    } else if d == 1 {
        '1'
    } else if d == 2 {
        '2'
    } else if d == 3 {
        '3'
    } else if d == 4 {
        '4'
    } else if d == 5 {
        '5'
    } else if d == 6 {
        '6'
    } else if d == 7 {
        '7'
    } else if d == 8 {
        '8'
    } else {
        '9'
    }
}

/// The decimal digits of `n`, most significant first.
pub open spec fn dec_digits(n: int) -> Seq<char>
    decreases n,
{
    if n < 10 {
        seq![dec_digit_char(n)]
    } else {
        dec_digits(n / 10) + seq![dec_digit_char(n % 10)]
    }
}

/// The decimal digits of `n` as ASCII bytes, most significant first.
pub open spec fn dec_digits_bytes(n: int) -> Seq<u8>
    decreases n,
{
    if n < 10 {
        seq![(48 + n) as u8]
    } else {
        dec_digits_bytes(n / 10) + seq![(48 + n % 10) as u8]
    }
}

fn dec_digit_str(d: u64) -> (r: &'static str)
    requires
        d < 10,
    ensures
        r@ == seq![dec_digit_char(d as int)],
{
    proof {
        reveal_strlit("0");
        reveal_strlit("1");
        reveal_strlit("2");
        reveal_strlit("3");
        reveal_strlit("4");
        reveal_strlit("5");
        reveal_strlit("6");
        reveal_strlit("7");
        reveal_strlit("8");
        reveal_strlit("9");
    }
    let r: &'static str = if d == 0 {
        "0"
    } else if d == 1 {
        "1"
    } else if d == 2 {
        "2"
    } else if d == 3 {
        "3"
    } else if d == 4 {
        "4"
    } else if d == 5 {
        "5"
    } else if d == 6 {
        "6"
    } else if d == 7 {
        "7"
    } else if d == 8 {
        "8"
    } else {
        "9"
    };
    proof {
        assert(r@ =~= seq![dec_digit_char(d as int)]);
    }
    r
}

/// Render `n` in decimal.
pub fn dec_str(n: u64) -> (s: String)
    ensures
        s@ == dec_digits(n as int),
    decreases n,
{
    if n < 10 {
        String::from_str(dec_digit_str(n))
    } else {
        let mut s = dec_str(n / 10);
        s.append(dec_digit_str(n % 10));
        s
    }
}

/// Render `n` in decimal, as ASCII bytes.
pub fn dec_bytes(n: u64) -> (v: Vec<u8>)
    ensures
        v@ == dec_digits_bytes(n as int),
    decreases n,
{
    if n < 10 {
        let mut v: Vec<u8> = Vec::new();
        v.push(48 + (n as u8));
        proof {
            assert(v@ =~= dec_digits_bytes(n as int));
        }
        v
    } else {
        let mut v = dec_bytes(n / 10);
        v.push(48 + ((n % 10) as u8));
        proof {
            assert(v@ =~= dec_digits_bytes(n as int));
        }
        v
    }
}

/// The exact request body embedding the base64 quote `q`: a one-field
/// JSON object followed by a literal CRLF.
pub open spec fn quote_body(q: Seq<char>) -> Seq<char> {
    ("{\"isvEnclaveQuote\":\"")@ + q + ("\"}\r\n")@
}

/// Build the request body for the base64 quote.
pub fn build_quote_body(quote: &str) -> (body: String)
    ensures
        body@ == quote_body(quote@),
{
    let mut body = String::from_str("{\"isvEnclaveQuote\":\"");
    body.append(quote);
    body.append("\"}\r\n");
    body
}

/// An attestation request: fixed POST method, target authority and
/// report path, the subscription key, and the JSON body embedding the
/// quote.  Immutable once built; built fresh for every attempt.
pub struct AttestationRequest {
    pub host: String,
    pub path: String,
    pub api_key: String,
    pub body: String,
}

/// The request serialized for the wire: request line, `HOST`, the
/// subscription-key header, connection policy, content headers with
/// the exact byte length of the body, a blank line, then the body.
pub open spec fn wire_of(r: AttestationRequest) -> Seq<u8> {
    ("POST ").spec_bytes() + encode_utf8(r.path@) + (" HTTP/1.1\r\nHOST: ").spec_bytes()
        + encode_utf8(r.host@) + ("\r\nOcp-Apim-Subscription-Key: ").spec_bytes() + encode_utf8(
        r.api_key@,
    ) + ("\r\nConnection: close\r\nContent-Type: application/json\r\nContent-Length: ").spec_bytes()
        + dec_digits_bytes(encode_utf8(r.body@).len() as int) + ("\r\n\r\n").spec_bytes()
        + encode_utf8(r.body@)
}

fn push_bytes(out: &mut Vec<u8>, s: &[u8])
    ensures
        final(out)@ == old(out)@ + s@,
{
    let mut i: usize = 0;
    proof {
        assert(old(out)@ + s@.subrange(0, 0) =~= old(out)@);
    }
    while i < s.len()
        invariant
            0 <= i <= s@.len(),
            out@ == old(out)@ + s@.subrange(0, i as int),
        decreases s.len() - i,
    {
        proof {
            assert(s@.subrange(0, i + 1) =~= s@.subrange(0, i as int).push(s@[i as int]));
            assert(old(out)@ + s@.subrange(0, i + 1) =~= (old(out)@ + s@.subrange(
                0,
                i as int,
            )).push(s@[i as int]));
        }
        out.push(s[i]);
        i = i + 1;
    }
    proof {
        assert(s@.subrange(0, s@.len() as int) =~= s@);
    }
}

impl AttestationRequest {
    /// Build a request.  The protocol asks for a host and non-empty
    /// key and quote.
    pub fn new(host: String, path: String, api_key: String, quote: &str) -> (r: AttestationRequest)
        requires
            host@.len() > 0,
            api_key@.len() > 0,
            quote@.len() > 0,
        ensures
            r.host == host,
            r.path == path,
            r.api_key == api_key,
            r.body@ == quote_body(quote@),
    {
        let body = build_quote_body(quote);
        AttestationRequest { host, path, api_key, body }
    }

    /// The five request headers, in order: `HOST`, the subscription
    /// key, connection policy, content type, and the exact content
    /// length in bytes.
    pub fn header_pairs(&self) -> (hs: Vec<(String, String)>)
        ensures
            hs@.len() == 5,
            hs@[0].0@ == ("HOST")@ && hs@[0].1@ == self.host@,
            hs@[1].0@ == ("Ocp-Apim-Subscription-Key")@ && hs@[1].1@ == self.api_key@,
            hs@[2].0@ == ("Connection")@ && hs@[2].1@ == ("close")@,
            hs@[3].0@ == ("Content-Type")@ && hs@[3].1@ == ("application/json")@,
            hs@[4].0@ == ("Content-Length")@ && hs@[4].1@ == dec_digits(
                encode_utf8(self.body@).len() as int,
            ),
    {
        let mut hs: Vec<(String, String)> = Vec::new();
        hs.push((String::from_str("HOST"), self.host.clone()));
        hs.push((String::from_str("Ocp-Apim-Subscription-Key"), self.api_key.clone()));
        hs.push((String::from_str("Connection"), String::from_str("close")));
        hs.push((String::from_str("Content-Type"), String::from_str("application/json")));
        let bs = self.body.as_str().as_bytes();
        let len: usize = bs.len();
        proof {
            assert(bs@.len() == encode_utf8(self.body@).len());
        }
        hs.push((String::from_str("Content-Length"), dec_str(len as u64)));
        hs
    }

    /// Serialize the request for the wire.
    pub fn wire_bytes(&self) -> (w: Vec<u8>)
        ensures
            w@ == wire_of(*self),
    {
        let mut w: Vec<u8> = Vec::new();
        push_bytes(&mut w, ("POST ").as_bytes());
        push_bytes(&mut w, self.path.as_str().as_bytes());
        push_bytes(&mut w, (" HTTP/1.1\r\nHOST: ").as_bytes());
        push_bytes(&mut w, self.host.as_str().as_bytes());
        push_bytes(&mut w, ("\r\nOcp-Apim-Subscription-Key: ").as_bytes());
        push_bytes(&mut w, self.api_key.as_str().as_bytes());
        push_bytes(
            &mut w,
            ("\r\nConnection: close\r\nContent-Type: application/json\r\nContent-Length: ").as_bytes(),
        );
        let bs = self.body.as_str().as_bytes();
        let len: usize = bs.len();
        proof {
            assert(bs@.len() == encode_utf8(self.body@).len());
        }
        let digits = dec_bytes(len as u64);
        push_bytes(&mut w, digits.as_slice());
        push_bytes(&mut w, ("\r\n\r\n").as_bytes());
        push_bytes(&mut w, self.body.as_str().as_bytes());
        proof {
            assert(w@ =~= wire_of(*self));
        }
        w
    }
}

} // verus!
