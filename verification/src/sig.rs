//! Signature engine: the canonical credential signature that authenticates a
//! request.  The signing input is the `+`-joined concatenation of application
//! secret, consumer key, method, resolved URL, body text and timestamp; the
//! signature is `$1$` followed by the lowercase hex SHA-1 digest of that
//! string's UTF-8 bytes.

use vstd::prelude::*;
use crate::strutil::{hex_str, string_push, to_hex_lower};
use vstd::utf8::encode_utf8;
use vstd::string::StringExecFns;

verus! {

/// The SHA-1 digest of a byte string, as the `sha1` crate computes it.
pub uninterp spec fn sha1_of(data: Seq<u8>) -> Seq<u8>;

/// Relies on the `sha1` crate (RustCrypto): the digest is a pure function of
/// the input bytes and is 20 bytes long.
#[verifier::external_body]
fn sha1_digest(data: &[u8]) -> (r: Vec<u8>)
    ensures
        r@ == sha1_of(data@),
        r@.len() == 20,
{
    let mut hasher = <sha1::Sha1 as sha1::Digest>::new();
    sha1::Digest::update(&mut hasher, data);
    sha1::Digest::finalize(hasher).to_vec()
}

/// The string that gets hashed: secret, consumer key, method, URL, body and
/// timestamp, joined by literal `+` separators, in exactly this order.
pub open spec fn signing_input(
    secret: Seq<char>,
    consumer: Seq<char>,
    method: Seq<char>,
    url: Seq<char>,
    body: Seq<char>,
    timestamp: Seq<char>,
) -> Seq<char> {
    secret + seq!['+'] + consumer + seq!['+'] + method + seq!['+'] + url + seq!['+'] + body
        + seq!['+'] + timestamp
}

/// The full signature string: `$1$` then the lowercase hex SHA-1 of the
/// UTF-8 bytes of the signing input.
pub open spec fn sig_of(
    secret: Seq<char>,
    consumer: Seq<char>,
    method: Seq<char>,
    url: Seq<char>,
    body: Seq<char>,
    timestamp: Seq<char>,
) -> Seq<char> {
    seq!['$', '1', '$'] + hex_str(
        sha1_of(encode_utf8(signing_input(secret, consumer, method, url, body, timestamp))),
    )
}

/// Computes the credential signature for one request.  `query` is the full
/// resolved URL string (including any query string actually sent); `body` is
/// the exact JSON text to be transmitted, or the empty string for a request
/// without a body.
pub fn build_sig(
    method: &str,
    query: &str,
    body: &str,
    timestamp: &str,
    aas: &str,
    ck: &str,
) -> (r: String)
    ensures
        r@ == sig_of(aas@, ck@, method@, query@, body@, timestamp@),
{
    let mut s = String::new();
    s.append(aas);
    string_push(&mut s, '+');
    s.append(ck);
    string_push(&mut s, '+');
    s.append(method);
    string_push(&mut s, '+');
    s.append(query);
    string_push(&mut s, '+');
    s.append(body);
    string_push(&mut s, '+');
    s.append(timestamp);
    assert(s@ =~= signing_input(aas@, ck@, method@, query@, body@, timestamp@));

    let digest = sha1_digest(s.as_str().as_bytes());
    let hex = to_hex_lower(&digest);

    let mut r = String::new();
    string_push(&mut r, '$');
    string_push(&mut r, '1');
    string_push(&mut r, '$');
    r.append(hex.as_str());
    assert(r@ =~= sig_of(aas@, ck@, method@, query@, body@, timestamp@));
    r
}

/// The signature is pure and deterministic: two calls on identical inputs
/// yield identical output.
pub proof fn lemma_sig_deterministic(
    secret1: Seq<char>, consumer1: Seq<char>, method1: Seq<char>,
    url1: Seq<char>, body1: Seq<char>, timestamp1: Seq<char>,
    secret2: Seq<char>, consumer2: Seq<char>, method2: Seq<char>,
    url2: Seq<char>, body2: Seq<char>, timestamp2: Seq<char>,
)
    requires
        secret1 == secret2,
        consumer1 == consumer2,
        method1 == method2,
        url1 == url2,
        body1 == body2,
        timestamp1 == timestamp2,
    ensures
        sig_of(secret1, consumer1, method1, url1, body1, timestamp1)
            == sig_of(secret2, consumer2, method2, url2, body2, timestamp2),
{
}

} // verus!
