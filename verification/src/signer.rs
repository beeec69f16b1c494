//! The request signer: a time-bound authentication signature for a single
//! HTTP request against the secret store.
//!
//! The store dictates the format bit-exactly: the six components are joined
//! by a literal `+` with no escaping, hashed with SHA-1, rendered as
//! lowercase hex, and prefixed with the hash-version tag `$1$`.

use sha1::Digest;
use vstd::prelude::*;

use crate::text::{
    bytes_to_hex_lower, dec_str_of, hex_lower_of, is_lower_hex_char, lemma_hex_lower_chars,
    lemma_hex_lower_len, u64_to_dec,
};

verus! {

/// Shared-secret identity of the calling application. Immutable for the
/// process lifetime; there is deliberately no default value, since an empty
/// credential set signing a real request would be a security hazard.
pub struct Credentials {
    pub app_key: String,
    pub app_secret: String,
    pub consumer_key: String,
}

impl Credentials {
    /// Builds a credential set from its three fields.
    pub fn new(app_key: String, app_secret: String, consumer_key: String) -> (r: Credentials)
        ensures
            r.app_key@ == app_key@,
            r.app_secret@ == app_secret@,
            r.consumer_key@ == consumer_key@,
    {
        Credentials { app_key, app_secret, consumer_key }
    }
}

/// The SHA-1 digest of a byte sequence. The algorithm itself is the sha1
/// crate's business; the library relies only on the digest being a function
/// of the input bytes alone.
pub uninterp spec fn sha1_of(bytes: Seq<u8>) -> Seq<u8>;

/// Relies on sha1::Sha1 through digest::Digest::digest: the SHA-1 digest is
/// a function of the input bytes alone and is always 20 bytes long.
#[verifier::external_body]
fn sha1_digest(data: &[u8]) -> (r: Vec<u8>)
    ensures
        r@ == sha1_of(data@),
        r@.len() == 20,
{
    sha1::Sha1::digest(data).to_vec()
}

/// The string that gets hashed: the six components joined by a literal `+`.
pub open spec fn signed_string(
    app_secret: Seq<char>,
    consumer_key: Seq<char>,
    method: Seq<char>,
    url: Seq<char>,
    body: Seq<char>,
    timestamp: Seq<char>,
) -> Seq<char> {
    app_secret + seq!['+'] + consumer_key + seq!['+'] + method + seq!['+'] + url + seq!['+']
        + body + seq!['+'] + timestamp
}

/// The full signature: `$1$` followed by the lowercase-hex SHA-1 digest of
/// the UTF-8 bytes of the signed string, with the timestamp in decimal.
pub open spec fn signature_of(
    app_secret: Seq<char>,
    consumer_key: Seq<char>,
    method: Seq<char>,
    url: Seq<char>,
    body: Seq<char>,
    timestamp: nat,
) -> Seq<char> {
    seq!['$', '1', '$'] + hex_lower_of(
        sha1_of(
            vstd::utf8::encode_utf8(
                signed_string(
                    app_secret,
                    consumer_key,
                    method,
                    url,
                    body,
                    dec_str_of(timestamp),
                ),
            ),
        ),
    )
}

/// Computes the signature for one request. The body is the raw request
/// payload, the empty string when there is none; the method is its ASCII
/// name, e.g. `GET`. A pure function: it takes only shared references,
/// performs no I/O, and its whole result is fixed by the contract — the
/// `$1$` tag and forty lowercase hex digits.
pub fn sign(creds: &Credentials, method: &str, url: &str, body: &str, timestamp: u64) -> (r:
    String)
    ensures
        r@ == signature_of(
            creds.app_secret@,
            creds.consumer_key@,
            method@,
            url@,
            body@,
            timestamp as nat,
        ),
        r@.len() == 43,
        forall|i: int| 3 <= i < 43 ==> is_lower_hex_char(#[trigger] r@[i]),
{
    let mut clear = String::new();
    clear.append(creds.app_secret.as_str());
    clear.append("+");
    clear.append(creds.consumer_key.as_str());
    clear.append("+");
    clear.append(method);
    clear.append("+");
    clear.append(url);
    clear.append("+");
    clear.append(body);
    clear.append("+");
    let ts = u64_to_dec(timestamp);
    clear.append(ts.as_str());
    proof {
        reveal_strlit("+");
        assert("+"@ =~= seq!['+']);
        assert(clear@ =~= signed_string(
            creds.app_secret@,
            creds.consumer_key@,
            method@,
            url@,
            body@,
            dec_str_of(timestamp as nat),
        ));
    }
    let digest = sha1_digest(clear.as_str().as_bytes());
    let hex = bytes_to_hex_lower(&digest);
    let mut out = String::new();
    out.append("$1$");
    out.append(hex.as_str());
    proof {
        reveal_strlit("$1$");
        assert("$1$"@ =~= seq!['$', '1', '$']);
        lemma_hex_lower_len(digest@);
        lemma_hex_lower_chars(digest@);
        assert(out@.len() == 43);
        assert forall|i: int| 3 <= i < 43 implies is_lower_hex_char(#[trigger] out@[i]) by {
            assert(out@[i] == hex@[i - 3]);
        }
        assert(out@ =~= signature_of(
            creds.app_secret@,
            creds.consumer_key@,
            method@,
            url@,
            body@,
            timestamp as nat,
        ));
    }
    out
}

/// Law: the signed format is exactly `secret+consumer+METHOD+url+body+timestamp`
/// joined by the literal `+`, SHA-1 hashed over its UTF-8 bytes, rendered as
/// lowercase hex and prefixed `$1$` — no normalization, no trimming, no
/// alternate digest.
pub proof fn lemma_signature_format(
    app_secret: Seq<char>,
    consumer_key: Seq<char>,
    method: Seq<char>,
    url: Seq<char>,
    body: Seq<char>,
    timestamp: nat,
)
    ensures
        signature_of(app_secret, consumer_key, method, url, body, timestamp) == "$1$"@
            + hex_lower_of(
            sha1_of(
                vstd::utf8::encode_utf8(
                    app_secret + "+"@ + consumer_key + "+"@ + method + "+"@ + url + "+"@ + body
                        + "+"@ + dec_str_of(timestamp),
                ),
            ),
        ),
{
    reveal_strlit("+");
    reveal_strlit("$1$");
    assert("+"@ =~= seq!['+']);
    assert("$1$"@ =~= seq!['$', '1', '$']);
    assert(app_secret + "+"@ + consumer_key + "+"@ + method + "+"@ + url + "+"@ + body + "+"@
        + dec_str_of(timestamp) =~= signed_string(
        app_secret,
        consumer_key,
        method,
        url,
        body,
        dec_str_of(timestamp),
    ));
}

/// Law: the signature is a pure function of its inputs — two signatures of
/// the same credentials, method, URL, body and timestamp are equal.
pub proof fn lemma_sign_deterministic(
    r1: Seq<char>,
    r2: Seq<char>,
    app_secret: Seq<char>,
    consumer_key: Seq<char>,
    method: Seq<char>,
    url: Seq<char>,
    body: Seq<char>,
    timestamp: nat,
)
    requires
        r1 == signature_of(app_secret, consumer_key, method, url, body, timestamp),
        r2 == signature_of(app_secret, consumer_key, method, url, body, timestamp),
    ensures
        r1 == r2,
{
}

} // verus!
