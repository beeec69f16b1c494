//! The computational half of the secret-store client: the authentication
//! headers of a signed request, the success check on a response status, the
//! parser of the store's time endpoint, and the parser of the secret
//! envelope. The HTTP transport itself lives outside the library and hands
//! these functions plain strings and status codes.

use vstd::prelude::*;

use crate::errors::Error;
use crate::signer::{signature_of, sign, Credentials};
use crate::text::{
    dec_str_of, dec_val_of, is_dec_digits, lemma_dec_val_prefix_le, spec_trim, trim_bounds,
    u64_to_dec,
};

verus! {

/// The decoded key material of the secret envelope. All fields are
/// sensitive; they are held in memory only for the duration of key
/// injection and never written to disk by this library.
#[derive(Debug)]
pub struct KeyMaterial {
    /// Block-authoring (Aura) key seed.
    pub aura: String,
    /// Finality (Grandpa) key seed.
    pub grandpa: String,
    /// Liveness-heartbeat (ImOnline) key seed.
    pub im_online: String,
    /// Password protecting the local keystore.
    pub keystore_secret: String,
    /// The libp2p node identity key.
    pub node_key: String,
}

/// The string under `doc[k1][k2][k3]` when `doc` parses as a JSON document
/// and that path leads to a string; `None` otherwise. A function of the
/// four texts alone.
pub uninterp spec fn json_path3_str(
    doc: Seq<char>,
    k1: Seq<char>,
    k2: Seq<char>,
    k3: Seq<char>,
) -> Option<Seq<char>>;

/// Relies on serde_json::from_str::<Value>, Value::get and Value::as_str:
/// parses the document and walks the three keys; yields the string found at
/// the end of the path, and nothing when the document does not parse, a key
/// is absent, or the value there is not a string.
#[verifier::external_body]
fn json_nested_str(doc: &str, k1: &str, k2: &str, k3: &str) -> (r: Option<String>)
    ensures
        r is Some <==> json_path3_str(doc@, k1@, k2@, k3@) is Some,
        r matches Some(s) ==> json_path3_str(doc@, k1@, k2@, k3@) == Some(s@),
{
    let v: serde_json::Value = match serde_json::from_str(doc) {
        Ok(v) => v,
        Err(_) => return None,
    };
    match v.get(k1).and_then(|a| a.get(k2)).and_then(|b| b.get(k3)).and_then(|c| c.as_str()) {
        Some(s) => Some(s.to_string()),
        None => None,
    }
}

/// The string at `version.data.<field>` of a secret envelope document.
pub open spec fn envelope_field(body: Seq<char>, field: Seq<char>) -> Option<Seq<char>> {
    json_path3_str(body, "version"@, "data"@, field)
}

/// Deserializes the JSON secret envelope `{ "version": { "data": { ... } } }`
/// into its key material. Fails — it does not silently default — when any
/// of the five fields is missing or is not a string.
pub fn parse_secret_envelope(body: &str) -> (r: Result<KeyMaterial, Error>)
    ensures
        r is Ok <==> (envelope_field(body@, "aura"@) is Some && envelope_field(
            body@,
            "grandpa"@,
        ) is Some && envelope_field(body@, "im_online"@) is Some && envelope_field(
            body@,
            "keystore_secret"@,
        ) is Some && envelope_field(body@, "node_key"@) is Some),
        r matches Ok(km) ==> Some(km.aura@) == envelope_field(body@, "aura"@) && Some(km.grandpa@)
            == envelope_field(body@, "grandpa"@) && Some(km.im_online@) == envelope_field(
            body@,
            "im_online"@,
        ) && Some(km.keystore_secret@) == envelope_field(body@, "keystore_secret"@) && Some(
            km.node_key@,
        ) == envelope_field(body@, "node_key"@),
        r is Err ==> r == Err::<KeyMaterial, Error>(Error::DeserializationError),
{
    let aura = match json_nested_str(body, "version", "data", "aura") {
        Some(s) => s,
        None => {
            return Err(Error::DeserializationError);
        },
    };
    let grandpa = match json_nested_str(body, "version", "data", "grandpa") {
        Some(s) => s,
        None => {
            return Err(Error::DeserializationError);
        },
    };
    let im_online = match json_nested_str(body, "version", "data", "im_online") {
        Some(s) => s,
        None => {
            return Err(Error::DeserializationError);
        },
    };
    let keystore_secret = match json_nested_str(body, "version", "data", "keystore_secret") {
        Some(s) => s,
        None => {
            return Err(Error::DeserializationError);
        },
    };
    let node_key = match json_nested_str(body, "version", "data", "node_key") {
        Some(s) => s,
        None => {
            return Err(Error::DeserializationError);
        },
    };
    Ok(KeyMaterial { aura, grandpa, im_online, keystore_secret, node_key })
}

/// A response status in the success range.
pub open spec fn is_success_status(status: u16) -> bool {
    200 <= status < 300
}

/// Accepts a success status and turns any other into the status error that
/// aborts the run.
pub fn check_status(status: u16) -> (r: Result<(), Error>)
    ensures
        r is Ok <==> is_success_status(status),
        r is Err ==> r == Err::<(), Error>(Error::HttpStatusError(status)),
{
    if 200 <= status && status < 300 {
        Ok(())
    } else {
        Err(Error::HttpStatusError(status))
    }
}

/// The digits of a trimmed time body: an optional single leading `+` sign
/// is accepted, as integer parsing accepts it.
pub open spec fn time_digits(tr: Seq<char>) -> Seq<char> {
    if tr.len() > 0 && tr[0] == '+' {
        tr.drop_first()
    } else {
        tr
    }
}

/// Parses the body of the store's time endpoint: the trimmed body must be a
/// nonempty string of decimal digits, after an optional leading `+`, whose
/// value fits an unsigned 64-bit integer; anything else is a
/// time-synchronisation error.
pub fn parse_server_time(body: &str) -> (r: Result<u64, Error>)
    ensures
        r matches Ok(t) ==> {
            let ds = time_digits(spec_trim(body@));
            ds.len() > 0 && is_dec_digits(ds) && dec_val_of(ds) == t as nat
        },
        r is Err ==> {
            let ds = time_digits(spec_trim(body@));
            r == Err::<u64, Error>(Error::TimeSyncError) && !(ds.len() > 0 && is_dec_digits(ds)
                && dec_val_of(ds) <= u64::MAX)
        },
{
    let bounds = trim_bounds(body);
    let mut lo = bounds.0;
    let hi = bounds.1;
    let ghost tr = spec_trim(body@);
    if lo == hi {
        proof {
            assert(tr.len() == 0);
            assert(time_digits(tr).len() == 0);
        }
        return Err(Error::TimeSyncError);
    }
    if body.get_char(lo) == '+' {
        proof {
            assert(tr[0] == '+');
            assert(time_digits(tr) =~= body@.subrange(lo + 1, hi as int));
        }
        lo = lo + 1;
    } else {
        proof {
            assert(tr[0] != '+');
            assert(time_digits(tr) =~= body@.subrange(lo as int, hi as int));
        }
    }
    let ghost ds = time_digits(spec_trim(body@));
    if lo == hi {
        proof {
            assert(ds.len() == 0);
        }
        return Err(Error::TimeSyncError);
    }
    let mut val: u64 = 0;
    let mut i: usize = lo;
    while i < hi
        invariant
            lo <= i <= hi <= body@.len(),
            lo < hi,
            ds == body@.subrange(lo as int, hi as int),
            ds == time_digits(spec_trim(body@)),
            is_dec_digits(ds.subrange(0, i - lo)),
            val as nat == dec_val_of(ds.subrange(0, i - lo)),
        decreases hi - i,
    {
        let c = body.get_char(i);
        proof {
            assert(ds[i - lo] == c);
        }
        let u = c as u32;
        if u < 48 || u > 57 {
            proof {
                assert(!('0' <= c <= '9'));
                assert(!is_dec_digits(ds));
            }
            return Err(Error::TimeSyncError);
        }
        let d = (u - 48) as u64;
        proof {
            assert(ds.subrange(0, i + 1 - lo).drop_last() =~= ds.subrange(0, i - lo));
            assert(ds.subrange(0, i + 1 - lo).last() == c);
            assert(is_dec_digits(ds.subrange(0, i + 1 - lo)));
            assert(dec_val_of(ds.subrange(0, i + 1 - lo)) == dec_val_of(
                ds.subrange(0, i - lo),
            ) * 10 + d);
        }
        let scaled = match val.checked_mul(10) {
            Some(v) => v,
            None => {
                proof {
                    assert(val as nat * 10 + d > u64::MAX);
                    if is_dec_digits(ds) {
                        lemma_dec_val_prefix_le(ds, i + 1 - lo);
                    }
                }
                return Err(Error::TimeSyncError);
            },
        };
        val = match scaled.checked_add(d) {
            Some(v) => v,
            None => {
                proof {
                    assert(val as nat * 10 + d > u64::MAX);
                    if is_dec_digits(ds) {
                        lemma_dec_val_prefix_le(ds, i + 1 - lo);
                    }
                }
                return Err(Error::TimeSyncError);
            },
        };
        i = i + 1;
    }
    proof {
        assert(ds.subrange(0, hi - lo) =~= ds);
    }
    Ok(val)
}

/// The authentication headers of one signed request, in order: application
/// key, timestamp, signature and consumer key, with a content-type header
/// appended only when the request carries a body.
pub fn auth_headers(creds: &Credentials, method: &str, url: &str, body: &str, timestamp: u64) -> (r:
    Vec<(String, String)>)
    ensures
        r@.len() == (if body@.len() == 0 {
            4int
        } else {
            5int
        }),
        r@[0].0@ == "X-Ovh-Application"@ && r@[0].1@ == creds.app_key@,
        r@[1].0@ == "X-Ovh-Timestamp"@ && r@[1].1@ == dec_str_of(timestamp as nat),
        r@[2].0@ == "X-Ovh-Signature"@ && r@[2].1@ == signature_of(
            creds.app_secret@,
            creds.consumer_key@,
            method@,
            url@,
            body@,
            timestamp as nat,
        ),
        r@[3].0@ == "X-Ovh-Consumer"@ && r@[3].1@ == creds.consumer_key@,
        body@.len() > 0 ==> r@[4].0@ == "Content-Type"@ && r@[4].1@
            == "application/json;charset=utf-8"@,
{
    let signature = sign(creds, method, url, body, timestamp);
    let ts = u64_to_dec(timestamp);
    let mut headers: Vec<(String, String)> = Vec::new();
    headers.push((String::from_str("X-Ovh-Application"), creds.app_key.clone()));
    headers.push((String::from_str("X-Ovh-Timestamp"), ts));
    headers.push((String::from_str("X-Ovh-Signature"), signature));
    headers.push((String::from_str("X-Ovh-Consumer"), creds.consumer_key.clone()));
    if !body.is_empty() {
        headers.push((
            String::from_str("Content-Type"),
            String::from_str("application/json;charset=utf-8"),
        ));
    }
    headers
}

} // verus!
