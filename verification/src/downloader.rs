//! The computational parts of obtaining the node binary and the chain
//! specification: the architecture suffix of the published binaries, the
//! download URL of one release, and the well-formedness check that
//! re-serializes the fetched specification. The transfers themselves and
//! the file writes happen outside the library.

use vstd::prelude::*;

use crate::errors::Error;
use crate::text::str_eq;

verus! {

/// The suffix that names a published binary for a host architecture.
/// Binaries exist only for `x86_64` and `aarch64`; any other architecture
/// has no release to download.
pub fn arch_suffix(arch: &str) -> (r: Result<String, Error>)
    ensures
        r is Ok <==> (arch@ == "x86_64"@ || arch@ == "aarch64"@),
        r matches Ok(s) ==> s@ == arch@,
        r is Err ==> r == Err::<String, Error>(Error::ArchitectureUnsupportedError),
{
    if str_eq(arch, "x86_64") || str_eq(arch, "aarch64") {
        Ok(String::from_str(arch))
    } else {
        Err(Error::ArchitectureUnsupportedError)
    }
}

/// The URL of one released node binary on the object store.
pub open spec fn binary_url_of(version: Seq<char>, suffix: Seq<char>) -> Seq<char> {
    "https://allfeat-prod-binaries-releases.s3.eu-west-par.io.cloud.ovh.net/"@ + version
        + "/allfeat-linux-"@ + suffix
}

/// Builds the download URL of the node binary for a version tag or branch
/// name and an architecture suffix.
pub fn binary_download_url(version: &str, suffix: &str) -> (r: String)
    ensures
        r@ == binary_url_of(version@, suffix@),
{
    let mut url = String::new();
    url.append("https://allfeat-prod-binaries-releases.s3.eu-west-par.io.cloud.ovh.net/");
    url.append(version);
    url.append("/allfeat-linux-");
    url.append(suffix);
    proof {
        assert(url@ =~= binary_url_of(version@, suffix@));
    }
    url
}

/// The compact re-serialization of a text that parses as a JSON document,
/// `None` when it does not. A function of the text alone.
pub uninterp spec fn json_reserialized(body: Seq<char>) -> Option<Seq<char>>;

/// Relies on serde_json::from_str::<Value> and Value::to_string: checks
/// that the body is well-formed JSON and re-serializes it compactly, with
/// object keys in the parser's deterministic (sorted) order.
#[verifier::external_body]
pub fn normalize_json(body: &str) -> (r: Option<String>)
    ensures
        r is Some <==> json_reserialized(body@) is Some,
        r matches Some(s) ==> json_reserialized(body@) == Some(s@),
{
    match serde_json::from_str::<serde_json::Value>(body) {
        Ok(v) => Some(v.to_string()),
        Err(_) => None,
    }
}

} // verus!
