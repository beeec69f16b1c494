//! Percent-encoding of the secret path and construction of the secret-read
//! URL. The logical path is opaque to the transport layer, so reserved
//! characters inside it — `/` above all — must be encoded, and the remote
//! service then receives the whole path as a single segment.

use vstd::prelude::*;

verus! {

/// A byte the encoder leaves as it is: ASCII alphanumerics and `-`, `.`,
/// `_`, `~`.
pub open spec fn is_unreserved_byte(b: u8) -> bool {
    (48 <= b <= 57) || (65 <= b <= 90) || (97 <= b <= 122) || b == 45 || b == 46 || b == 95
        || b == 126
}

/// The uppercase hexadecimal digit for a value below 16.
pub open spec fn hex_upper_char(d: nat) -> char {
    if d == 0 {
        '0'
    } else if d == 1 {
        '1'
    } else if d == 2 {
        '2'
    } else if d == 3 {
        '3'
    } else if d == 4 {
        '4'
    } else if d == 5 {
        '5'
    } else if d == 6 {
        '6'
    } else if d == 7 {
        '7'
    } else if d == 8 {
        '8'
    } else if d == 9 {
        '9'
    } else if d == 10 {
        'A'
    } else if d == 11 {
        'B'
    } else if d == 12 {
        'C'
    } else if d == 13 {
        'D'
    } else if d == 14 {
        'E'
    } else {
        'F'
    }
}

/// What one byte becomes: itself when unreserved, else `%` and two
/// uppercase hexadecimal digits.
pub open spec fn percent_encoded_byte(b: u8) -> Seq<char> {
    if is_unreserved_byte(b) {
        seq![b as char]
    } else {
        seq!['%', hex_upper_char((b / 16) as nat), hex_upper_char((b % 16) as nat)]
    }
}

/// The percent-encoding of a byte sequence, byte by byte in order.
pub open spec fn percent_encode_bytes(bs: Seq<u8>) -> Seq<char>
    decreases bs.len(),
{
    if bs.len() == 0 {
        Seq::empty()
    } else {
        percent_encoded_byte(bs[0]) + percent_encode_bytes(bs.drop_first())
    }
}

/// Relies on urlencoding::encode: every byte of the UTF-8 input except
/// ASCII alphanumerics and `-`, `_`, `.`, `~` is replaced by `%` and two
/// uppercase hexadecimal digits.
#[verifier::external_body]
fn percent_encode(s: &str) -> (r: String)
    ensures
        r@ == percent_encode_bytes(vstd::utf8::encode_utf8(s@)),
{
    urlencoding::encode(s).into_owned()
}

/// The secret-read URL: base, OKMS resource id, the percent-encoded secret
/// path as one segment, and the query flag asking for inline data.
pub open spec fn secret_url_of(
    api_base: Seq<char>,
    okms_id: Seq<char>,
    secret_path: Seq<char>,
) -> Seq<char> {
    api_base + "/okms/resource/"@ + okms_id + "/secret/"@ + percent_encode_bytes(
        vstd::utf8::encode_utf8(secret_path),
    ) + "?includeData=true"@
}

/// Builds the URL of the secret-read endpoint for one secret path.
pub fn secret_url(api_base: &str, okms_id: &str, secret_path: &str) -> (r: String)
    ensures
        r@ == secret_url_of(api_base@, okms_id@, secret_path@),
{
    let mut url = String::new();
    url.append(api_base);
    url.append("/okms/resource/");
    url.append(okms_id);
    url.append("/secret/");
    let encoded = percent_encode(secret_path);
    url.append(encoded.as_str());
    url.append("?includeData=true");
    proof {
        assert(url@ =~= secret_url_of(api_base@, okms_id@, secret_path@));
    }
    url
}

/// Law: the encoded path never contains a path separator — whatever the
/// bytes of the logical path, `/` is encoded away, so the remote service
/// sees the path as one opaque segment.
pub proof fn lemma_encoded_path_has_no_slash(bs: Seq<u8>)
    ensures
        forall|i: int|
            0 <= i < percent_encode_bytes(bs).len() ==> #[trigger] percent_encode_bytes(bs)[i]
                != '/',
    decreases bs.len(),
{
    if bs.len() > 0 {
        lemma_encoded_path_has_no_slash(bs.drop_first());
        let b = bs[0];
        let head = percent_encoded_byte(b);
        assert forall|i: int| 0 <= i < head.len() implies #[trigger] head[i] != '/' by {
            if is_unreserved_byte(b) {
                assert(b != 47);
                assert(b as char != '/');
            } else {
                assert(head[0] == '%');
                assert(head[1] == hex_upper_char((b / 16) as nat));
                assert(head[2] == hex_upper_char((b % 16) as nat));
                assert(hex_upper_char((b / 16) as nat) != '/');
                assert(hex_upper_char((b % 16) as nat) != '/');
            }
        }
        assert(percent_encode_bytes(bs) == head + percent_encode_bytes(bs.drop_first()));
    }
}

/// Law: a slash byte in the logical path is encoded as the three characters
/// `%2F`.
pub proof fn lemma_slash_encodes_to_percent_2f()
    ensures
        percent_encoded_byte(47) == seq!['%', '2', 'F'],
{
    assert(percent_encoded_byte(47) =~= seq!['%', '2', 'F']);
}

} // verus!
