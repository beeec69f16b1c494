//! Verified text utilities: string equality, lowercase-hex rendering of
//! bytes, decimal rendering and parsing of unsigned integers, and ASCII
//! whitespace trimming. These are the building blocks of the request signer
//! and of the server-time parser.

use vstd::prelude::*;

verus! {

/// Compares two string slices by their character sequences.
pub fn str_eq(a: &str, b: &str) -> (r: bool)
    ensures
        r == (a@ == b@),
{
    let alen = a.unicode_len();
    let blen = b.unicode_len();
    if alen != blen {
        return false;
    }
    let mut i: usize = 0;
    while i < alen
        invariant
            alen == a@.len(),
            alen == b@.len(),
            i <= alen,
            forall|j: int| 0 <= j < i ==> a@[j] == b@[j],
        decreases alen - i,
    {
        if a.get_char(i) != b.get_char(i) {
            return false;
        }
        i = i + 1;
    }
    proof {
        assert(a@ =~= b@);
    }
    true
}

/// The lowercase hexadecimal digit for a value below 16.
pub open spec fn hex_lower_char(d: nat) -> char {
    if d == 0 {
        '0'
    } else if d == 1 {
        '1'
    } else if d == 2 {
        '2'
    } else if d == 3 {
        '3'
    } else if d == 4 {
        '4'
    } else if d == 5 {
        '5'
    } else if d == 6 {
        '6'
    } else if d == 7 {
        '7'
    } else if d == 8 {
        '8'
    } else if d == 9 {
        '9'
    } else if d == 10 {
        'a'
    } else if d == 11 {
        'b'
    } else if d == 12 {
        'c'
    } else if d == 13 {
        'd'
    } else if d == 14 {
        'e'
    } else {
        'f'
    }
}

/// Two lowercase hexadecimal digits for each byte, in order.
pub open spec fn hex_lower_of(bytes: Seq<u8>) -> Seq<char>
    decreases bytes.len(),
{
    if bytes.len() == 0 {
        Seq::empty()
    } else {
        seq![
            hex_lower_char((bytes[0] / 16) as nat),
            hex_lower_char((bytes[0] % 16) as nat),
        ] + hex_lower_of(bytes.drop_first())
    }
}

proof fn lemma_hex_lower_snoc(bytes: Seq<u8>, b: u8)
    ensures
        hex_lower_of(bytes.push(b)) == hex_lower_of(bytes) + seq![
            hex_lower_char((b / 16) as nat),
            hex_lower_char((b % 16) as nat),
        ],
    decreases bytes.len(),
{
    if bytes.len() == 0 {
        assert(bytes.push(b).len() == 1);
        assert(bytes.push(b)[0] == b);
        assert(bytes.push(b).drop_first() =~= Seq::<u8>::empty());
        assert(hex_lower_of(bytes.push(b).drop_first()) =~= Seq::<char>::empty());
        assert(hex_lower_of(bytes) =~= Seq::<char>::empty());
        assert(hex_lower_of(bytes.push(b)) =~= hex_lower_of(bytes) + seq![
            hex_lower_char((b / 16) as nat),
            hex_lower_char((b % 16) as nat),
        ]);
    } else {
        assert(bytes.push(b).drop_first() =~= bytes.drop_first().push(b));
        lemma_hex_lower_snoc(bytes.drop_first(), b);
        assert(hex_lower_of(bytes.push(b)) =~= hex_lower_of(bytes) + seq![
            hex_lower_char((b / 16) as nat),
            hex_lower_char((b % 16) as nat),
        ]);
    }
}

/// A lowercase hexadecimal digit character.
pub open spec fn is_lower_hex_char(c: char) -> bool {
    ('0' <= c <= '9') || ('a' <= c <= 'f')
}

/// Law: the hexadecimal rendering has two digits for each byte.
pub proof fn lemma_hex_lower_len(bytes: Seq<u8>)
    ensures
        hex_lower_of(bytes).len() == 2 * bytes.len(),
    decreases bytes.len(),
{
    if bytes.len() > 0 {
        lemma_hex_lower_len(bytes.drop_first());
    }
}

/// Law: every character of the hexadecimal rendering is a lowercase
/// hexadecimal digit.
pub proof fn lemma_hex_lower_chars(bytes: Seq<u8>)
    ensures
        forall|i: int|
            0 <= i < hex_lower_of(bytes).len() ==> is_lower_hex_char(
                #[trigger] hex_lower_of(bytes)[i],
            ),
    decreases bytes.len(),
{
    if bytes.len() > 0 {
        lemma_hex_lower_chars(bytes.drop_first());
        let s = hex_lower_of(bytes);
        let tail = hex_lower_of(bytes.drop_first());
        assert(is_lower_hex_char(hex_lower_char((bytes[0] / 16) as nat)));
        assert(is_lower_hex_char(hex_lower_char((bytes[0] % 16) as nat)));
        assert forall|i: int| 0 <= i < s.len() implies is_lower_hex_char(#[trigger] s[i]) by {
            if i >= 2 {
                assert(s[i] == tail[i - 2]);
            }
        }
    }
}

/// The one-character string for a hexadecimal digit value.
fn hex_char_str(d: u8) -> (r: &'static str)
    requires
        d < 16,
    ensures
        r@ == seq![hex_lower_char(d as nat)],
{
    proof {
        reveal_strlit("0");
        reveal_strlit("1");
        reveal_strlit("2");
        reveal_strlit("3");
        reveal_strlit("4");
        reveal_strlit("5");
        reveal_strlit("6");
        reveal_strlit("7");
        reveal_strlit("8");
        reveal_strlit("9");
        reveal_strlit("a");
        reveal_strlit("b");
        reveal_strlit("c");
        reveal_strlit("d");
        reveal_strlit("e");
        reveal_strlit("f");
    }
    match d {
        0 => "0",
        1 => "1",
        2 => "2",
        3 => "3",
        4 => "4",
        5 => "5",
        6 => "6",
        7 => "7",
        8 => "8",
        9 => "9",
        10 => "a",
        11 => "b",
        12 => "c",
        13 => "d",
        14 => "e",
        _ => "f",
    }
}

/// Renders bytes as lowercase hexadecimal, two digits per byte.
pub fn bytes_to_hex_lower(bytes: &Vec<u8>) -> (r: String)
    ensures
        r@ == hex_lower_of(bytes@),
{
    let mut out = String::new();
    let mut i: usize = 0;
    while i < bytes.len()
        invariant
            i <= bytes@.len(),
            out@ == hex_lower_of(bytes@.subrange(0, i as int)),
        decreases bytes@.len() - i,
    {
        let b = bytes[i];
        out.append(hex_char_str(b / 16));
        out.append(hex_char_str(b % 16));
        proof {
            lemma_hex_lower_snoc(bytes@.subrange(0, i as int), b);
            assert(bytes@.subrange(0, i as int).push(b) =~= bytes@.subrange(0, i + 1 as int));
            assert(out@ =~= hex_lower_of(bytes@.subrange(0, i + 1 as int)));
        }
        i = i + 1;
    }
    proof {
        assert(bytes@.subrange(0, bytes@.len() as int) =~= bytes@);
    }
    out
}

/// The decimal rendering of a natural number, most significant digit first,
/// with no leading zeros (a single `0` for zero).
pub open spec fn dec_str_of(n: nat) -> Seq<char>
    decreases n,
{
    if n < 10 {
        seq![hex_lower_char(n)]
    } else {
        dec_str_of(n / 10) + seq![hex_lower_char(n % 10)]
    }
}

/// Every character is a decimal digit.
pub open spec fn is_dec_digits(s: Seq<char>) -> bool {
    forall|i: int| 0 <= i < s.len() ==> '0' <= #[trigger] s[i] <= '9'
}

/// The value of a sequence of decimal digits, most significant first.
pub open spec fn dec_val_of(s: Seq<char>) -> nat
    decreases s.len(),
{
    if s.len() == 0 {
        0
    } else {
        dec_val_of(s.drop_last()) * 10 + ((s.last() as int - 48) as nat)
    }
}

/// Renders an unsigned integer in decimal.
pub fn u64_to_dec(n: u64) -> (r: String)
    ensures
        r@ == dec_str_of(n as nat),
    decreases n,
{
    if n < 10 {
        let mut out = String::new();
        out.append(hex_char_str(n as u8));
        proof {
            assert(out@ =~= dec_str_of(n as nat));
        }
        out
    } else {
        let mut out = u64_to_dec(n / 10);
        out.append(hex_char_str((n % 10) as u8));
        proof {
            assert(out@ =~= dec_str_of(n as nat));
        }
        out
    }
}

/// Law: decimal rendering and decimal evaluation agree — the rendering of
/// `n` is a nonempty all-digit string whose value is `n` again.
pub proof fn lemma_dec_round_trip(n: nat)
    ensures
        dec_str_of(n).len() >= 1,
        is_dec_digits(dec_str_of(n)),
        dec_val_of(dec_str_of(n)) == n,
    decreases n,
{
    if n < 10 {
        let s = dec_str_of(n);
        assert(s.drop_last() =~= Seq::<char>::empty());
        assert('0' <= hex_lower_char(n) <= '9');
        assert(hex_lower_char(n) as int == 48 + n);
        assert(dec_val_of(s) == dec_val_of(s.drop_last()) * 10 + ((s.last() as int - 48) as nat));
    } else {
        lemma_dec_round_trip(n / 10);
        let s = dec_str_of(n);
        assert(s == dec_str_of(n / 10) + seq![hex_lower_char(n % 10)]);
        assert(s.drop_last() =~= dec_str_of(n / 10));
        assert(s.last() == hex_lower_char(n % 10));
        assert('0' <= hex_lower_char(n % 10) <= '9');
        assert(dec_val_of(s) == dec_val_of(dec_str_of(n / 10)) * 10 + (n % 10));
        assert(n == 10 * (n / 10) + n % 10) by {
            vstd::arithmetic::div_mod::lemma_fundamental_div_mod(n as int, 10);
        };
        assert(dec_val_of(s) == n);
    }
}

/// Unicode whitespace — the White_Space set that standard string trimming
/// removes from the ends of a server response body.
pub open spec fn is_space(c: char) -> bool {
    ('\u{0009}' <= c <= '\u{000d}') || c == ' ' || c == '\u{0085}' || c == '\u{00a0}'
        || c == '\u{1680}' || ('\u{2000}' <= c <= '\u{200a}') || c == '\u{2028}' || c == '\u{2029}'
        || c == '\u{202f}' || c == '\u{205f}' || c == '\u{3000}'
}

/// The sequence with its leading whitespace removed.
pub open spec fn spec_trim_start(s: Seq<char>) -> Seq<char>
    decreases s.len(),
{
    if s.len() > 0 && is_space(s[0]) {
        spec_trim_start(s.drop_first())
    } else {
        s
    }
}

/// The sequence with its trailing whitespace removed.
pub open spec fn spec_trim_end(s: Seq<char>) -> Seq<char>
    decreases s.len(),
{
    if s.len() > 0 && is_space(s.last()) {
        spec_trim_end(s.drop_last())
    } else {
        s
    }
}

/// The sequence with whitespace removed from both ends.
pub open spec fn spec_trim(s: Seq<char>) -> Seq<char> {
    spec_trim_end(spec_trim_start(s))
}

proof fn lemma_trim_start_at(s: Seq<char>, lo: int)
    requires
        0 <= lo <= s.len(),
        forall|j: int| 0 <= j < lo ==> is_space(#[trigger] s[j]),
        lo < s.len() ==> !is_space(s[lo]),
    ensures
        spec_trim_start(s) == s.subrange(lo, s.len() as int),
    decreases lo,
{
    if lo == 0 {
        assert(s.subrange(0, s.len() as int) =~= s);
    } else {
        assert(is_space(s[0]));
        lemma_trim_start_at(s.drop_first(), lo - 1);
        assert(s.drop_first().subrange(lo - 1, s.drop_first().len() as int) =~= s.subrange(
            lo,
            s.len() as int,
        ));
    }
}

proof fn lemma_trim_end_at(s: Seq<char>, hi: int)
    requires
        0 <= hi <= s.len(),
        forall|j: int| hi <= j < s.len() ==> is_space(#[trigger] s[j]),
        hi > 0 ==> !is_space(s[hi - 1]),
    ensures
        spec_trim_end(s) == s.subrange(0, hi),
    decreases s.len() - hi,
{
    if hi == s.len() {
        assert(s.subrange(0, s.len() as int) =~= s);
    } else {
        assert(is_space(s.last()));
        lemma_trim_end_at(s.drop_last(), hi);
        assert(s.drop_last().subrange(0, hi) =~= s.subrange(0, hi));
    }
}

/// Returns the bounds of the input with whitespace trimmed from both ends:
/// the slice `s[lo..hi]` is `spec_trim(s@)`.
pub fn trim_bounds(s: &str) -> (r: (usize, usize))
    ensures
        r.0 <= r.1 <= s@.len(),
        s@.subrange(r.0 as int, r.1 as int) == spec_trim(s@),
{
    let len = s.unicode_len();
    let mut lo: usize = 0;
    while lo < len && is_space_char(s.get_char(lo))
        invariant
            lo <= len,
            len == s@.len(),
            forall|j: int| 0 <= j < lo ==> is_space(#[trigger] s@[j]),
        decreases len - lo,
    {
        lo = lo + 1;
    }
    proof {
        lemma_trim_start_at(s@, lo as int);
    }
    if lo == len {
        proof {
            assert(s@.subrange(lo as int, len as int) =~= Seq::<char>::empty());
            assert(spec_trim_end(Seq::<char>::empty()) =~= Seq::<char>::empty());
        }
        return (lo, lo);
    }
    let mut hi: usize = len;
    while hi > lo && is_space_char(s.get_char(hi - 1))
        invariant
            lo <= hi <= len,
            len == s@.len(),
            lo < len,
            !is_space(s@[lo as int]),
            forall|j: int| hi <= j < len ==> is_space(#[trigger] s@[j]),
        decreases hi,
    {
        hi = hi - 1;
    }
    proof {
        assert(hi > lo);
        let t = s@.subrange(lo as int, len as int);
        lemma_trim_end_at(t, hi - lo);
        assert(t.subrange(0, hi - lo) =~= s@.subrange(lo as int, hi as int));
    }
    (lo, hi)
}

/// Tests a character for Unicode whitespace.
pub fn is_space_char(c: char) -> (r: bool)
    ensures
        r == is_space(c),
{
    let u = c as u32;
    (9 <= u && u <= 13) || u == 32 || u == 0x85 || u == 0xa0 || u == 0x1680 || (0x2000 <= u && u
        <= 0x200a) || u == 0x2028 || u == 0x2029 || u == 0x202f || u == 0x205f || u == 0x3000
}

/// Law: a digit string's value only grows when more digits follow — the
/// value of a prefix never exceeds the value of the whole.
pub proof fn lemma_dec_val_prefix_le(s: Seq<char>, i: int)
    requires
        0 <= i <= s.len(),
        is_dec_digits(s),
    ensures
        dec_val_of(s.subrange(0, i)) <= dec_val_of(s),
    decreases s.len() - i,
{
    if i == s.len() {
        assert(s.subrange(0, i) =~= s);
    } else {
        lemma_dec_val_prefix_le(s.subrange(0, s.len() - 1), i);
        assert(s.subrange(0, s.len() - 1).subrange(0, i) =~= s.subrange(0, i));
        assert(s.drop_last() =~= s.subrange(0, s.len() - 1));
        assert('0' <= s.last() <= '9');
        assert(dec_val_of(s) == dec_val_of(s.drop_last()) * 10 + (s.last() as nat - 48));
        assert(dec_val_of(s.drop_last()) <= dec_val_of(s.drop_last()) * 10);
    }
}

} // verus!
