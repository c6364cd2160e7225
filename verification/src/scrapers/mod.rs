use vstd::prelude::*;

use crate::text::text_or;

use crate::text::{opt_str, push_str};
use vstd::utf8::encode_utf8;

pub mod html;
pub mod cards;
pub mod pharmiweb;
pub mod jobs_ch;
pub mod biospace;
pub mod indeed;
pub mod linkedin;
pub mod csl_vifor;
pub mod bayer;
pub mod workday;
pub mod smartrecruiters;
pub mod run;

verus! {

/// The SHA-256 digest of a byte string, as `sha2` computes it.
pub uninterp spec fn sha256(data: Seq<u8>) -> Seq<u8>;

/// Calls `sha2::Sha256::digest`. The digest is a function of the bytes alone,
/// named `sha256`; that it is 32 bytes long is the SHA-256 definition.
#[verifier::external_body]
fn sha256_digest(data: &[u8]) -> (r: Vec<u8>)
    ensures
        r@ == sha256(data@),
        r@.len() == 32,
{
    <sha2::Sha256 as sha2::Digest>::digest(data).to_vec()
}

/// The lowercase hexadecimal digit of a value below 16.
pub open spec fn hex_digit(d: int) -> char {
    seq!['0', '1', '2', '3', '4', '5', '6', '7', '8', '9', 'a', 'b', 'c', 'd', 'e', 'f'][d]
}

/// Each byte as two lowercase hexadecimal digits, high nibble first.
pub open spec fn hex_lower(data: Seq<u8>) -> Seq<char>
    decreases data.len(),
{
    if data.len() == 0 {
        Seq::empty()
    } else {
        seq![hex_digit(data[0] as int / 16), hex_digit(data[0] as int % 16)] + hex_lower(data.subrange(1, data.len() as int))
    }
}

/// Calls `hex::encode`, which writes each byte as two lowercase hexadecimal
/// digits, high nibble first (as its documentation states).
#[verifier::external_body]
fn hex_encode(data: &[u8]) -> (r: String)
    ensures
        r@ == hex_lower(data@),
{
    hex::encode(data)
}

/// The id of a job: the first 8 bytes of the SHA-256 of the UTF-8 text
/// `source|url`, in lowercase hexadecimal.
pub open spec fn job_id(source: Seq<char>, url: Seq<char>) -> Seq<char> {
    hex_lower(sha256(encode_utf8(source + seq!['|'] + url)).subrange(0, 8))
}

/// Build a stable job ID from source + url.
pub fn make_id(source: &str, url: &str) -> (r: String)
    ensures
        r@ == job_id(source@, url@),
        r@.len() == 16,
        forall|k: int| 0 <= k < 16 ==> is_hex_char(#[trigger] r@[k]),
{
    let mut input = String::new();
    push_str(&mut input, source);
    push_str(&mut input, "|");
    push_str(&mut input, url);
    proof {
        reveal_strlit("|");
        assert(input@ == source@ + seq!['|'] + url@);
    }
    let bytes = input.as_str().as_bytes();
    let hash = sha256_digest(bytes);
    id_from_digest(hash.as_slice())
}

/// The id for a SHA-256 digest: its first 8 bytes in lowercase hexadecimal
/// (the logic that follows the hashing).
pub fn id_from_digest(digest: &[u8]) -> (r: String)
    requires
        digest@.len() >= 8,
    ensures
        r@ == hex_lower(digest@.subrange(0, 8)),
        r@.len() == 16,
        forall|k: int| 0 <= k < 16 ==> is_hex_char(#[trigger] r@[k]),
{
    let mut prefix: Vec<u8> = Vec::new();
    let mut i: usize = 0;
    while i < 8
        invariant
            i <= 8,
            digest@.len() >= 8,
            prefix@ == digest@.subrange(0, i as int),
        decreases 8 - i,
    {
        prefix.push(digest[i]);
        proof {
            assert(digest@.subrange(0, i + 1) == digest@.subrange(0, i as int).push(digest@[i as int]));
        }
        i = i + 1;
    }
    proof {
        lemma_hex_lower_shape(prefix@);
    }
    hex_encode(prefix.as_slice())
}

proof fn lemma_hex_lower_shape(data: Seq<u8>)
    ensures
        hex_lower(data).len() == 2 * data.len(),
        forall|k: int| 0 <= k < hex_lower(data).len() ==> is_hex_char(#[trigger] hex_lower(data)[k]),
    decreases data.len(),
{
    if data.len() > 0 {
        let rest = data.subrange(1, data.len() as int);
        lemma_hex_lower_shape(rest);
        let head = seq![hex_digit(data[0] as int / 16), hex_digit(data[0] as int % 16)];
        assert(hex_lower(data) == head + hex_lower(rest));
        assert forall|k: int| 0 <= k < hex_lower(data).len() implies is_hex_char(#[trigger] hex_lower(data)[k]) by {
            if k < 2 {
                assert(is_hex_char(head[k]));
            } else {
                assert(hex_lower(data)[k] == hex_lower(rest)[k - 2]);
            }
        }
    }
}

/// A lowercase hexadecimal digit.
pub open spec fn is_hex_char(c: char) -> bool {
    ('0' <= c && c <= '9') || ('a' <= c && c <= 'f')
}

/// A byte that `urlencoding` leaves as it is: ASCII letters and digits and `-._~`.
pub open spec fn is_unreserved(b: u8) -> bool {
    ||| (48 <= b && b <= 57)
    ||| (65 <= b && b <= 90)
    ||| (97 <= b && b <= 122)
    ||| b == 45
    ||| b == 46
    ||| b == 95
    ||| b == 126
}

/// The uppercase hexadecimal digit of a value below 16.
pub open spec fn hex_digit_upper(d: int) -> char {
    seq!['0', '1', '2', '3', '4', '5', '6', '7', '8', '9', 'A', 'B', 'C', 'D', 'E', 'F'][d]
}

/// Percent-encoding of bytes: an unreserved byte stands for itself, any
/// other becomes `%` and two uppercase hexadecimal digits.
pub open spec fn percent_encode(data: Seq<u8>) -> Seq<char>
    decreases data.len(),
{
    if data.len() == 0 {
        Seq::empty()
    } else {
        let b = data[0];
        (if is_unreserved(b) {
            seq![b as char]
        } else {
            seq!['%', hex_digit_upper(b as int / 16), hex_digit_upper(b as int % 16)]
        }) + percent_encode(data.subrange(1, data.len() as int))
    }
}

/// A text as it goes into a URL query: its UTF-8 bytes, percent-encoded.
pub open spec fn url_encoded(s: Seq<char>) -> Seq<char> {
    percent_encode(encode_utf8(s))
}

/// Calls `urlencoding::encode`, which (as its documentation and source state)
/// percent-encodes every byte of the UTF-8 text except ASCII letters, digits
/// and `-`, `_`, `.`, `~`, with uppercase hexadecimal digits.
#[verifier::external_body]
pub(crate) fn url_encode(s: &str) -> (r: String)
    ensures
        r@ == url_encoded(s@),
{
    urlencoding::encode(s).into_owned()
}

/// The text `a + b`.
pub fn concat2(a: &str, b: &str) -> (r: String)
    ensures
        r@ == a@ + b@,
{
    let mut out = String::new();
    push_str(&mut out, a);
    push_str(&mut out, b);
    out
}

/// The text `a + b + c + d`.
pub fn concat4(a: &str, b: &str, c: &str, d: &str) -> (r: String)
    ensures
        r@ == a@ + b@ + c@ + d@,
{
    let mut out = String::new();
    push_str(&mut out, a);
    push_str(&mut out, b);
    push_str(&mut out, c);
    push_str(&mut out, d);
    out
}

/// A search URL `prefix + enc(keyword) + middle + enc(location) + suffix`
/// with both texts percent-encoded.
pub open spec fn query_url(prefix: Seq<char>, keyword: Seq<char>, middle: Seq<char>, location: Seq<char>, suffix: Seq<char>) -> Seq<char> {
    prefix + url_encoded(keyword) + middle + url_encoded(location) + suffix
}

/// Builds `prefix + enc(keyword) + middle + enc(location) + suffix`.
pub fn build_query_url(prefix: &str, keyword: &str, middle: &str, location: &str, suffix: &str) -> (r: String)
    ensures
        r@ == query_url(prefix@, keyword@, middle@, location@, suffix@),
{
    let k = url_encode(keyword);
    let l = url_encode(location);
    let mut out = concat4(prefix, k.as_str(), middle, l.as_str());
    push_str(&mut out, suffix);
    out
}

/// The location given, or `default` where none is.
pub fn pick_location(location: Option<&str>, default: &str) -> (r: String)
    ensures
        r@ == text_or(opt_str(location), default@),
{
    match location {
        Some(l) => String::from_str(l),
        None => String::from_str(default),
    }
}

/// A character that may stand in a URL query as it is: an ASCII letter or
/// digit, `-`, `.`, `_`, `~`, or the `%` of an escape.
pub open spec fn url_safe(c: char) -> bool {
    ('0' <= c && c <= '9') || ('A' <= c && c <= 'Z') || ('a' <= c && c <= 'z') || c == '-' || c == '.' || c == '_'
        || c == '~' || c == '%'
}

/// Percent-encoded bytes hold only URL-safe characters.
proof fn lemma_percent_encode_safe(data: Seq<u8>)
    ensures
        forall|k: int| 0 <= k < percent_encode(data).len() ==> url_safe(#[trigger] percent_encode(data)[k]),
    decreases data.len(),
{
    if data.len() > 0 {
        let rest = data.subrange(1, data.len() as int);
        lemma_percent_encode_safe(rest);
        let b = data[0];
        let head = if is_unreserved(b) {
            seq![b as char]
        } else {
            seq!['%', hex_digit_upper(b as int / 16), hex_digit_upper(b as int % 16)]
        };
        assert(percent_encode(data) == head + percent_encode(rest));
        assert forall|k: int| 0 <= k < percent_encode(data).len() implies url_safe(#[trigger] percent_encode(data)[k]) by {
            if k < head.len() {
                if is_unreserved(b) {
                    assert(head[k] == b as char);
                } else {
                    assert(url_safe(head[k]));
                }
            } else {
                assert(percent_encode(data)[k] == percent_encode(rest)[k - head.len()]);
            }
        }
    }
}

/// Whatever the keyword or location, its encoded form holds only URL-safe
/// characters: no space, `&`, `=`, `?` or `#` can end up in a search URL
/// from it.
pub proof fn law_url_encoded_is_url_safe(s: Seq<char>)
    ensures
        forall|k: int| 0 <= k < url_encoded(s).len() ==> url_safe(#[trigger] url_encoded(s)[k]),
{
    lemma_percent_encode_safe(encode_utf8(s));
}

} // verus!
