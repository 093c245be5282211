//! Calls into `hex`, `sha2`, `serde_json` and std that the storage rules make,
//! each behind a contract of what the called function returns.
use vstd::prelude::*;
use crate::text::all_hex;
use sha2::Digest;

verus! {

/// The lowercase hexadecimal digit for a nibble value below 16.
pub open spec fn hex_digit(v: int) -> char {
    if v < 10 {
        (48 + v) as char
    } else {
        (87 + v) as char
    }
}

/// The value of one hexadecimal digit of either case.
pub open spec fn hex_value(c: char) -> int {
    if '0' <= c && c <= '9' {
        c as int - 48
    } else if 'a' <= c && c <= 'f' {
        c as int - 87
    } else {
        c as int - 55
    }
}

/// Lowercase hexadecimal text of `bytes`: two digits per byte, high nibble first.
pub open spec fn spec_hex_encode(bytes: Seq<u8>) -> Seq<char>
    decreases bytes.len(),
{
    if bytes.len() == 0 {
        Seq::empty()
    } else {
        seq![hex_digit(bytes[0] as int / 16), hex_digit(bytes[0] as int % 16)] + spec_hex_encode(
            bytes.drop_first(),
        )
    }
}

/// The bytes that the hexadecimal text `s` (an even number of digits) stands for.
pub open spec fn spec_hex_decode(s: Seq<char>) -> Seq<u8>
    decreases s.len(),
{
    if s.len() < 2 {
        Seq::empty()
    } else {
        seq![(hex_value(s[0]) * 16 + hex_value(s[1])) as u8] + spec_hex_decode(s.skip(2))
    }
}

/// Lowercase hexadecimal text of `bytes`, as `hex::encode` returns it.
#[verifier::external_body]
pub(crate) fn hex_encode(bytes: &[u8]) -> (s: String)
    ensures
        s@ == spec_hex_encode(bytes@),
{
    hex::encode(bytes)
}

/// The bytes of hexadecimal text, as `hex::decode` returns them: it accepts
/// digits of either case and fails on an odd length or any other character.
#[verifier::external_body]
pub(crate) fn hex_decode(s: &str) -> (r: Option<Vec<u8>>)
    ensures
        r is Some <==> (all_hex(s@) && s@.len() % 2 == 0),
        r matches Some(bytes) ==> bytes@ == spec_hex_decode(s@),
{
    hex::decode(s).ok()
}

/// The SHA-256 digest of a byte sequence.
pub uninterp spec fn sha256(data: Seq<u8>) -> Seq<u8>;

/// `sha2::Sha256::digest` of `data`.
#[verifier::external_body]
pub(crate) fn sha256_digest(data: &[u8]) -> (d: [u8; 32])
    ensures
        d@ == sha256(data@),
{
    sha2::Sha256::digest(data).into()
}

/// The compact text that `serde_json` writes for the JSON value that `text`
/// parses to, or `None` when `text` is not JSON.
pub uninterp spec fn json_reserialized(text: Seq<char>) -> Option<Seq<char>>;

/// Parses `text` as a `serde_json::Value` and writes it back out compactly.
#[verifier::external_body]
pub(crate) fn json_reserialize(text: &str) -> (r: Option<String>)
    ensures
        r is Some <==> json_reserialized(text@) is Some,
        r matches Some(out) ==> json_reserialized(text@) == Some(out@),
{
    serde_json::from_str::<serde_json::Value>(text).ok().map(|value| value.to_string())
}

/// What `char::to_lowercase` yields for a character.
pub uninterp spec fn char_lowercase(c: char) -> Seq<char>;

/// `char::to_lowercase` of `c`, collected: ASCII uppercase letters map to
/// their lowercase letter and other ASCII characters to themselves.
#[verifier::external_body]
pub(crate) fn lowercase_of(c: char) -> (v: Vec<char>)
    ensures
        v@ == char_lowercase(c),
        ('A' <= c && c <= 'Z') ==> v@ == seq![((c as u32) + 32) as char],
        ((c as u32) < 128 && !('A' <= c && c <= 'Z')) ==> v@ == seq![c],
{
    c.to_lowercase().collect()
}

/// Whether `c` has the Unicode `White_Space` property, as `char::is_whitespace` tests.
pub open spec fn is_whitespace(c: char) -> bool {
    let u = c as u32;
    (0x09 <= u && u <= 0x0d) || u == 0x20 || u == 0x85 || u == 0xa0 || u == 0x1680 || (0x2000
        <= u && u <= 0x200a) || u == 0x2028 || u == 0x2029 || u == 0x202f || u == 0x205f || u
        == 0x3000
}

/// Seconds since the Unix epoch from the system clock, or `None` when the
/// clock reads before the epoch.
#[verifier::external_body]
pub(crate) fn system_unix_secs() -> (r: Option<u64>) {
    std::time::SystemTime::now()
        .duration_since(std::time::UNIX_EPOCH)
        .ok()
        .map(|duration| duration.as_secs())
}

/// Sixteen bytes from `rand_core::OsRng::try_fill_bytes`; `None` when the
/// operating system's random source fails. Nothing is promised of the bytes.
#[verifier::external_body]
pub(crate) fn os_random16() -> (r: Option<[u8; 16]>) {
    let mut bytes = [0u8; 16];
    match rand_core::RngCore::try_fill_bytes(&mut rand_core::OsRng, &mut bytes) {
        Ok(()) => Some(bytes),
        Err(_) => None,
    }
}

/// Thirty-two bytes from `rand_core::OsRng::try_fill_bytes`; `None` when the
/// operating system's random source fails. Nothing is promised of the bytes.
#[verifier::external_body]
pub(crate) fn os_random32() -> (r: Option<[u8; 32]>) {
    let mut bytes = [0u8; 32];
    match rand_core::RngCore::try_fill_bytes(&mut rand_core::OsRng, &mut bytes) {
        Ok(()) => Some(bytes),
        Err(_) => None,
    }
}

/// The compact JSON text that `serde_json` writes for an array of strings.
pub uninterp spec fn json_string_array_text(items: Seq<Seq<char>>) -> Seq<char>;

/// `serde_json::to_string` of a list of strings; the empty string should it
/// fail, which it does not for strings.
#[verifier::external_body]
pub(crate) fn json_string_array(items: &[String]) -> (s: String)
    ensures
        s@ == json_string_array_text(crate::text::views(items@)),
{
    serde_json::to_string(items).unwrap_or_default()
}

/// The strings of `text` when `serde_json` parses it as a JSON array of
/// strings; `None` when it is not one.
pub uninterp spec fn json_string_array_parsed(text: Seq<char>) -> Option<Seq<Seq<char>>>;

/// `serde_json::from_str::<Vec<String>>` of `text`, `None` on error.
#[verifier::external_body]
pub(crate) fn parse_json_string_array(text: &str) -> (r: Option<Vec<String>>)
    ensures
        r is Some <==> json_string_array_parsed(text@) is Some,
        r matches Some(v) ==> json_string_array_parsed(text@) == Some(crate::text::views(v@)),
{
    serde_json::from_str::<Vec<String>>(text).ok()
}

} // verus!
