//! Trusted wrappers around the outside crates the services call: SHA-256,
//! Base64, DEFLATE, percent-encoding, RFC 3339 formatting, UUIDs and random
//! verification codes. Verus believes these contracts; each states only what
//! the crate's source or documentation shows.
use vstd::prelude::*;
use vstd::string::*;
use vstd::utf8::*;

use base64::Engine;
use rand::Rng;
use rand::distributions::Alphanumeric;
use sha2::Digest;
use std::io::Write;

verus! {

/// The SHA-256 digest of a byte sequence.
pub uninterp spec fn spec_sha256(data: Seq<u8>) -> Seq<u8>;

/// The standard (padded) Base64 encoding of a byte sequence.
pub uninterp spec fn spec_base64(data: Seq<u8>) -> Seq<char>;

/// The standard Base64 decoding of a text, `None` where it is not valid.
pub uninterp spec fn spec_base64_decode(text: Seq<char>) -> Option<Seq<u8>>;

/// The raw DEFLATE stream that `flate2` produces at the default level.
pub uninterp spec fn spec_deflate(data: Seq<u8>) -> Seq<u8>;

/// The path `std::path::Path::join` makes of a base directory and a name,
/// as text.
pub uninterp spec fn spec_path_join(base: Seq<char>, name: Seq<char>) -> Seq<char>;

/// `ruma_identifiers_validation::user_id::validate` accepts the text.
pub uninterp spec fn spec_valid_user_id(text: Seq<char>) -> bool;

/// `ruma_identifiers_validation::room_alias_id::validate` accepts the text.
pub uninterp spec fn spec_valid_room_alias(text: Seq<char>) -> bool;

/// `char::is_alphanumeric`: the character is alphabetic or numeric in
/// Unicode's sense.
pub uninterp spec fn spec_char_alphanumeric(c: char) -> bool;

/// The lowercase hexadecimal digit of `n` (below 16).
pub open spec fn hex_digit_lower(n: int) -> char {
    seq!['0', '1', '2', '3', '4', '5', '6', '7', '8', '9', 'a', 'b', 'c', 'd', 'e', 'f'][n]
}

/// How `serde_json` writes a character inside a string literal: quote and
/// backslash escaped by a backslash, backspace, form feed, line feed,
/// carriage return and tab by their short escapes, the other control
/// characters below 0x20 as `\u00` and two lowercase hexadecimal digits,
/// every other character as itself.
pub open spec fn json_escaped_char(c: char) -> Seq<char> {
    if c == '"' {
        seq!['\\', '"']
    } else if c == '\\' {
        seq!['\\', '\\']
    } else if c == '\u{8}' {
        seq!['\\', 'b']
    } else if c == '\u{c}' {
        seq!['\\', 'f']
    } else if c == '\n' {
        seq!['\\', 'n']
    } else if c == '\r' {
        seq!['\\', 'r']
    } else if c == '\t' {
        seq!['\\', 't']
    } else if (c as int) < 0x20 {
        seq!['\\', 'u', '0', '0', hex_digit_lower((c as int) / 16), hex_digit_lower((c as int) % 16)]
    } else {
        seq![c]
    }
}

/// The characters of a text as `serde_json` writes them inside a string
/// literal.
pub open spec fn json_escaped(text: Seq<char>) -> Seq<char>
    decreases text.len(),
{
    if text.len() == 0 {
        Seq::empty()
    } else {
        json_escaped(text.drop_last()) + json_escaped_char(text.last())
    }
}

/// The JSON string literal of a text, as `serde_json` writes it: the
/// escaped characters between double quotes.
pub open spec fn spec_json_string(text: Seq<char>) -> Seq<char> {
    seq!['"'] + json_escaped(text) + seq!['"']
}

/// The unpadded URL-safe Base64 encoding of a byte sequence.
pub uninterp spec fn spec_base64_url(data: Seq<u8>) -> Seq<char>;

/// The text `url::Url::parse` makes of a URL (its serialization), or `None`
/// where the text is no URL.
pub uninterp spec fn spec_parse_url(text: Seq<char>) -> Option<Seq<char>>;

/// The URL `url` with the pairs appended to its query in
/// `application/x-www-form-urlencoded` form, as `url` serializes it.
pub uninterp spec fn spec_url_with_query(url: Seq<char>, pairs: Seq<(Seq<char>, Seq<char>)>) -> Seq<char>;

/// The text of the error `ruma_identifiers_validation::user_id::validate`
/// reports for an invalid user ID.
pub uninterp spec fn spec_user_id_error_text(text: Seq<char>) -> Seq<char>;

/// The text of the error `ruma_identifiers_validation::server_name::validate`
/// reports, `None` for a valid server name.
pub uninterp spec fn spec_server_name_problem(text: Seq<char>) -> Option<Seq<char>>;

/// The RFC 3339 text (seconds precision, UTC) of a time given in seconds
/// since the Unix epoch.
pub uninterp spec fn spec_rfc3339_seconds(secs: u64) -> Seq<char>;

/// `sha2::Sha256`: the 32-byte SHA-256 digest of `data`.
/// The digest is named (`spec_sha256`); only its length is stated.
#[verifier::external_body]
pub(crate) fn sha256(data: &[u8]) -> (r: Vec<u8>)
    ensures
        r@ == spec_sha256(data@),
        r@.len() == 32,
{
    let mut hasher = sha2::Sha256::new();
    hasher.update(data);
    hasher.finalize().to_vec()
}

/// `base64::engine::general_purpose::STANDARD.encode`: the padded standard
/// Base64 text of `data` (named `spec_base64`).
#[verifier::external_body]
pub(crate) fn base64_encode(data: &[u8]) -> (r: String)
    ensures
        r@ == spec_base64(data@),
{
    base64::engine::general_purpose::STANDARD.encode(data)
}

/// `base64::engine::general_purpose::STANDARD.decode`: the bytes that `text`
/// encodes, or `None` where it is not valid standard Base64 (named
/// `spec_base64_decode`).
#[verifier::external_body]
pub(crate) fn base64_decode(text: &str) -> (r: Option<Vec<u8>>)
    ensures
        match r {
            Some(v) => spec_base64_decode(text@) == Some(v@),
            None => spec_base64_decode(text@) is None,
        },
{
    base64::engine::general_purpose::STANDARD.decode(text).ok()
}

/// `String::from_utf8`: the text that `bytes` encode in UTF-8, or `None`
/// where they are not valid UTF-8.
#[verifier::external_body]
pub(crate) fn utf8_to_string(bytes: Vec<u8>) -> (r: Option<String>)
    ensures
        r is Some <==> valid_utf8(bytes@),
        r matches Some(s) ==> s@ == decode_utf8(bytes@),
{
    String::from_utf8(bytes).ok()
}

/// `flate2::write::DeflateEncoder` at `Compression::default()` writing into a
/// vector: the compressed bytes (named `spec_deflate`). The encoder fails
/// only when misused and writing into a vector does not fail, so the bytes
/// are always there.
#[verifier::external_body]
pub(crate) fn deflate(data: &[u8]) -> (r: Option<Vec<u8>>)
    ensures
        r is Some,
        r matches Some(v) ==> v@ == spec_deflate(data@),
{
    let mut encoder = flate2::write::DeflateEncoder::new(Vec::new(), flate2::Compression::default());
    if encoder.write_all(data).is_err() {
        return None;
    }
    encoder.finish().ok()
}

/// A byte that `urlencoding` leaves as it is: ASCII letters and digits and
/// `-`, `.`, `_`, `~`.
pub open spec fn url_safe_byte(b: u8) -> bool {
    (48 <= b <= 57) || (65 <= b <= 90) || (97 <= b <= 122) || b == 45 || b == 46 || b == 95 || b == 126
}

/// The upper-case hexadecimal digit of a value below 16.
pub open spec fn hex_upper_digit(d: u8) -> char {
    if d < 10 { ((48 + d) as u8) as char } else { ((55 + d) as u8) as char }
}

/// Percent-encoding of a byte sequence as `urlencoding` does it: safe bytes
/// unchanged, every other byte as `%` and two upper-case hex digits.
pub open spec fn url_encode_bytes(b: Seq<u8>) -> Seq<char>
    decreases b.len(),
{
    if b.len() == 0 {
        Seq::empty()
    } else {
        let c = b[0];
        let head = if url_safe_byte(c) {
            seq![c as char]
        } else {
            seq!['%', hex_upper_digit(c / 16), hex_upper_digit(c % 16)]
        };
        head + url_encode_bytes(b.drop_first())
    }
}

/// `urlencoding::encode`: percent-encodes every UTF-8 byte of `s` except ASCII
/// letters, digits and `-`, `.`, `_`, `~` (hex digits in upper case), as the
/// crate's documentation and `encode_into` show.
#[verifier::external_body]
pub(crate) fn url_encode(s: &str) -> (r: String)
    ensures
        r@ == url_encode_bytes(encode_utf8(s@)),
{
    urlencoding::encode(s).into_owned()
}

/// `humantime::format_rfc3339_seconds` of the time `secs` seconds after the
/// Unix epoch (named `spec_rfc3339_seconds`). The formatter fails from the
/// year 10000 on, so `secs` stays below that.
#[verifier::external_body]
pub(crate) fn rfc3339_seconds(secs: u64) -> (r: String)
    requires
        secs < 253_402_300_800,
    ensures
        r@ == spec_rfc3339_seconds(secs),
{
    let t = std::time::UNIX_EPOCH + std::time::Duration::from_secs(secs);
    humantime::format_rfc3339_seconds(t).to_string()
}

/// `serde_json::to_string` of a string: its JSON string literal, quoted and
/// escaped as `spec_json_string` states (the escape table and
/// `format_escaped_str` in the crate's `ser.rs`). Serialising a string does
/// not fail.
#[verifier::external_body]
pub(crate) fn json_string(text: &str) -> (r: String)
    ensures
        r@ == spec_json_string(text@),
{
    serde_json::to_string(text).unwrap_or_default()
}

/// A lowercase hexadecimal digit.
pub open spec fn lower_hex_digit(c: char) -> bool {
    ('0' <= c && c <= '9') || ('a' <= c && c <= 'f')
}

/// `uuid::Uuid::new_v4().to_string()`: a random version-4 UUID in its
/// hyphenated lowercase form: 36 characters, hyphens at positions 8, 13,
/// 18 and 23, lowercase hexadecimal digits elsewhere, the version digit `4`
/// at position 14. Which digits the others are is chance.
#[verifier::external_body]
pub(crate) fn new_uuid_v4() -> (r: String)
    ensures
        r@.len() == 36,
        forall|i: int| 0 <= i < 36 ==> if i == 8 || i == 13 || i == 18 || i == 23 {
            #[trigger] r@[i] == '-'
        } else {
            lower_hex_digit(r@[i])
        },
        r@[14] == '4',
{
    uuid::Uuid::new_v4().to_string()
}

/// `std::path::Path::new(base).join(name)` as text (named
/// `spec_path_join`); both parts are UTF-8, so the text is exact. As the
/// documentation says, an absolute `name` (one starting with `/`) replaces
/// the base. How a relative name is adjoined the documentation shows only
/// by example, so it is left to the name.
#[verifier::external_body]
pub(crate) fn path_join(base: &str, name: &str) -> (r: String)
    ensures
        r@ == spec_path_join(base@, name@),
        name@.len() > 0 && name@[0] == '/' ==> r@ == name@,
{
    std::path::Path::new(base).join(name).to_string_lossy().into_owned()
}

/// `ruma_identifiers_validation::user_id::validate`: whether `text` is a
/// valid Matrix user ID (named `spec_valid_user_id`); this is the check
/// `UserId::parse` makes.
#[verifier::external_body]
pub(crate) fn valid_user_id(text: &str) -> (r: bool)
    ensures
        r == spec_valid_user_id(text@),
{
    ruma_identifiers_validation::user_id::validate(text).is_ok()
}

/// `ruma_identifiers_validation::room_alias_id::validate`: whether `text` is
/// a valid room alias (named `spec_valid_room_alias`); this is the check
/// `RoomAliasId::parse` makes.
#[verifier::external_body]
pub(crate) fn valid_room_alias(text: &str) -> (r: bool)
    ensures
        r == spec_valid_room_alias(text@),
{
    ruma_identifiers_validation::room_alias_id::validate(text).is_ok()
}

/// `ruma_identifiers_validation::room_id::validate`: the text is at most
/// 255 bytes long, starts with `!`, and holds no NUL character (the whole
/// check in version 0.14 of the crate, which `RoomId::parse` makes).
#[verifier::external_body]
pub(crate) fn valid_room_id(text: &str) -> (r: bool)
    ensures
        r == (encode_utf8(text@).len() <= 255 && text@.len() > 0 && text@[0] == '!' && !text@.contains('\0')),
{
    ruma_identifiers_validation::room_id::validate(text).is_ok()
}

/// The position of the first `c` in `t` (the length of `t` when it holds
/// none).
pub open spec fn first_index_of(t: Seq<char>, c: char) -> int
    decreases t.len(),
{
    if t.len() == 0 || t[0] == c {
        0
    } else {
        1 + first_index_of(t.drop_first(), c)
    }
}

/// What `ruma_identifiers_validation::event_id::validate` accepts: text
/// that starts with `$`; where it holds a `:`, it is also at most 255 bytes
/// long and the text after its first `:` is a valid server name.
pub open spec fn event_id_valid(t: Seq<char>) -> bool {
    &&& t.len() > 0
    &&& t[0] == '$'
    &&& t.contains(':') ==> {
        &&& encode_utf8(t).len() <= 255
        &&& spec_server_name_problem(t.subrange(first_index_of(t, ':') + 1, t.len() as int)) is None
    }
}

/// `ruma_identifiers_validation::event_id::validate`, the check
/// `EventId::parse` makes: see `event_id_valid`.
#[verifier::external_body]
pub(crate) fn valid_event_id(text: &str) -> (r: bool)
    ensures
        r == event_id_valid(text@),
{
    ruma_identifiers_validation::event_id::validate(text).is_ok()
}

/// The characters of each key and value.
pub open spec fn pair_views(pairs: Seq<(String, String)>) -> Seq<(Seq<char>, Seq<char>)> {
    pairs.map_values(|p: (String, String)| (p.0@, p.1@))
}

/// `base64::engine::general_purpose::URL_SAFE_NO_PAD`: the unpadded
/// URL-safe Base64 text of `data` (named `spec_base64_url`).
#[verifier::external_body]
pub(crate) fn base64_url_encode(data: &[u8]) -> (r: String)
    ensures
        r@ == spec_base64_url(data@),
{
    base64::engine::general_purpose::URL_SAFE_NO_PAD.encode(data)
}

/// `url::Url::parse` and the serialization of the URL parsed (named
/// `spec_parse_url`); `None` when the text is no URL. A serialization parses
/// to itself (`Url::check_invariants` in the crate asserts this).
#[verifier::external_body]
pub(crate) fn parse_url(text: &str) -> (r: Option<String>)
    ensures
        match r {
            Some(u) => spec_parse_url(text@) == Some(u@) && spec_parse_url(u@) == Some(u@),
            None => spec_parse_url(text@) is None,
        },
{
    match url::Url::parse(text) {
        Ok(u) => Some(u.to_string()),
        Err(_) => None,
    }
}

/// `url::Url::query_pairs_mut().extend_pairs(..)`: the URL `url` with the
/// pairs appended to its query (named `spec_url_with_query`). `url` must
/// parse.
#[verifier::external_body]
pub(crate) fn url_with_query(url: &str, pairs: &Vec<(String, String)>) -> (r: String)
    requires
        spec_parse_url(url@) is Some,
    ensures
        r@ == spec_url_with_query(url@, pair_views(pairs@)),
{
    let mut u = url::Url::parse(url).unwrap();
    u.query_pairs_mut().extend_pairs(pairs.iter());
    u.to_string()
}

/// `ruma_identifiers_validation::user_id::validate`, with the text of its
/// error: `None` for a valid user ID (`spec_valid_user_id`), else the
/// error's text (named `spec_user_id_error_text`).
#[verifier::external_body]
pub(crate) fn user_id_problem(text: &str) -> (r: Option<String>)
    ensures
        r is None == spec_valid_user_id(text@),
        r matches Some(m) ==> m@ == spec_user_id_error_text(text@),
{
    match ruma_identifiers_validation::user_id::validate(text) {
        Ok(()) => None,
        Err(e) => Some(e.to_string()),
    }
}

/// `ruma_identifiers_validation::server_name::validate`: `None` for a
/// valid server name, else the text of its error (named
/// `spec_server_name_problem`).
#[verifier::external_body]
pub(crate) fn server_name_problem(text: &str) -> (r: Option<String>)
    ensures
        match r {
            Some(m) => spec_server_name_problem(text@) == Some(m@),
            None => spec_server_name_problem(text@) is None,
        },
{
    match ruma_identifiers_validation::server_name::validate(text) {
        Ok(()) => None,
        Err(e) => Some(e.to_string()),
    }
}

/// `char::is_alphanumeric` (named `spec_char_alphanumeric`); for ASCII
/// characters that is exactly the letters and digits.
#[verifier::external_body]
pub(crate) fn char_is_alphanumeric(c: char) -> (r: bool)
    ensures
        r == spec_char_alphanumeric(c),
        (c as u32) < 128 ==> (r <==> (('a' <= c && c <= 'z') || ('A' <= c && c <= 'Z') || ('0' <= c && c <= '9'))),
{
    c.is_alphanumeric()
}

/// `rand::random::<u32>()`: a random number; nothing is known of it.
#[verifier::external_body]
pub(crate) fn random_u32() -> (r: u32) {
    rand::random::<u32>()
}

/// An ASCII letter or digit.
pub open spec fn ascii_alphanumeric(c: char) -> bool {
    ('a' <= c && c <= 'z') || ('A' <= c && c <= 'Z') || ('0' <= c && c <= '9')
}

/// `len` characters drawn at random from `rand::distributions::Alphanumeric`,
/// whose samples are ASCII letters and digits. Which ones they are is
/// chance: only the length and the alphabet are stated.
#[verifier::external_body]
pub(crate) fn random_alphanumeric(len: usize) -> (r: String)
    ensures
        r@.len() == len,
        forall|i: int| 0 <= i < len ==> ascii_alphanumeric(#[trigger] r@[i]),
{
    rand::thread_rng().sample_iter(&Alphanumeric).take(len).map(char::from).collect()
}

/// `rand::thread_rng().gen_range(100000..999999)`: a random number in the
/// half-open range from 100000 to 999999.
#[verifier::external_body]
pub(crate) fn random_six_digit_code() -> (r: u32)
    ensures
        100000 <= r < 999999,
{
    rand::thread_rng().gen_range(100000..999999)
}

} // verus!
