//! Calls into other crates, and into the few functions of the standard
//! library that the verifier knows nothing of. Each executable function here
//! only makes such a call, and its contract is taken on faith from the
//! documentation and the source of what it calls: nothing in this file is
//! proved.

use crate::bluesky::oauth::KeyType;
use crate::text::opt_text;
use crate::time::Timestamp;
use base64::Engine;
use rand::Rng;
use vstd::prelude::*;

verus! {

/// Appends one character to a string with `String::push`.
///
/// Not proved: that the string afterwards is the string before with `c` at
/// its end.
#[verifier::external_body]
pub(crate) fn push_char(s: &mut String, c: char)
    ensures
        final(s)@ == old(s)@.push(c),
{
    s.push(c)
}

/// A find in a text: what stands before the match, the match, and what
/// stands after it.
pub struct TextMatch {
    pub before: String,
    pub matched: String,
    pub after: String,
}

/// The three texts of a find, if there is one.
pub open spec fn match_view(found: Option<TextMatch>) -> Option<(Seq<char>, Seq<char>, Seq<char>)> {
    match found {
        Some(m) => Some((m.before@, m.matched@, m.after@)),
        None => None,
    }
}

/// The first match of the regular expression `pattern` in `text`, as the
/// text before the match, the match itself and the text after it; `None`
/// where nothing in `text` matches, or `pattern` is no regular expression
/// that the `regex` crate accepts.
pub uninterp spec fn regex_first_match(pattern: Seq<char>, text: Seq<char>) -> Option<
    (Seq<char>, Seq<char>, Seq<char>),
>;

/// Compiles `pattern` with `regex::Regex::new` and searches `text` with
/// `Regex::find`, in one step, so that the outcome can be named by the two
/// texts.
///
/// Not proved: that the outcome depends on the two texts alone, which gives
/// it the name [`regex_first_match`]; and that the three parts of a find,
/// put together again, are the text that was searched.
#[verifier::external_body]
pub(crate) fn find_first(pattern: &str, text: &str) -> (found: Option<TextMatch>)
    ensures
        match_view(found) == regex_first_match(pattern@, text@),
        found matches Some(m) ==> m.before@ + m.matched@ + m.after@ == text@,
{
    let re = match regex::Regex::new(pattern) {
        Ok(re) => re,
        Err(_) => return None,
    };
    match re.find(text) {
        Some(m) => Some(
            TextMatch {
                before: text[..m.start()].to_string(),
                matched: m.as_str().to_string(),
                after: text[m.end()..].to_string(),
            },
        ),
        None => None,
    }
}

/// The instant `secs`, `nanos` written out in UTC after the `strftime`-like
/// `pattern`, as the `chrono` crate does it; `None` where `chrono` cannot
/// hold the instant or refuses the pattern.
pub uninterp spec fn utc_text(secs: i64, nanos: u32, pattern: Seq<char>) -> Option<Seq<char>>;

/// Builds the instant with `chrono::DateTime::from_timestamp` and writes it
/// with `DateTime::format`.
///
/// Not proved: that the outcome depends on the three arguments alone, which
/// gives it the name [`utc_text`].
#[verifier::external_body]
pub(crate) fn format_utc(secs: i64, nanos: u32, pattern: &str) -> (text: Option<String>)
    ensures
        opt_text(text) == utc_text(secs, nanos, pattern@),
{
    let when = match chrono::DateTime::from_timestamp(secs, nanos) {
        Some(when) => when,
        None => return None,
    };
    let mut out = String::new();
    match when.format(pattern).write_to(&mut out) {
        Ok(()) => Some(out),
        Err(_) => None,
    }
}

/// The current instant, read with `chrono::Utc::now`. Nothing is claimed of
/// it. `chrono` stops the program where the system clock stands before 1970.
#[verifier::external_body]
pub(crate) fn utc_now() -> (now: Timestamp) {
    let now = chrono::Utc::now();
    Timestamp { secs: now.timestamp(), nanos: now.timestamp_subsec_nanos() }
}

/// The span of `secs` whole seconds, as `std::time::Duration::from_secs`
/// makes it.
pub uninterp spec fn span_of_secs(secs: u64) -> std::time::Duration;

/// Makes the span of `secs` whole seconds with
/// `std::time::Duration::from_secs`.
///
/// Not proved: that the span depends on the number of seconds alone, which
/// gives it the name [`span_of_secs`].
#[verifier::external_body]
pub(crate) fn duration_from_secs(secs: u64) -> (span: std::time::Duration)
    ensures
        span == span_of_secs(secs),
{
    std::time::Duration::from_secs(secs)
}

/// Whether a byte stands for itself in a percent-encoded text: the ASCII
/// letters and digits, and `-`, `.`, `_`, `~`.
pub open spec fn is_unreserved(b: u8) -> bool {
    ||| (0x30 <= b && b <= 0x39)
    ||| (0x41 <= b && b <= 0x5a)
    ||| (0x61 <= b && b <= 0x7a)
    ||| b == 0x2d
    ||| b == 0x2e
    ||| b == 0x5f
    ||| b == 0x7e
}

/// The upper-case hexadecimal digit for a value below sixteen.
pub open spec fn hex_digit(d: u8) -> char {
    if d < 10 {
        (0x30 + d) as char
    } else {
        (0x37 + d) as char
    }
}

/// One byte, percent-encoded.
pub open spec fn percent_encoded_byte(b: u8) -> Seq<char> {
    if is_unreserved(b) {
        seq![b as char]
    } else {
        seq!['%', hex_digit(b / 16), hex_digit(b % 16)]
    }
}

/// A byte string, percent-encoded byte by byte.
pub open spec fn percent_encoded(bytes: Seq<u8>) -> Seq<char> {
    bytes.flat_map(|b: u8| percent_encoded_byte(b))
}

/// Percent-encodes the UTF-8 bytes of `text` with `urlencoding::encode`.
///
/// Not proved: that every byte but the unreserved ones comes out as `%` and
/// two upper-case hexadecimal digits, and the unreserved ones as themselves.
#[verifier::external_body]
pub(crate) fn percent_encode(text: &str) -> (encoded: String)
    ensures
        encoded@ == percent_encoded(vstd::utf8::encode_utf8(text@)),
{
    urlencoding::encode(text).into_owned()
}

/// The error of `base64` when a text cannot be decoded.
#[verifier::external_type_specification]
#[verifier::external_body]
pub struct ExDecodeError(base64::DecodeError);

/// The error of `atproto_identity` when a key cannot be made or read.
#[verifier::external_type_specification]
#[verifier::external_body]
pub struct ExKeyError(atproto_identity::errors::KeyError);

/// The bytes `data` in base64, with the standard alphabet and padding, as
/// the `base64` crate writes them.
pub uninterp spec fn base64_text(data: Seq<u8>) -> Seq<char>;

/// The bytes that `text` stands for in base64, with the standard alphabet
/// and padding, as the `base64` crate reads them; `None` where it refuses
/// the text.
pub uninterp spec fn base64_bytes(text: Seq<char>) -> Option<Seq<u8>>;

/// Encodes with `base64::engine::general_purpose::STANDARD.encode`, which
/// stops the program where the length of the result does not fit a `usize`.
///
/// Not proved: that the outcome depends on the bytes alone, which gives it
/// the name [`base64_text`].
#[verifier::external_body]
pub(crate) fn base64_encode(data: &Vec<u8>) -> (text: String)
    requires
        data.len() / 3 < usize::MAX / 4,
    ensures
        text@ == base64_text(data@),
{
    base64::engine::general_purpose::STANDARD.encode(data)
}

/// Decodes with `base64::engine::general_purpose::STANDARD.decode`.
///
/// Not proved: that the outcome depends on the text alone, which gives it
/// the name [`base64_bytes`].
#[verifier::external_body]
pub(crate) fn base64_decode(text: &str) -> (decoded: Result<Vec<u8>, base64::DecodeError>)
    ensures
        match decoded {
            Ok(data) => base64_bytes(text@) == Some(data@),
            Err(_) => base64_bytes(text@) is None,
        },
{
    base64::engine::general_purpose::STANDARD.decode(text)
}

/// A number below `bound`, drawn with `rand::Rng::random_range` from the
/// thread's generator, which stops the program on an empty range.
///
/// Not proved: that the number is below `bound`.
#[verifier::external_body]
pub(crate) fn random_below(bound: usize) -> (n: usize)
    requires
        bound > 0,
    ensures
        n < bound,
{
    rand::rng().random_range(0..bound)
}

/// A fresh code verifier and its challenge, made with
/// `atproto_oauth::pkce::generate`. Nothing is claimed of them.
#[verifier::external_body]
pub(crate) fn pkce_pair() -> (pair: (String, String)) {
    atproto_oauth::pkce::generate()
}

/// The bytes of a fresh key of the given kind, made with
/// `atproto_identity::key::generate_key`, which draws from the operating
/// system's generator and stops the program where that fails.
///
/// Not proved: that a key is made exactly for the private kinds, a public
/// kind being refused; and that the key has the length of its kind, which is
/// that of `SecretKey::to_bytes` in `p256` and `k256` (32 bytes) and `p384`
/// (48 bytes), and of `SigningKey::to_bytes` in `ed25519_dalek` (32 bytes).
/// Nothing is claimed of the bytes themselves.
#[verifier::external_body]
pub(crate) fn generate_key_bytes(kind: KeyType) -> (key: Result<
    Vec<u8>,
    atproto_identity::errors::KeyError,
>)
    ensures
        key is Ok <==> kind.is_private(),
        key matches Ok(bytes) ==> bytes@.len() == kind.secret_len(),
{
    let kind = match kind {
        KeyType::P256Private => atproto_identity::key::KeyType::P256Private,
        KeyType::P256Public => atproto_identity::key::KeyType::P256Public,
        KeyType::P384Private => atproto_identity::key::KeyType::P384Private,
        KeyType::P384Public => atproto_identity::key::KeyType::P384Public,
        KeyType::K256Private => atproto_identity::key::KeyType::K256Private,
        KeyType::K256Public => atproto_identity::key::KeyType::K256Public,
        KeyType::Ed25519Private => atproto_identity::key::KeyType::Ed25519Private,
        KeyType::Ed25519Public => atproto_identity::key::KeyType::Ed25519Public,
    };
    match atproto_identity::key::generate_key(kind) {
        Ok(key) => Ok(key.bytes().to_vec()),
        Err(e) => Err(e),
    }
}

} // verus!
