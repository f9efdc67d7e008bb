//! The calls into other crates that the deployment rules rest on.
//!
//! Nothing in this file is proved. Each function hands its arguments to one
//! operation of another crate and gives back plain values; its contract is
//! what the rest of the library takes for granted about that operation.

use rand::Rng;
use sha2::Digest;
use vstd::prelude::*;

use crate::text::hex_digit;

verus! {

/// A file system path, carried as a whole.
#[verifier::external_type_specification]
#[verifier::external_body]
pub struct ExPathBuf(std::path::PathBuf);

/// The error of a text that is no build metadata, carried as a whole.
#[verifier::external_type_specification]
#[verifier::external_body]
pub struct ExSemverError(semver::Error);

/// What `url::Url::parse` makes of a text: the serialization of the URL with
/// its `Debug` form, or the error's message.
pub uninterp spec fn parsed_url(input: Seq<char>) -> Result<(Seq<char>, Seq<char>), Seq<char>>;

/// What `url::Url::join` makes of the URL that `base` parses to and of a
/// reference: the serialization with its `Debug` form, or the error's message.
/// A base that does not parse gives the error of parsing it.
pub uninterp spec fn joined_url(base: Seq<char>, reference: Seq<char>) -> Result<
    (Seq<char>, Seq<char>),
    Seq<char>,
>;

/// What `chrono::DateTime::parse_from_rfc3339` makes of a text: the seconds
/// since the epoch with the nanoseconds into the second, or the error's message.
pub uninterp spec fn rfc3339_instant(text: Seq<char>) -> Result<(i64, u32), Seq<char>>;

/// The SHA-256 digest of some bytes.
pub uninterp spec fn sha256_digest(data: Seq<u8>) -> Seq<u8>;

/// The `Debug` form of a text: in double quotes, with escapes.
pub uninterp spec fn debug_form(text: Seq<char>) -> Seq<char>;

/// The part of a text before its first colon.
pub open spec fn before_colon(text: Seq<char>) -> Seq<char>
    decreases text.len(),
{
    if text.len() == 0 || text[0] == ':' {
        Seq::empty()
    } else {
        seq![text[0]] + before_colon(text.skip(1))
    }
}

/// Whether a character may stand in a build metadata identifier.
pub open spec fn is_identifier_char(c: char) -> bool {
    'a' <= c <= 'z' || 'A' <= c <= 'Z' || '0' <= c <= '9' || c == '-'
}

/// Whether a text is build metadata: empty, or identifiers with a dot between
/// each two of them, no identifier empty.
pub open spec fn is_build_metadata(text: Seq<char>) -> bool {
    &&& forall|i: int|
        0 <= i < text.len() ==> is_identifier_char(#[trigger] text[i]) || (text[i] == '.' && 0 < i
            < text.len() - 1 && text[i - 1] != '.')
}

/// The digit at position `i`, counted from the most significant, of the 32
/// hexadecimal digits of an id.
pub open spec fn nibble(id: u128, i: int) -> int {
    (id as int / vstd::arithmetic::power::pow(16, (31 - i) as nat)) % 16
}

/// The hyphenated form of an id: its 32 lower-case hexadecimal digits in groups
/// of 8, 4, 4, 4 and 12.
pub open spec fn hyphenated(id: u128) -> Seq<char> {
    Seq::new(
        36,
        |i: int|
            if i == 8 || i == 13 || i == 18 || i == 23 {
                '-'
            } else if i < 8 {
                hex_digit(nibble(id, i))
            } else if i < 13 {
                hex_digit(nibble(id, i - 1))
            } else if i < 18 {
                hex_digit(nibble(id, i - 2))
            } else if i < 23 {
                hex_digit(nibble(id, i - 3))
            } else {
                hex_digit(nibble(id, i - 4))
            },
    )
}

/// `url::Url::parse`. A URL comes back as its serialization, its scheme and its
/// `Debug` form; the scheme is what stands before the serialization's first
/// colon. An error comes back as its message.
#[verifier::external_body]
pub(crate) fn url_parse(input: &str) -> (parsed: Result<(String, String, String), String>)
    ensures
        match parsed {
            Ok(url) => parsed_url(input@) == Ok::<(Seq<char>, Seq<char>), Seq<char>>(
                (url.0@, url.2@),
            ) && url.1@ == before_colon(url.0@),
            Err(message) => parsed_url(input@) == Err::<(Seq<char>, Seq<char>), Seq<char>>(
                message@,
            ),
        },
{
    match url::Url::parse(input) {
        Ok(url) => Ok((url.as_str().to_owned(), url.scheme().to_owned(), format!("{:?}", url))),
        Err(error) => Err(error.to_string()),
    }
}

/// `url::Url::join`, on the URL that `base` parses to. The result comes back as
/// from `url_parse`.
#[verifier::external_body]
pub(crate) fn url_join(base: &str, reference: &str) -> (joined: Result<
    (String, String, String),
    String,
>)
    ensures
        match joined {
            Ok(url) => joined_url(base@, reference@) == Ok::<(Seq<char>, Seq<char>), Seq<char>>(
                (url.0@, url.2@),
            ) && url.1@ == before_colon(url.0@),
            Err(message) => joined_url(base@, reference@) == Err::<
                (Seq<char>, Seq<char>),
                Seq<char>,
            >(message@),
        },
{
    let joined = match url::Url::parse(base) {
        Ok(url) => url.join(reference),
        Err(error) => Err(error),
    };
    match joined {
        Ok(url) => Ok((url.as_str().to_owned(), url.scheme().to_owned(), format!("{:?}", url))),
        Err(error) => Err(error.to_string()),
    }
}

/// `chrono::DateTime::parse_from_rfc3339`. A time comes back as its whole
/// seconds since the epoch and its nanoseconds into the second, an error as its
/// message.
#[verifier::external_body]
pub(crate) fn parse_rfc3339(text: &str) -> (parsed: Result<(i64, u32), String>)
    ensures
        match parsed {
            Ok(time) => rfc3339_instant(text@) == Ok::<(i64, u32), Seq<char>>(time),
            Err(message) => rfc3339_instant(text@) == Err::<(i64, u32), Seq<char>>(message@),
        },
{
    match chrono::DateTime::parse_from_rfc3339(text) {
        Ok(time) => Ok((time.timestamp(), time.timestamp_subsec_nanos())),
        Err(error) => Err(error.to_string()),
    }
}

/// `chrono::Utc::now`: whole seconds since the epoch and nanoseconds into the
/// second. Which time it is depends on the clock, so nothing is said of it.
#[verifier::external_body]
pub(crate) fn utc_now() -> (now: (i64, u32)) {
    let now = chrono::Utc::now();
    (now.timestamp(), now.timestamp_subsec_nanos())
}

/// Four bytes from `rand::thread_rng`. They are drawn at random, so nothing is
/// said of them.
#[verifier::external_body]
pub(crate) fn random_bytes() -> (bytes: [u8; 4]) {
    rand::thread_rng().gen()
}

/// `semver::BuildMetadata::new`. It takes a text that is build metadata, and
/// holds it unchanged; any other text is an error. On a 32-bit machine it panics
/// on a text about as long as the longest that memory can hold, so such a text
/// is left out.
#[verifier::external_body]
pub(crate) fn build_metadata(text: &str) -> (parsed: Result<String, semver::Error>)
    requires
        text@.len() <= 0x7fff_fff0,
    ensures
        parsed is Ok <==> is_build_metadata(text@),
        parsed matches Ok(held) ==> held@ == text@,
{
    Ok(semver::BuildMetadata::new(text)?.as_str().to_owned())
}

/// `sha2::Sha256::digest`: 32 bytes that depend on the data alone.
#[verifier::external_body]
pub(crate) fn sha256(data: &[u8]) -> (digest: Vec<u8>)
    ensures
        digest@ == sha256_digest(data@),
        digest@.len() == 32,
{
    sha2::Sha256::digest(data).to_vec()
}

/// The `Display` form of `uuid::Uuid`: the hyphenated digits of the id.
#[verifier::external_body]
pub(crate) fn uuid_text(id: u128) -> (text: String)
    ensures
        text@ == hyphenated(id),
{
    uuid::Uuid::from_u128(id).to_string()
}

/// The `Debug` form of a text, as std writes it.
#[verifier::external_body]
pub(crate) fn debug_text(text: &str) -> (quoted: String)
    ensures
        quoted@ == debug_form(text@),
{
    format!("{:?}", text)
}

/// `dirs::config_dir`: the user's configuration directory, if there is one. It
/// depends on the user and on the environment, so nothing is said of it.
#[verifier::external_body]
pub(crate) fn config_dir() -> (dir: Option<std::path::PathBuf>) {
    dirs::config_dir()
}

} // verus!
