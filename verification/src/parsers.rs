//! Parsing that the gateway leaves to the `urlencoding`, `url`, `serde_json`
//! and `base64` crates.
//!
//! Each function here only makes the call and hands back plain values. What
//! a call returns is not restated: it is given a name, and the rest of the
//! crate speaks of the result under that name.

use vstd::prelude::*;

verus! {

/// What `urlencoding::decode` makes of `encoded`: the text with every
/// `%XX` escape replaced by the byte it stands for (a `%` that two hex
/// digits do not follow stays as it is), or `None` where the bytes that come
/// out are not UTF-8.
pub uninterp spec fn percent_decoded(encoded: Seq<char>) -> Option<Seq<char>>;

/// What the `url` crate makes of `reference` read against `base`: the
/// serialisation of `Url::parse(base)` joined with `reference`, or `None`
/// where `base` is no absolute URL or the join is refused.
pub uninterp spec fn url_joined(base: Seq<char>, reference: Seq<char>) -> Option<Seq<char>>;

/// What `serde_json` finds under `key` in the JSON document `text`:
/// `None` where `text` is not JSON, `Some(None)` where it is but holds no
/// string under `key` (it is no object, lacks the key, or holds another
/// kind of value there), and the string otherwise.
pub uninterp spec fn json_string_member(text: Seq<char>, key: Seq<char>) -> Option<
    Option<Seq<char>>,
>;

/// What the standard base64 engine makes of `text`: the bytes it encodes,
/// or the words of the decoding error.
pub uninterp spec fn base64_decoded(text: Seq<char>) -> Result<Seq<u8>, Seq<char>>;

/// Mathematical model of what a decoder hands back: bytes, or the words of
/// an error.
pub open spec fn decoding_view(outcome: Result<Vec<u8>, String>) -> Result<Seq<u8>, Seq<char>> {
    match outcome {
        Ok(bytes) => Ok(bytes@),
        Err(error) => Err(error@),
    }
}

/// Percent-decodes `encoded` with `urlencoding::decode`.
///
/// Trusted: the result is the one named [`percent_decoded`]; the decoding
/// error is turned into `None`.
#[verifier::external_body]
pub(crate) fn percent_decode(encoded: &str) -> (r: Option<String>)
    ensures
        r.deep_view() == percent_decoded(encoded@),
{
    match urlencoding::decode(encoded) {
        Ok(text) => Some(text.into_owned()),
        Err(_) => None,
    }
}

/// Resolves `reference` against `base` with `url::Url::parse` and
/// `url::Url::join`.
///
/// Trusted: the result is the one named [`url_joined`]; either parse error
/// is turned into `None`.
#[verifier::external_body]
pub(crate) fn join_url(base: &str, reference: &str) -> (r: Option<String>)
    ensures
        r.deep_view() == url_joined(base@, reference@),
{
    match url::Url::parse(base) {
        Ok(parsed) => match parsed.join(reference) {
            Ok(joined) => Some(String::from(joined)),
            Err(_) => None,
        },
        Err(_) => None,
    }
}

/// Parses `text` with `serde_json::from_str` and reads the string under
/// `key`.
///
/// Trusted: the result is the one named [`json_string_member`].
#[verifier::external_body]
pub(crate) fn read_json_string_member(text: &str, key: &str) -> (r: Option<Option<String>>)
    ensures
        r.deep_view() == json_string_member(text@, key@),
{
    match serde_json::from_str::<serde_json::Value>(text) {
        Ok(document) => match document[key].as_str() {
            Some(member) => Some(Some(member.to_owned())),
            None => Some(None),
        },
        Err(_) => None,
    }
}

/// Decodes `text` with `Engine::decode` of `base64`'s standard engine.
///
/// Trusted: the result is the one named [`base64_decoded`]; a decoding error
/// is handed back as the text that it displays.
#[verifier::external_body]
pub(crate) fn decode_base64(text: &str) -> (r: Result<Vec<u8>, String>)
    ensures
        decoding_view(r) == base64_decoded(text@),
{
    match base64::Engine::decode(&base64::engine::general_purpose::STANDARD, text) {
        Ok(bytes) => Ok(bytes),
        Err(error) => Err(error.to_string()),
    }
}

} // verus!
