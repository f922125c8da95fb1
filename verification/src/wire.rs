//! What the crate takes from other crates: URLs from the `url` parser
//! (through `reqwest`), JSON from `serde_json`, and from `oauth2` the check
//! of the endpoints and the secrets of the code flow. Where a result takes
//! pages to describe it is named here, and the contracts of the crate speak
//! of that name. The functions of this module are taken on trust: their
//! bodies make the calls and are not verified.

use crate::auth::code::Pkce;
use vstd::prelude::*;

verus! {

/// Length of `s` in UTF-8 bytes.
pub open spec fn byte_len(s: Seq<char>) -> nat {
    vstd::utf8::encode_utf8(s).len()
}

/// Most bytes by which one pair makes a query grow: each byte of the name
/// and of the value is written as three at most, and there is one `=` and
/// one `&`.
pub open spec fn pair_cost(name: Seq<char>, value: Seq<char>) -> nat {
    3 * byte_len(name) + 3 * byte_len(value) + 2
}

/// Most bytes by which `pairs` make a query grow.
pub open spec fn pairs_cost(pairs: Seq<(Seq<char>, Seq<char>)>) -> nat
    decreases pairs.len(),
{
    if pairs.len() == 0 {
        0
    } else {
        pairs_cost(pairs.drop_last()) + pair_cost(pairs.last().0, pairs.last().1)
    }
}

/// A URL of `size` bytes can take `pairs` into its query: with them, and
/// the `?` before them, it stays within the 32-bit offsets that a `Url`
/// keeps.
pub open spec fn query_fits(size: nat, pairs: Seq<(Seq<char>, Seq<char>)>) -> bool {
    size + 1 + pairs_cost(pairs) <= u32::MAX
}

/// `reqwest::Url`, a parsed URL. Nothing inside it is visible to the
/// proofs; what it holds goes by the name `url_text`.
#[verifier::external_type_specification]
#[verifier::external_body]
pub struct ExUrl(reqwest::Url);

/// What a `Url` holds: its serialization.
pub uninterp spec fn url_text(u: reqwest::Url) -> Seq<char>;

/// The serialization of the URL that `text` parses to; `None` where `text`
/// is no absolute URL.
pub uninterp spec fn url_parsed(text: Seq<char>) -> Option<Seq<char>>;

/// The serialization of the URL `url` after `pairs` have been appended to
/// its query in form encoding.
pub uninterp spec fn url_appended(url: Seq<char>, pairs: Seq<(Seq<char>, Seq<char>)>) -> Seq<char>;

/// The decoded name and value of each pair in the query of the URL `url`,
/// in order.
pub uninterp spec fn url_pairs(url: Seq<char>) -> Seq<(Seq<char>, Seq<char>)>;

/// `Url::parse`. The contract names the URL that the text stands for and
/// says nothing else about it.
#[verifier::external_body]
pub(crate) fn parse_url(text: &str) -> (r: Option<reqwest::Url>)
    ensures
        match r {
            Some(u) => url_parsed(text@) == Some(url_text(u)),
            None => url_parsed(text@) is None,
        },
{
    reqwest::Url::parse(text).ok()
}

/// `Url::as_str`: the serialization of a URL.
#[verifier::external_body]
pub(crate) fn url_str<'a>(u: &'a reqwest::Url) -> (r: &'a str)
    ensures
        r@ == url_text(*u),
{
    u.as_str()
}

/// `Url::query_pairs_mut`, then `Serializer::extend_pairs`. The serializer
/// turns the length of the URL into a 32-bit offset and fails hard where it
/// does not fit; the bound keeps every length that it meets within 32 bits.
#[verifier::external_body]
pub(crate) fn append_query(u: reqwest::Url, pairs: &Vec<(String, String)>) -> (r: reqwest::Url)
    requires
        query_fits(byte_len(url_text(u)), pairs.deep_view()),
    ensures
        url_text(r) == url_appended(url_text(u), pairs.deep_view()),
{
    let mut u = u;
    u.query_pairs_mut().extend_pairs(pairs);
    u
}

/// `Url::query_pairs`, each pair copied out.
#[verifier::external_body]
pub(crate) fn query_pairs(u: &reqwest::Url) -> (r: Vec<(String, String)>)
    ensures
        r.deep_view() == url_pairs(url_text(*u)),
{
    u.query_pairs().into_owned().collect()
}

/// A JSON document as a mathematical value.
pub enum Json {
    Null,
    Bool(bool),
    /// A number, as the text that `serde_json` writes for it.
    Number(Seq<char>),
    Text(Seq<char>),
    Array(Seq<Json>),
    /// An object: its members by name. A name occurs once.
    Object(Map<Seq<char>, Json>),
}

impl Json {
    /// The member `key` of an object; `None` where this is no object or has
    /// no such member.
    pub open spec fn member(self, key: Seq<char>) -> Option<Json> {
        match self {
            Json::Object(members) => if members.dom().contains(key) {
                Some(members[key])
            } else {
                None
            },
            _ => None,
        }
    }

    /// The elements of an array, in order; `None` where this is no array.
    pub open spec fn elements(self) -> Option<Seq<Json>> {
        match self {
            Json::Array(items) => Some(items),
            _ => None,
        }
    }

    /// The characters of a string; `None` where this is no string.
    pub open spec fn text(self) -> Option<Seq<char>> {
        match self {
            Json::Text(s) => Some(s),
            _ => None,
        }
    }

    /// The value of a number that is an unsigned integer of 64 bits; `None`
    /// where this is anything else.
    pub open spec fn unsigned(self) -> Option<u64> {
        match self {
            Json::Number(n) => json_number_u64(n),
            _ => None,
        }
    }

    /// This object without its member `key`; the value itself where it is
    /// no object.
    pub open spec fn without(self, key: Seq<char>) -> Json {
        match self {
            Json::Object(members) => Json::Object(members.remove(key)),
            _ => self,
        }
    }
}

/// `serde_json::Value`, a JSON document. Nothing inside it is visible to
/// the proofs; what it holds goes by the name `json_of`.
#[verifier::external_type_specification]
#[verifier::external_body]
pub struct ExJsonValue(serde_json::Value);

/// What a `serde_json::Value` holds.
pub uninterp spec fn json_of(v: serde_json::Value) -> Json;

/// The JSON value that `text` parses to; `None` where `text` is not one JSON
/// value.
pub uninterp spec fn json_parse(text: Seq<char>) -> Option<Json>;

/// The value of the JSON number with the text `number` where `serde_json`
/// holds it as an unsigned integer of 64 bits: a number written without
/// sign, fraction or exponent, and no larger than 2^64 - 1. `None` for any
/// other number.
pub uninterp spec fn json_number_u64(number: Seq<char>) -> Option<u64>;

/// What a run of `serde_json::Value`s holds.
pub open spec fn json_values(items: Seq<serde_json::Value>) -> Seq<Json> {
    items.map_values(|v: serde_json::Value| json_of(v))
}

/// `serde_json::from_str` for a `Value`. The contract names the document
/// that the text stands for and says nothing else about it.
#[verifier::external_body]
pub(crate) fn parse_json(text: &str) -> (r: Option<serde_json::Value>)
    ensures
        match r {
            Some(v) => json_parse(text@) == Some(json_of(v)),
            None => json_parse(text@) is None,
        },
{
    serde_json::from_str(text).ok()
}

/// `Value::get` with a string key: the member of that name where the value
/// is an object that has one. The member is copied out.
#[verifier::external_body]
pub(crate) fn member(doc: &serde_json::Value, key: &str) -> (r: Option<serde_json::Value>)
    ensures
        match r {
            Some(m) => json_of(*doc).member(key@) == Some(json_of(m)),
            None => json_of(*doc).member(key@) is None,
        },
{
    doc.get(key).cloned()
}

/// Takes the elements out of a `Value::Array`.
#[verifier::external_body]
pub(crate) fn elements(doc: serde_json::Value) -> (r: Option<Vec<serde_json::Value>>)
    ensures
        match r {
            Some(items) => json_of(doc).elements() == Some(json_values(items@)),
            None => json_of(doc).elements() is None,
        },
{
    match doc {
        serde_json::Value::Array(items) => Some(items),
        _ => None,
    }
}

/// `Value::as_str`: the characters of a `Value::String`, copied out.
#[verifier::external_body]
pub(crate) fn string_value(doc: &serde_json::Value) -> (r: Option<String>)
    ensures
        r.deep_view() == json_of(*doc).text(),
{
    doc.as_str().map(str::to_owned)
}

/// `Value::as_u64`: the value of a `Value::Number` that is held as an
/// unsigned integer.
#[verifier::external_body]
pub(crate) fn unsigned_value(doc: &serde_json::Value) -> (r: Option<u64>)
    ensures
        r == match json_of(*doc) {
            Json::Number(n) => json_number_u64(n),
            _ => None,
        },
{
    doc.as_u64()
}

/// `Value::as_object_mut`, then `Map::remove`: an object loses the member
/// of that name if it has one, and any other value stays as it is. What is
/// removed is dropped.
#[verifier::external_body]
pub(crate) fn without_member(doc: serde_json::Value, key: &str) -> (r: serde_json::Value)
    ensures
        json_of(r) == json_of(doc).without(key@),
{
    let mut doc = doc;
    if let Some(object) = doc.as_object_mut() {
        object.remove(key);
    }
    doc
}

/// `AuthUrl::new` of `oauth2`, which accepts what `Url::parse` accepts:
/// whether `url` is an absolute URL.
#[verifier::external_body]
pub(crate) fn is_auth_url(url: &str) -> (r: bool)
    ensures
        r == (url_parsed(url@) is Some),
{
    oauth2::AuthUrl::new(url.to_string()).is_ok()
}

/// `TokenUrl::new` of `oauth2`, which accepts what `Url::parse` accepts:
/// whether `url` is an absolute URL.
#[verifier::external_body]
pub(crate) fn is_token_url(url: &str) -> (r: bool)
    ensures
        r == (url_parsed(url@) is Some),
{
    oauth2::TokenUrl::new(url.to_string()).is_ok()
}

/// `DeviceAuthorizationUrl::new` of `oauth2`, which accepts what
/// `Url::parse` accepts: whether `url` is an absolute URL.
#[verifier::external_body]
pub(crate) fn is_device_authorization_url(url: &str) -> (r: bool)
    ensures
        r == (url_parsed(url@) is Some),
{
    oauth2::DeviceAuthorizationUrl::new(url.to_string()).is_ok()
}

/// The SHA-256 code challenge of a code verifier, in unpadded URL-safe
/// base64, as `oauth2` derives it.
pub uninterp spec fn pkce_challenge_of(verifier: Seq<char>) -> Seq<char>;

/// Bytes of a code challenge and of a code verifier that `oauth2` draws: 32
/// bytes in unpadded base64.
pub const PKCE_BYTES: usize = 43;

/// Bytes of an anti-forgery token that `oauth2` draws: 16 bytes in unpadded
/// base64.
pub const STATE_BYTES: usize = 22;

/// `PkceCodeChallenge::new_random_sha256`: a fresh random verifier and its
/// challenge. Which verifier comes back is left open; the challenge is the
/// one that belongs to it, and each is 43 bytes long, whatever was drawn.
#[verifier::external_body]
pub(crate) fn new_pkce() -> (r: Pkce)
    ensures
        r.challenge@ == pkce_challenge_of(r.verifier@),
        byte_len(r.challenge@) == PKCE_BYTES,
        byte_len(r.verifier@) == PKCE_BYTES,
{
    let (challenge, verifier) = oauth2::PkceCodeChallenge::new_random_sha256();
    Pkce { challenge: challenge.as_str().to_string(), verifier: verifier.secret().clone() }
}

/// `CsrfToken::new_random`: a fresh random anti-forgery token. Which token
/// comes back is left open; it is 22 bytes long, whatever was drawn.
#[verifier::external_body]
pub(crate) fn new_state() -> (r: String)
    ensures
        byte_len(r@) == STATE_BYTES,
{
    oauth2::CsrfToken::new_random().secret().clone()
}

} // verus!
