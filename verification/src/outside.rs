//! The calls into other crates. Nothing in this file is proved: each contract
//! states what the called function is documented to do, and the verified code
//! rests on it.
use vstd::prelude::*;
use vstd::string::*;
use crate::clock::Instant;
use crate::json::{Json, JsonView, Member};

verus! {

/// `jsonwebtoken::Algorithm`: the algorithm that the header of a token names,
/// carried from the header to the validation of the token.
#[verifier::external_type_specification]
#[verifier::external_body]
pub struct ExAlgorithm(jsonwebtoken::Algorithm);

/// `jsonwebtoken::jwk::Jwk`: a JSON Web Key as the token library reads it.
#[verifier::external_type_specification]
#[verifier::external_body]
pub struct ExJwk(jsonwebtoken::jwk::Jwk);

/// `jsonwebtoken::DecodingKey`: the key with which a signature is checked.
#[verifier::external_type_specification]
#[verifier::external_body]
pub struct ExDecodingKey(jsonwebtoken::DecodingKey);

/// `serde_json::Value`: the claims of a token as the token library hands
/// them out.
#[verifier::external_type_specification]
#[verifier::external_body]
pub struct ExValue(serde_json::Value);

/// Which checks the token library applies to the registered claims of a token.
#[derive(Clone, Debug, PartialEq, Eq)]
pub struct TokenCheck {
    /// Claims that must be present.
    pub required_claims: Vec<String>,
    /// Refuse a token whose `exp` has passed.
    pub validate_exp: bool,
    /// Refuse a token whose `nbf` has not come.
    pub validate_nbf: bool,
    /// Refuse a token whose `aud` names none of `audience`.
    pub validate_aud: bool,
    /// The audiences accepted.
    pub audience: Vec<String>,
}

/// URL-safe base64 without padding of `bytes`.
pub uninterp spec fn base64url_text(bytes: Seq<u8>) -> Seq<char>;

/// The bytes that `text` stands for in URL-safe base64 without padding, if it is such a text.
pub uninterp spec fn base64url_bytes(text: Seq<char>) -> Option<Seq<u8>>;

/// The bytes that `text` stands for in standard base64, if it is such a text.
pub uninterp spec fn base64_bytes(text: Seq<char>) -> Option<Seq<u8>>;

/// The `kid` of the header of the JWT `token`: nothing where the header cannot
/// be read, `Some(None)` where it has no `kid`.
pub uninterp spec fn jwt_header_kid(token: Seq<char>) -> Option<Option<Seq<char>>>;

/// The JSON Web Key that the JSON text in `bytes` holds; nothing where the
/// text holds none.
pub uninterp spec fn jwk_read(bytes: Seq<u8>) -> Option<jsonwebtoken::jwk::Jwk>;

/// The key with which signatures made under `jwk` are checked; nothing where
/// the token library makes no key of it.
pub uninterp spec fn jwk_key(jwk: jsonwebtoken::jwk::Jwk) -> Option<jsonwebtoken::DecodingKey>;

/// What `jsonwebtoken::crypto::verify` finds of the signature of the JWT
/// `token` under `key`, with the algorithm that the header of the token
/// names: whether the signature holds.
pub uninterp spec fn signed_under(token: Seq<char>, key: jsonwebtoken::DecodingKey) -> bool;

/// The claims that the payload of the JWT `token` holds, as JSON; nothing where
/// the payload cannot be read.
pub uninterp spec fn jwt_payload(token: Seq<char>) -> Option<JsonView>;

/// What a `serde_json::Value` holds, as JSON: a number by its text.
pub uninterp spec fn value_json(value: serde_json::Value) -> JsonView;

/// The compact JWT that carries `claims`, with `kid` in its header, signed
/// RS256 with the RSA private key in the PEM text `pem`; nothing where the key
/// cannot be read or cannot sign.
pub uninterp spec fn rs256_jwt(kid: Seq<char>, claims: JsonView, pem: Seq<char>) -> Option<
    Seq<char>,
>;

/// The instant that the RFC 3339 text `text` names, if it is such a text.
pub uninterp spec fn rfc3339_instant(text: Seq<char>) -> Option<Instant>;

/// The RFC 3339 text, in UTC, of the instant `secs` seconds and `nanos`
/// nanoseconds after the Unix epoch; nothing where no date stands for it.
pub uninterp spec fn rfc3339_text(secs: i64, nanos: u32) -> Option<Seq<char>>;

/// The subject of the X.509 certificate in the DER bytes `der`, written out as
/// text; nothing where `der` holds no certificate.
pub uninterp spec fn x509_subject(der: Seq<u8>) -> Option<Seq<char>>;

/// A byte that percent-encoding leaves as it is: a letter, a digit, `-`, `.`, `_` or `~`.
pub open spec fn is_unreserved(b: u8) -> bool {
    (0x30 <= b <= 0x39) || (0x41 <= b <= 0x5a) || (0x61 <= b <= 0x7a) || b == 0x2d || b == 0x2e
        || b == 0x5f || b == 0x7e
}

/// The upper-case hexadecimal digit for a value below 16.
pub open spec fn hex_digit(d: u8) -> char {
    if d < 10 {
        (0x30 + d) as u8 as char
    } else {
        (0x41 + d - 10) as u8 as char
    }
}

/// One byte, percent-encoded.
pub open spec fn percent_byte(b: u8) -> Seq<char> {
    if is_unreserved(b) {
        seq![b as char]
    } else {
        seq!['%', hex_digit(b / 16), hex_digit(b % 16)]
    }
}

/// A sequence of bytes, percent-encoded byte by byte.
pub open spec fn percent_encoded(bytes: Seq<u8>) -> Seq<char>
    decreases bytes.len(),
{
    if bytes.len() == 0 {
        Seq::empty()
    } else {
        percent_encoded(bytes.drop_last()) + percent_byte(bytes.last())
    }
}

/// A text, percent-encoded byte by byte of its UTF-8 form.
pub open spec fn url_encoded(text: Seq<char>) -> Seq<char> {
    percent_encoded(vstd::utf8::encode_utf8(text))
}

/// `urlencoding::encode`: every byte of the UTF-8 form of `text` is
/// percent-encoded, except letters, digits, `-`, `.`, `_` and `~`.
#[verifier::external_body]
pub(crate) fn url_encode(text: &str) -> (r: String)
    ensures
        r@ == url_encoded(text@),
{
    urlencoding::encode(text).into_owned()
}

/// The number of characters of unpadded base64 for `count` bytes: four for
/// every three bytes, and two or three for one or two bytes left over.
pub open spec fn unpadded_len(count: nat) -> nat {
    4 * (count / 3) + if count % 3 == 0 {
        0
    } else {
        count % 3 + 1
    }
}

/// `Engine::encode` of base64's `URL_SAFE_NO_PAD`: the text depends on the
/// bytes alone, and has the length that base64's `encoded_len` gives without
/// padding. The number of bytes is bounded because the engine computes the
/// size of its buffer in a `usize`.
#[verifier::external_body]
pub(crate) fn base64url_encode(bytes: &Vec<u8>) -> (r: String)
    requires
        bytes@.len() <= usize::MAX / 2,
    ensures
        r@ == base64url_text(bytes@),
        r@.len() == unpadded_len(bytes@.len()),
{
    base64::Engine::encode(&base64::engine::general_purpose::URL_SAFE_NO_PAD, bytes)
}

/// `Engine::decode` of base64's `URL_SAFE_NO_PAD`: whether `text` decodes, and
/// to which bytes, depends on `text` alone.
#[verifier::external_body]
pub(crate) fn base64url_decode(text: &str) -> (r: Result<Vec<u8>, String>)
    ensures
        match r {
            Ok(bytes) => base64url_bytes(text@) == Some(bytes@),
            Err(_) => base64url_bytes(text@).is_none(),
        },
{
    match base64::Engine::decode(&base64::engine::general_purpose::URL_SAFE_NO_PAD, text) {
        Ok(bytes) => Ok(bytes),
        Err(e) => Err(e.to_string()),
    }
}

/// `Engine::decode` of base64's `STANDARD`: whether `text` decodes, and to
/// which bytes, depends on `text` alone.
#[verifier::external_body]
pub(crate) fn base64_decode(text: &str) -> (r: Result<Vec<u8>, String>)
    ensures
        match r {
            Ok(bytes) => base64_bytes(text@) == Some(bytes@),
            Err(_) => base64_bytes(text@).is_none(),
        },
{
    match base64::Engine::decode(&base64::engine::general_purpose::STANDARD, text) {
        Ok(bytes) => Ok(bytes),
        Err(e) => Err(e.to_string()),
    }
}

/// `Rng::fill` on rand's thread-local generator: `count` bytes, of which
/// nothing is known but their number.
#[verifier::external_body]
pub(crate) fn random_bytes(count: usize) -> (r: Vec<u8>)
    ensures
        r@.len() == count,
{
    let mut bytes = vec![0u8; count];
    rand::Rng::fill(&mut rand::rng(), &mut bytes[..]);
    bytes
}

/// The number of characters of a UUID in the hyphenated form.
pub const UUID_TEXT_LEN: usize = 36;

/// `Uuid::new_v4`, written by its `Display`, which is the hyphenated form: a
/// random identifier, of which nothing is claimed but its length.
#[verifier::external_body]
pub(crate) fn new_uuid() -> (r: String)
    ensures
        r@.len() == UUID_TEXT_LEN,
{
    uuid::Uuid::new_v4().to_string()
}

/// `Utc::now`, as its `timestamp` and `timestamp_subsec_nanos`: the time of the
/// call. `Utc::now` takes the time that has passed since 1970 from the clock
/// of the machine, so the instant is not before 1970; nothing else is claimed
/// of it.
#[verifier::external_body]
pub(crate) fn now() -> (r: Instant)
    ensures
        r.secs >= 0,
{
    let t = chrono::Utc::now();
    Instant { secs: t.timestamp(), nanos: t.timestamp_subsec_nanos() }
}

/// `DateTime::parse_from_rfc3339`, as the `timestamp` and
/// `timestamp_subsec_nanos` of what it parsed: whether `text` parses, and to
/// which instant, depends on `text` alone.
#[verifier::external_body]
pub(crate) fn parse_rfc3339(text: &str) -> (r: Result<Instant, String>)
    ensures
        match r {
            Ok(t) => rfc3339_instant(text@) == Some(t),
            Err(_) => rfc3339_instant(text@).is_none(),
        },
{
    match chrono::DateTime::parse_from_rfc3339(text) {
        Ok(t) => Ok(Instant { secs: t.timestamp(), nanos: t.timestamp_subsec_nanos() }),
        Err(e) => Err(e.to_string()),
    }
}

/// `DateTime::from_timestamp` followed by `to_rfc3339_opts` with automatic
/// precision and `Z` for UTC: the text depends on the instant alone. From 1970
/// to the end of the year 9999 every instant with less than a second of
/// nanoseconds has a text, and `parse_from_rfc3339` reads that text back as the
/// same instant.
#[verifier::external_body]
pub(crate) fn format_rfc3339(t: &Instant) -> (r: Option<String>)
    ensures
        match r {
            Some(text) => rfc3339_text(t.secs, t.nanos) == Some(text@),
            None => rfc3339_text(t.secs, t.nanos).is_none(),
        },
        0 <= t.secs <= 253_402_300_799 && t.nanos < 1_000_000_000 ==> r.is_some()
            && rfc3339_instant(r.unwrap()@) == Some(*t),
{
    match chrono::DateTime::from_timestamp(t.secs, t.nanos) {
        Some(d) => Some(d.to_rfc3339_opts(chrono::SecondsFormat::AutoSi, true)),
        None => None,
    }
}

/// `jsonwebtoken::decode_header`: the `kid` and the algorithm that the header
/// of `token` names. Whether the header can be read, and its `kid`, depend on
/// `token` alone.
#[verifier::external_body]
pub(crate) fn jwt_header(token: &str) -> (r: Result<
    (Option<String>, jsonwebtoken::Algorithm),
    String,
>)
    ensures
        match r {
            Ok(header) => jwt_header_kid(token@) == Some(header.0.deep_view()),
            Err(_) => jwt_header_kid(token@).is_none(),
        },
{
    match jsonwebtoken::decode_header(token) {
        Ok(header) => Ok((header.kid, header.alg)),
        Err(e) => Err(e.to_string()),
    }
}

/// `serde_json::from_slice` at the type `Jwk`: the JSON Web Key that `bytes`
/// hold, or why they hold none. Whether they hold one, and which, depends on
/// `bytes` alone.
#[verifier::external_body]
pub(crate) fn jwk_from_json(bytes: &Vec<u8>) -> (r: Result<jsonwebtoken::jwk::Jwk, String>)
    ensures
        match r {
            Ok(jwk) => jwk_read(bytes@) == Some(jwk),
            Err(_) => jwk_read(bytes@).is_none(),
        },
{
    match serde_json::from_slice::<jsonwebtoken::jwk::Jwk>(bytes) {
        Ok(jwk) => Ok(jwk),
        Err(e) => Err(e.to_string()),
    }
}

/// `DecodingKey::from_jwk`: the key that verifies signatures made with `jwk`,
/// or why none can be made of it. Whether one can be made, and which, depends
/// on `jwk` alone.
#[verifier::external_body]
pub(crate) fn decoding_key(jwk: &jsonwebtoken::jwk::Jwk) -> (r: Result<
    jsonwebtoken::DecodingKey,
    String,
>)
    ensures
        match r {
            Ok(key) => jwk_key(*jwk) == Some(key),
            Err(_) => jwk_key(*jwk).is_none(),
        },
{
    match jsonwebtoken::DecodingKey::from_jwk(jwk) {
        Ok(key) => Ok(key),
        Err(e) => Err(e.to_string()),
    }
}

/// `jsonwebtoken::decode` at the type `serde_json::Value`, with a `Validation`
/// for `alg` that holds the settings of `check`: the claims of `token` where
/// its signature is good under `key` and its registered claims pass, else why
/// not. Whether the token is accepted depends on the time of the call, so
/// nothing is claimed of that. The claims of an accepted token are those of
/// its payload, and no token is accepted unless `jsonwebtoken::crypto::verify`
/// finds its signature good under `key` with the algorithm of its header,
/// whatever `alg`, the checks and the time.
#[verifier::external_body]
pub(crate) fn jwt_decode(
    token: &str,
    key: &jsonwebtoken::DecodingKey,
    alg: jsonwebtoken::Algorithm,
    check: &TokenCheck,
) -> (r: Result<serde_json::Value, String>)
    ensures
        r matches Ok(value) ==> jwt_payload(token@) == Some(value_json(value)) && signed_under(
            token@,
            *key,
        ),
{
    let mut validation = jsonwebtoken::Validation::new(alg);
    validation.set_required_spec_claims(&check.required_claims);
    validation.validate_exp = check.validate_exp;
    validation.validate_nbf = check.validate_nbf;
    validation.validate_aud = check.validate_aud;
    validation.set_audience(&check.audience);
    match jsonwebtoken::decode::<serde_json::Value>(token, key, &validation) {
        Ok(data) => Ok(data.claims),
        Err(e) => Err(e.to_string()),
    }
}

/// A `serde_json::Value` as a `Json`, variant by variant; a number becomes its
/// text, written by the `Display` of `serde_json::Number`, and the members of
/// an object come in the order in which its map hands them out.
#[verifier::external_body]
pub(crate) fn json_from_value(value: &serde_json::Value) -> (r: Json)
    ensures
        r@ == value_json(*value),
{
    match value {
        serde_json::Value::Null => Json::Null,
        serde_json::Value::Bool(b) => Json::Bool(*b),
        serde_json::Value::Number(n) => Json::Number(n.to_string()),
        serde_json::Value::String(s) => Json::Text(s.clone()),
        serde_json::Value::Array(items) => Json::Array(items.iter().map(json_from_value).collect()),
        serde_json::Value::Object(map) => Json::Object(
            map.iter().map(|(k, v)| Member { name: k.clone(), value: json_from_value(v) }).collect(),
        ),
    }
}

/// A `Json` as a `serde_json::Value`, variant by variant; a number text that
/// serde_json cannot read becomes null.
#[verifier::external_body]
pub(crate) fn json_to_value(json: &Json) -> (r: serde_json::Value) {
    match json {
        Json::Null => serde_json::Value::Null,
        Json::Bool(b) => serde_json::Value::Bool(*b),
        Json::Number(n) => n.parse().map(serde_json::Value::Number).unwrap_or(serde_json::Value::Null),
        Json::Text(s) => serde_json::Value::String(s.clone()),
        Json::Array(items) => serde_json::Value::Array(items.iter().map(json_to_value).collect()),
        Json::Object(members) => serde_json::Value::Object(
            members.iter().map(|m| (m.name.clone(), json_to_value(&m.value))).collect(),
        ),
    }
}

/// `jsonwebtoken::encode` with a header for RS256 that names `kid`, the claims
/// `claims` and the key that `EncodingKey::from_rsa_pem` reads from `pem`. The
/// RS256 signature is deterministic, so the token depends on the three
/// arguments alone.
#[verifier::external_body]
pub(crate) fn jwt_sign_rs256(kid: &str, claims: &Json, pem: &str) -> (r: Result<String, String>)
    ensures
        match r {
            Ok(token) => rs256_jwt(kid@, claims@, pem@) == Some(token@),
            Err(_) => rs256_jwt(kid@, claims@, pem@).is_none(),
        },
{
    let mut header = jsonwebtoken::Header::new(jsonwebtoken::Algorithm::RS256);
    header.kid = Some(kid.to_string());
    let key = match jsonwebtoken::EncodingKey::from_rsa_pem(pem.as_bytes()) {
        Ok(key) => key,
        Err(e) => return Err(e.to_string()),
    };
    match jsonwebtoken::encode(&header, &json_to_value(claims), &key) {
        Ok(token) => Ok(token),
        Err(e) => Err(e.to_string()),
    }
}

/// `x509_parser::parse_x509_certificate`, and the subject of the certificate
/// written with its `Display`: whether `der` parses, and the text, depend on
/// `der` alone.
#[verifier::external_body]
pub(crate) fn certificate_subject(der: &Vec<u8>) -> (r: Result<String, String>)
    ensures
        match r {
            Ok(subject) => x509_subject(der@) == Some(subject@),
            Err(_) => x509_subject(der@).is_none(),
        },
{
    match x509_parser::parse_x509_certificate(der) {
        Ok((_, certificate)) => Ok(certificate.subject.to_string()),
        Err(e) => Err(e.to_string()),
    }
}

} // verus!
