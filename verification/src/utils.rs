//! Token primitives: opaque tokens, header schemes, DIDs, claims and the
//! validation of a signed token.
use vstd::prelude::*;
use vstd::string::*;
use crate::clock::Instant;
use crate::errors::{ErrorKind, Errors, Reason};
use crate::json::{Json, JsonView};
use crate::outside::{
    base64url_bytes, base64url_decode, base64url_encode, base64url_text, decoding_key,
    json_from_value, jwk_from_json, jwk_key, jwk_read, jwt_decode, jwt_header, jwt_header_kid,
    jwt_payload, now, random_bytes, signed_under, TokenCheck,
};
use crate::text::{
    find_from, has_prefix, index_from, index_of, last_index_of, replace_all, replaced, strip_prefix,
    to_chars,
};

verus! {

/// The number of random bytes in an opaque token.
pub const OPAQUE_TOKEN_BYTES: usize = 32;

/// The text before the first `#` of a DID, and the text after it where there is one.
pub open spec fn spec_split_did(did: Seq<char>) -> (Seq<char>, Option<Seq<char>>) {
    let i = index_of(did, '#');
    if i < did.len() {
        (did.take(i), Some(did.skip(i + 1)))
    } else {
        (did, None)
    }
}

/// Position of the third `/` of `s`; the length of `s` where it has fewer.
pub open spec fn third_slash(s: Seq<char>) -> int {
    index_from(s, '/', index_from(s, '/', index_from(s, '/', 0) + 1) + 1)
}

/// What stands before the third `/` of `s`; all of `s` where it has fewer.
pub open spec fn spec_trim_4_base(s: Seq<char>) -> Seq<char> {
    s.take(third_slash(s))
}

/// The key material of a `did:jwk` DID: the DID without its scheme.
pub open spec fn did_key_material(did: Seq<char>) -> Seq<char> {
    replaced(did, "did:jwk:"@, ""@)
}

/// The texts of a path of member names.
pub open spec fn path_texts(path: Seq<&str>) -> Seq<Seq<char>> {
    path.map_values(|key: &str| key@)
}

/// What reading a string at `path` gives: the string, or why there is none.
pub open spec fn claim_at(claims: JsonView, path: Seq<Seq<char>>) -> Result<Seq<char>, Reason> {
    match claims.at(path) {
        None => Err(Reason::MissingField),
        Some(node) => match node.text() {
            Some(t) => Ok(t),
            None => Err(Reason::NotAString),
        },
    }
}

/// What reading an optional string at `path` gives: nothing where the path
/// leads nowhere, the string where it leads to one, else why there is none.
pub open spec fn opt_claim_at(claims: JsonView, path: Seq<Seq<char>>) -> Result<
    Option<Seq<char>>,
    Reason,
> {
    match claims.at(path) {
        None => Ok(None),
        Some(node) => match node.text() {
            Some(t) => Ok(Some(t)),
            None => Err(Reason::NotAString),
        },
    }
}

/// The number of characters of an opaque token.
pub const OPAQUE_TOKEN_CHARS: usize = 43;

/// `token` is an opaque token: 32 bytes in URL-safe base64 without padding,
/// which makes 43 characters.
pub open spec fn is_opaque_token(token: Seq<char>) -> bool {
    &&& token.len() == OPAQUE_TOKEN_CHARS
    &&& exists|bytes: Seq<u8>|
        bytes.len() == OPAQUE_TOKEN_BYTES && token == #[trigger] base64url_text(bytes)
}

/// A fresh secret: 32 random bytes in URL-safe base64 without padding.
pub fn create_opaque_token() -> (token: String)
    ensures
        is_opaque_token(token@),
{
    let bytes = random_bytes(OPAQUE_TOKEN_BYTES);
    base64url_encode(&bytes)
}

/// The token of an `Authorization` header of the scheme `GNAP`.
pub fn extract_gnap_token(authorization: Option<&str>) -> (r: Option<String>)
    ensures
        match authorization {
            Some(value) => if has_prefix(value@, "GNAP "@) {
                r.is_some() && r.unwrap()@ == value@.skip("GNAP "@.len() as int)
            } else {
                r.is_none()
            },
            None => r.is_none(),
        },
{
    match authorization {
        Some(value) => strip_prefix(value, "GNAP "),
        None => None,
    }
}

/// The token of an `Authorization` header of the scheme `Bearer`.
pub fn extract_bearer_token(authorization: Option<&str>) -> (r: Option<String>)
    ensures
        match authorization {
            Some(value) => if has_prefix(value@, "Bearer "@) {
                r.is_some() && r.unwrap()@ == value@.skip("Bearer "@.len() as int)
            } else {
                r.is_none()
            },
            None => r.is_none(),
        },
{
    match authorization {
        Some(value) => strip_prefix(value, "Bearer "),
        None => None,
    }
}

/// The token of a continuation: that of the `Authorization` header of the
/// scheme `GNAP`. A request without such a header is `Unauthorized`.
pub fn authorize_gnap(authorization: Option<&str>) -> (r: Result<String, Errors>)
    ensures
        match authorization {
            Some(value) if has_prefix(value@, "GNAP "@) => r matches Ok(token) && token@
                == value@.skip("GNAP "@.len() as int),
            _ => r matches Err(e) && e.kind == ErrorKind::Unauthorized && e.reason
                == Reason::MissingToken && e.http_code.is_none(),
        },
{
    match extract_gnap_token(authorization) {
        Some(token) => Ok(token),
        None => Err(Errors::unauthorized_new("Missing token")),
    }
}

/// The token of a credential request: that of the `Authorization` header of
/// the scheme `Bearer`. A request without such a header is `Unauthorized`.
pub fn authorize_bearer(authorization: Option<&str>) -> (r: Result<String, Errors>)
    ensures
        match authorization {
            Some(value) if has_prefix(value@, "Bearer "@) => r matches Ok(token) && token@
                == value@.skip("Bearer "@.len() as int),
            _ => r matches Err(e) && e.kind == ErrorKind::Unauthorized && e.reason
                == Reason::MissingToken && e.http_code.is_none(),
        },
{
    match extract_bearer_token(authorization) {
        Some(token) => Ok(token),
        None => Err(Errors::unauthorized_new("Missing token")),
    }
}

/// Scheme and host of a URL: what stands before its third `/`. A text with
/// fewer than three is returned whole.
pub fn trim_4_base(input: &str) -> (r: String)
    ensures
        r@ == spec_trim_4_base(input@),
{
    let chars = to_chars(input);
    let first = find_from(&chars, '/', 0);
    if first >= chars.len() {
        assert(input@.take(input@.len() as int) == input@);
        return String::from_str(input);
    }
    let second = find_from(&chars, '/', first + 1);
    if second >= chars.len() {
        assert(input@.take(input@.len() as int) == input@);
        return String::from_str(input);
    }
    let third = find_from(&chars, '/', second + 1);
    let head = input.substring_char(0, third);
    assert(head@ == input@.take(third as int));
    String::from_str(head)
}

/// A DID without its fragment, and the fragment where it has one.
pub fn split_did(did: &str) -> (r: (&str, Option<&str>))
    ensures
        r.0@ == spec_split_did(did@).0,
        match r.1 {
            Some(fragment) => spec_split_did(did@).1 == Some(fragment@),
            None => spec_split_did(did@).1.is_none(),
        },
{
    let chars = to_chars(did);
    let mut i: usize = 0;
    while i < chars.len()
        invariant
            i <= chars.len(),
            chars@ == did@,
            index_of(did@, '#') == index_from(did@, '#', i as int),
        decreases chars.len() - i,
    {
        if chars[i] == '#' {
            let head = did.substring_char(0, i);
            let tail = did.substring_char(i + 1, chars.len());
            assert(head@ == did@.take(i as int));
            assert(tail@ == did@.skip(i + 1));
            return (head, Some(tail));
        }
        i = i + 1;
    }
    (did, None)
}

/// A path without its last segment: what stands before the last `/`. A text
/// without one is returned whole.
pub fn trim_path(path: &str) -> (r: String)
    ensures
        last_index_of(path@, '/') >= 0 ==> r@ == path@.take(last_index_of(path@, '/')),
        last_index_of(path@, '/') < 0 ==> r@ == path@,
{
    let chars = to_chars(path);
    let mut i: usize = chars.len();
    assert(path@.take(i as int) == path@);
    while i > 0
        invariant
            i <= chars.len(),
            chars@ == path@,
            last_index_of(path@, '/') == last_index_of(path@.take(i as int), '/'),
        decreases i,
    {
        assert(path@.take(i as int).drop_last() == path@.take(i - 1));
        if chars[i - 1] == '/' {
            let head = path.substring_char(0, i - 1);
            assert(head@ == path@.take(i - 1));
            return String::from_str(head);
        }
        i = i - 1;
    }
    assert(path@.take(0).len() == 0);
    String::from_str(path)
}

/// The value reached by following `path` in `claims`, if every step exists.
fn walk<'a>(claims: &'a Json, path: &Vec<&str>) -> (r: Result<&'a Json, usize>)
    ensures
        match r {
            Ok(node) => claims@.at(path_texts(path@)) == Some(node@),
            Err(i) => i < path.len() && claims@.at(path_texts(path@)).is_none(),
        },
{
    let ghost keys = path_texts(path@);
    let mut node: &Json = claims;
    let mut i: usize = 0;
    assert(keys.skip(0) == keys);
    while i < path.len()
        invariant
            i <= path.len(),
            keys == path_texts(path@),
            claims@.at(keys) == node@.at(keys.skip(i as int)),
        decreases path.len() - i,
    {
        assert(keys.skip(i as int)[0] == path@[i as int]@);
        assert(keys.skip(i as int).drop_first() == keys.skip(i + 1));
        match node.get(path[i]) {
            Some(next) => {
                node = next;
            },
            None => {
                return Err(i);
            },
        }
        i = i + 1;
    }
    assert(keys.skip(i as int).len() == 0);
    Ok(node)
}

/// The string at `path` in `claims`. A path that leads nowhere fails with
/// `MissingField`, a value that is no string with `NotAString`; both are of
/// the class `BadFormat`.
pub fn get_claim(claims: &Json, path: Vec<&str>) -> (r: Result<String, Errors>)
    ensures
        match r {
            Ok(value) => claim_at(claims@, path_texts(path@)) == Ok::<Seq<char>, Reason>(value@),
            Err(e) => e.kind == ErrorKind::BadFormat && e.http_code.is_none() && claim_at(
                claims@,
                path_texts(path@),
            ) == Err::<Seq<char>, Reason>(e.reason),
        },
{
    match walk(claims, &path) {
        Ok(node) => match node.as_text() {
            Some(text) => Ok(text.clone()),
            None => Err(Errors::format_new(Reason::NotAString, last_key(&path))),
        },
        Err(i) => Err(Errors::format_new(Reason::MissingField, path[i])),
    }
}

/// The string at `path` in `claims`, or nothing where the path leads nowhere.
/// A value that is no string fails with `NotAString`, of the class `BadFormat`.
pub fn get_opt_claim(claims: &Json, path: Vec<&str>) -> (r: Result<Option<String>, Errors>)
    ensures
        match r {
            Ok(Some(value)) => opt_claim_at(claims@, path_texts(path@)) == Ok::<
                Option<Seq<char>>,
                Reason,
            >(Some(value@)),
            Ok(None) => opt_claim_at(claims@, path_texts(path@)) == Ok::<Option<Seq<char>>, Reason>(
                None,
            ),
            Err(e) => e.kind == ErrorKind::BadFormat && e.http_code.is_none() && opt_claim_at(
                claims@,
                path_texts(path@),
            ) == Err::<Option<Seq<char>>, Reason>(e.reason),
        },
{
    match walk(claims, &path) {
        Ok(node) => match node.as_text() {
            Some(text) => Ok(Some(text.clone())),
            None => Err(Errors::format_new(Reason::NotAString, last_key(&path))),
        },
        Err(_) => Ok(None),
    }
}

/// The last name of a path, or `unknown` for an empty one.
fn last_key<'a>(path: &Vec<&'a str>) -> (r: &'a str)
    ensures
        path.len() > 0 ==> r@ == path@[path.len() - 1]@,
        path.len() == 0 ==> r@ == "unknown"@,
{
    if path.len() > 0 {
        path[path.len() - 1]
    } else {
        "unknown"
    }
}

/// The value of an option, or a `BadFormat` failure with the reason
/// `MissingField` that names the field.
pub fn get_from_opt(value: &Option<String>, field_name: &str) -> (r: Result<String, Errors>)
    ensures
        match r {
            Ok(v) => *value == Some(v),
            Err(e) => value.is_none() && e.kind == ErrorKind::BadFormat && e.reason
                == Reason::MissingField && e.detail@ == field_name@ && e.http_code.is_none(),
        },
{
    match value {
        Some(v) => Ok(v.clone()),
        None => Err(Errors::format_new(Reason::MissingField, field_name)),
    }
}

/// The checks that the token library is asked to make: no claim is required,
/// expiry is not checked, `nbf` is, and the audience only where one is expected.
pub fn token_check(audience: Option<&str>) -> (check: TokenCheck)
    ensures
        check.required_claims@.len() == 0,
        !check.validate_exp,
        check.validate_nbf,
        match audience {
            Some(expected) => check.validate_aud && check.audience@.len() == 1
                && check.audience@[0]@ == expected@,
            None => !check.validate_aud && check.audience@.len() == 0,
        },
{
    let mut accepted: Vec<String> = Vec::new();
    let validate_aud = match audience {
        Some(expected) => {
            accepted.push(String::from_str(expected));
            true
        },
        None => false,
    };
    TokenCheck {
        required_claims: Vec::new(),
        validate_exp: false,
        validate_nbf: true,
        validate_aud,
        audience: accepted,
    }
}

/// The JSON Web Key that a `did:jwk` DID carries, as the bytes of its JSON
/// text: the DID without fragment and without scheme, decoded from URL-safe
/// base64. Any other text is refused as `BadFormat` with the reason
/// `InvalidKeyEncoding`.
pub fn jwk_of_did(did: &str) -> (r: Result<Vec<u8>, Errors>)
    ensures
        match r {
            Ok(bytes) => base64url_bytes(did_key_material(spec_split_did(did@).0)) == Some(bytes@),
            Err(e) => base64url_bytes(did_key_material(spec_split_did(did@).0)).is_none() && e.kind
                == ErrorKind::BadFormat && e.reason == Reason::InvalidKeyEncoding
                && e.http_code.is_none(),
        },
{
    let (base, _) = split_did(did);
    let material = replace_all(base, "did:jwk:", "");
    match base64url_decode(material.as_str()) {
        Ok(bytes) => Ok(bytes),
        Err(why) => Err(Errors::format_new(Reason::InvalidKeyEncoding, why.as_str())),
    }
}

/// What a validation answers once the token library has spoken: the claims
/// that it read, with the DID of the signer; or its refusal of the token, as
/// a `Security` failure with the reason `InvalidSignature` that carries what
/// the library said.
pub fn decoded_claims(decoded: Result<Json, String>, did: &str) -> (r: Result<
    (Json, String),
    Errors,
>)
    ensures
        match decoded {
            Ok(claims) => r matches Ok((read, signer)) && read == claims && signer@ == did@,
            Err(why) => r matches Err(e) && e.kind == ErrorKind::Security && e.reason
                == Reason::InvalidSignature && e.detail@ == why@ && e.http_code.is_none(),
        },
{
    match decoded {
        Ok(claims) => Ok((claims, String::from_str(did))),
        Err(why) => Err(Errors::security_new(Reason::InvalidSignature, why.as_str())),
    }
}

/// The key material that the key id `kid` carries: the bytes of a JSON Web
/// Key, decoded from URL-safe base64 out of the DID without fragment and
/// scheme. Nothing where that text is no such base64.
pub open spec fn key_material(kid: Seq<char>) -> Option<Seq<u8>> {
    base64url_bytes(did_key_material(spec_split_did(kid).0))
}

/// Why a token is refused for what it says of its key, before any signature
/// is looked at: its header cannot be read, it names no key, the key material
/// of its DID is no base64, the material holds no JSON Web Key, or no key can
/// be made of that. Nothing where the token names a key that can be used.
pub open spec fn key_refusal(token: Seq<char>) -> Option<Reason> {
    match jwt_header_kid(token) {
        None => Some(Reason::MalformedToken),
        Some(None) => Some(Reason::MissingKid),
        Some(Some(kid)) => match key_material(kid) {
            None => Some(Reason::InvalidKeyEncoding),
            Some(bytes) => match jwk_read(bytes) {
                None => Some(Reason::InvalidJwk),
                Some(jwk) => if jwk_key(jwk).is_none() {
                    Some(Reason::UnsupportedKey)
                } else {
                    None
                },
            },
        },
    }
}

/// The DID that a token names as its signer: its key id without fragment.
pub open spec fn token_signer(token: Seq<char>) -> Option<Seq<char>> {
    match jwt_header_kid(token) {
        Some(Some(kid)) => Some(spec_split_did(kid).0),
        _ => None,
    }
}

/// The signature of `token` holds under the key that the DID of its signer
/// carries.
pub open spec fn signed_by_its_key(token: Seq<char>) -> bool {
    &&& jwt_header_kid(token) matches Some(Some(kid))
    &&& key_material(kid) matches Some(bytes)
    &&& jwk_read(bytes) matches Some(jwk)
    &&& jwk_key(jwk) matches Some(key)
    &&& signed_under(token, key)
}

/// Validates a signed token whose key is named by a `did:jwk` in its header,
/// and returns its claims with the DID, without fragment.
///
/// The header is read, its `kid` split at `#`, the key material after
/// `did:jwk:` decoded from URL-safe base64 into a JWK, and the signature and
/// `nbf` checked with the key of that JWK and the algorithm of the header;
/// the audience is checked where `audience` is given.
///
/// A token that is refused for what it says of its key is refused as
/// `BadFormat`, for the reason that `key_refusal` gives, and no other token
/// is. A token that names a usable key is accepted only where its signature
/// holds under that key; its claims are then those of its payload. Whether it
/// is accepted is for the token library to say, at the time of the call; its
/// refusal is a `Security` failure with the reason `InvalidSignature`.
pub fn validate_token(token: &str, audience: Option<&str>) -> (r: Result<(Json, String), Errors>)
    ensures
        match key_refusal(token@) {
            Some(why) => r matches Err(e) && e.kind == ErrorKind::BadFormat && e.reason == why
                && e.http_code.is_none(),
            None => match r {
                Ok((claims, did)) => token_signer(token@) == Some(did@) && jwt_payload(token@)
                    == Some(claims@) && signed_by_its_key(token@),
                Err(e) => e.kind == ErrorKind::Security && e.reason == Reason::InvalidSignature
                    && e.http_code.is_none(),
            },
        },
{
    let (kid, alg) = match jwt_header(token) {
        Ok(header) => header,
        Err(why) => {
            return Err(Errors::format_new(Reason::MalformedToken, why.as_str()));
        },
    };
    let kid = match kid {
        Some(kid) => kid,
        None => {
            return Err(Errors::format_new(Reason::MissingKid, "kid"));
        },
    };
    let (did, _) = split_did(kid.as_str());
    let jwk_bytes = jwk_of_did(kid.as_str())?;
    let jwk = match jwk_from_json(&jwk_bytes) {
        Ok(jwk) => jwk,
        Err(why) => {
            return Err(Errors::format_new(Reason::InvalidJwk, why.as_str()));
        },
    };
    let key = match decoding_key(&jwk) {
        Ok(key) => key,
        Err(why) => {
            return Err(Errors::format_new(Reason::UnsupportedKey, why.as_str()));
        },
    };
    let check = token_check(audience);
    let decoded = match jwt_decode(token, &key, alg, &check) {
        Ok(value) => Ok(json_from_value(&value)),
        Err(why) => Err(why),
    };
    decoded_claims(decoded, did)
}

/// A token issued at `iat` is in force at `now` when `now` is not before `iat`.
pub fn is_active_at(iat: u64, now: &Instant) -> (r: Result<(), Errors>)
    ensures
        match r {
            Ok(_) => now.secs >= iat,
            Err(e) => now.secs < iat && e.kind == ErrorKind::Forbidden && e.reason
                == Reason::NotYetValid && e.http_code.is_none(),
        },
{
    if now.secs >= 0 && now.secs as u64 >= iat {
        Ok(())
    } else {
        Err(Errors::forbidden_new(Reason::NotYetValid, "Token is not yet valid"))
    }
}

/// A token that expires at `exp` is still good at `now` when `now` is not after `exp`.
pub fn has_expired_at(exp: u64, now: &Instant) -> (r: Result<(), Errors>)
    ensures
        match r {
            Ok(_) => now.secs <= exp,
            Err(e) => now.secs > exp && e.kind == ErrorKind::Forbidden && e.reason
                == Reason::Expired && e.http_code.is_none(),
        },
{
    if now.secs < 0 || now.secs as u64 <= exp {
        Ok(())
    } else {
        Err(Errors::forbidden_new(Reason::Expired, "Token has expired"))
    }
}

/// What a token issued at `iat` is answered with at the instant `at`: it is
/// in force when `at` is not before `iat`, and refused as `Forbidden` with
/// the reason `NotYetValid` otherwise.
pub open spec fn in_force_at(iat: u64, at: Instant, r: Result<(), Errors>) -> bool {
    match r {
        Ok(_) => at.secs >= iat,
        Err(e) => at.secs < iat && e.kind == ErrorKind::Forbidden && e.reason
            == Reason::NotYetValid && e.http_code.is_none(),
    }
}

/// What a token that expires at `exp` is answered with at the instant `at`:
/// it is still good when `at` is not after `exp`, and refused as `Forbidden`
/// with the reason `Expired` otherwise.
pub open spec fn still_good_at(exp: u64, at: Instant, r: Result<(), Errors>) -> bool {
    match r {
        Ok(_) => at.secs <= exp,
        Err(e) => at.secs > exp && e.kind == ErrorKind::Forbidden && e.reason == Reason::Expired
            && e.http_code.is_none(),
    }
}

/// Succeeds when a token issued at `iat` is in force at the time of the call.
/// A failure is of the class `Forbidden` with the reason `NotYetValid`.
///
/// The time of the call is an instant that is not before 1970, and the answer
/// is that of `is_active_at` at that instant. So a token issued at 0 is
/// always in force, and one issued later than any instant can be is never.
pub fn is_active(iat: u64) -> (r: Result<(), Errors>)
    ensures
        exists|at: Instant| at.secs >= 0 && #[trigger] in_force_at(iat, at, r),
        iat == 0 ==> r.is_ok(),
        iat > i64::MAX ==> r.is_err(),
        r matches Err(e) ==> e.kind == ErrorKind::Forbidden && e.reason == Reason::NotYetValid
            && e.http_code.is_none(),
{
    let t = now();
    let r = is_active_at(iat, &t);
    assert(in_force_at(iat, t, r));
    r
}

/// Succeeds when a token that expires at `exp` is still good at the time of
/// the call. A failure is of the class `Forbidden` with the reason `Expired`.
///
/// The time of the call is an instant that is not before 1970, and the answer
/// is that of `has_expired_at` at that instant. So a token that expires no
/// earlier than the last instant is always good, and one that expired before
/// 1970 would never be: `exp` cannot say so.
pub fn has_expired(exp: u64) -> (r: Result<(), Errors>)
    ensures
        exists|at: Instant| at.secs >= 0 && #[trigger] still_good_at(exp, at, r),
        exp >= i64::MAX ==> r.is_ok(),
        r matches Err(e) ==> e.kind == ErrorKind::Forbidden && e.reason == Reason::Expired
            && e.http_code.is_none(),
{
    let t = now();
    let r = has_expired_at(exp, &t);
    assert(still_good_at(exp, t, r));
    r
}

} // verus!
