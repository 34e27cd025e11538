use ds_authority::authority::{
    CeremonySeed, Core, CoreGatekeeperTrait, CoreIssuerTrait, CoreTrait, CoreVcsTrait,
    CoreVerifierTrait,
};
use ds_authority::clock::Instant;
use ds_authority::config::CoreApplicationConfig;
use ds_authority::data::entities::request::RequestStatus;
use ds_authority::data::entities::{interaction, issuing, request, verification};
use ds_authority::errors::{ErrorKind, Reason};
use ds_authority::json::{Json, Member};
use ds_authority::services::basic_issuer::{BasicIssuerConfig, BasicIssuerService, IssuerTrait};
use ds_authority::services::basic_verifier::{
    BasicVerifierConfig, BasicVerifierService, VerifierTrait,
};
use ds_authority::services::gnap::{EndOfVerification, GateKeeperTrait, GnapService};
use ds_authority::store::repo::{Ledger, RepoTrait};
use ds_authority::types::gnap::{
    Access4AT, AccessTokenRequirements4GR, Client4GR, Finish4Interact, GrantRequest, Interact4GR,
    Key4GR, RefBody,
};
use ds_authority::types::host::HostConfig;
use ds_authority::types::issuing::{CredentialRequest, DidPossession, Proof, TokenRequest};
use ds_authority::types::vc_type::VcType;
use ds_authority::types::vcs::VcDecisionApproval;
use ds_authority::utils::validate_token;
use base64::Engine;
use serde_json::{Number, Value};

type Authority = Core<GnapService, BasicIssuerService, BasicVerifierService, Ledger>;

// No key is kept in this file: the two RSA keys of these tests are made when
// a test runs, each from its own seed, so that every run has the same keys.

/// A generator of 64-bit words that depends on its seed alone.
struct Draw(u64);

impl Draw {
    fn next(&mut self) -> u64 {
        self.0 = self.0.wrapping_add(0x9E37_79B9_7F4A_7C15);
        let mut z = self.0;
        z = (z ^ (z >> 30)).wrapping_mul(0xBF58_476D_1CE4_E5B9);
        z = (z ^ (z >> 27)).wrapping_mul(0x94D0_49BB_1331_11EB);
        z ^ (z >> 31)
    }
}

const PUBLIC_EXPONENT: u64 = 65537;

// Numbers are vectors of 64-bit limbs, the lowest first.

/// `a` modulo `m`, for `m` below 2^32.
fn rem_small(a: &[u64], m: u64) -> u64 {
    let mut r: u64 = 0;
    for limb in a.iter().rev() {
        r = ((r << 32) | (limb >> 32)) % m;
        r = ((r << 32) | (limb & 0xFFFF_FFFF)) % m;
    }
    r
}

/// `a >= b`, for numbers of one length.
fn not_less(a: &[u64], b: &[u64]) -> bool {
    for i in (0..a.len()).rev() {
        if a[i] != b[i] {
            return a[i] > b[i];
        }
    }
    true
}

/// `a - b` modulo 2^(64 * length), in place.
fn take_away(a: &mut [u64], b: &[u64]) {
    let mut borrow = false;
    for i in 0..a.len() {
        let (x, first) = a[i].overflowing_sub(b[i]);
        let (y, second) = x.overflowing_sub(u64::from(borrow));
        a[i] = y;
        borrow = first || second;
    }
}

/// The number `value` in `length` limbs.
fn small(value: u64, length: usize) -> Vec<u64> {
    let mut limbs = vec![0u64; length];
    limbs[0] = value;
    limbs
}

/// `a * b`.
fn times(a: &[u64], b: &[u64]) -> Vec<u64> {
    let mut out = vec![0u64; a.len() + b.len()];
    for i in 0..a.len() {
        let mut carry: u128 = 0;
        for j in 0..b.len() {
            let cur = u128::from(out[i + j]) + u128::from(a[i]) * u128::from(b[j]) + carry;
            out[i + j] = cur as u64;
            carry = cur >> 64;
        }
        out[i + b.len()] = carry as u64;
    }
    out
}

/// Arithmetic modulo an odd number, in Montgomery form.
struct Field {
    modulus: Vec<u64>,
    factor: u64,
    one: Vec<u64>,
    square: Vec<u64>,
}

fn field(modulus: &[u64]) -> Field {
    let k = modulus.len();
    let mut inverse = modulus[0];
    for _ in 0..6 {
        inverse = inverse.wrapping_mul(2u64.wrapping_sub(modulus[0].wrapping_mul(inverse)));
    }
    let mut x = small(1, k);
    let mut one = Vec::new();
    for step in 0..128 * k {
        if step == 64 * k {
            one = x.clone();
        }
        let carry = x[k - 1] >> 63;
        for i in (1..k).rev() {
            x[i] = (x[i] << 1) | (x[i - 1] >> 63);
        }
        x[0] <<= 1;
        if carry == 1 || not_less(&x, modulus) {
            take_away(&mut x, modulus);
        }
    }
    Field { modulus: modulus.to_vec(), factor: inverse.wrapping_neg(), one, square: x }
}

/// The Montgomery product of `a` and `b`.
fn product(f: &Field, a: &[u64], b: &[u64]) -> Vec<u64> {
    let k = f.modulus.len();
    let mut t = vec![0u64; k + 2];
    for i in 0..k {
        let mut carry: u128 = 0;
        for j in 0..k {
            let cur = u128::from(t[j]) + u128::from(a[j]) * u128::from(b[i]) + carry;
            t[j] = cur as u64;
            carry = cur >> 64;
        }
        let cur = u128::from(t[k]) + carry;
        t[k] = cur as u64;
        t[k + 1] = (cur >> 64) as u64;
        let q = t[0].wrapping_mul(f.factor);
        let cur = u128::from(t[0]) + u128::from(q) * u128::from(f.modulus[0]);
        let mut carry = cur >> 64;
        for j in 1..k {
            let cur = u128::from(t[j]) + u128::from(q) * u128::from(f.modulus[j]) + carry;
            t[j - 1] = cur as u64;
            carry = cur >> 64;
        }
        let cur = u128::from(t[k]) + carry;
        t[k - 1] = cur as u64;
        t[k] = t[k + 1] + (cur >> 64) as u64;
    }
    let mut r = t[..k].to_vec();
    if t[k] != 0 || not_less(&r, &f.modulus) {
        take_away(&mut r, &f.modulus);
    }
    r
}

/// `base` to the power `exponent`, both results and `base` in Montgomery form.
fn raise(f: &Field, base: &[u64], exponent: &[u64]) -> Vec<u64> {
    let mut acc = f.one.clone();
    for limb in exponent.iter().rev() {
        for bit in (0..64).rev() {
            acc = product(f, &acc, &acc);
            if (limb >> bit) & 1 == 1 {
                acc = product(f, &acc, base);
            }
        }
    }
    acc
}

/// The odd primes below 2000.
fn small_primes() -> Vec<u64> {
    let mut primes: Vec<u64> = Vec::new();
    let mut candidate: u64 = 3;
    while candidate < 2000 {
        if primes.iter().all(|p| candidate % p != 0) {
            primes.push(candidate);
        }
        candidate += 2;
    }
    primes
}

/// The test of Miller and Rabin on an odd number, after a division by the
/// small primes.
fn is_prime(n: &[u64], primes: &[u64]) -> bool {
    if primes.iter().any(|p| rem_small(n, *p) == 0) {
        return false;
    }
    let k = n.len();
    let f = field(n);
    let mut minus_one = n.to_vec();
    take_away(&mut minus_one, &f.one);
    let mut d = n.to_vec();
    d[0] -= 1;
    let mut twos: u32 = 0;
    while d[0] & 1 == 0 {
        for i in 0..k {
            let above = if i + 1 < k { d[i + 1] << 63 } else { 0 };
            d[i] = (d[i] >> 1) | above;
        }
        twos += 1;
    }
    for witness in [2u64, 3, 5, 7, 11, 13, 17, 19] {
        let base = product(&f, &small(witness, k), &f.square);
        let mut x = raise(&f, &base, &d);
        if x == f.one || x == minus_one {
            continue;
        }
        let mut passed = false;
        for _ in 1..twos {
            x = product(&f, &x, &x);
            if x == minus_one {
                passed = true;
                break;
            }
        }
        if !passed {
            return false;
        }
    }
    true
}

/// A prime of 1024 bits with its two highest bits set, one less than which
/// the public exponent does not divide.
fn prime(draw: &mut Draw, primes: &[u64]) -> Vec<u64> {
    let mut candidate: Vec<u64> = (0..16).map(|_| draw.next()).collect();
    candidate[15] |= 0xC000_0000_0000_0000;
    candidate[0] |= 1;
    loop {
        if rem_small(&candidate, PUBLIC_EXPONENT) != 1 && is_prime(&candidate, primes) {
            return candidate;
        }
        let mut i: usize = 0;
        let (sum, mut carry) = candidate[0].overflowing_add(2);
        candidate[0] = sum;
        while carry {
            i += 1;
            let (sum, over) = candidate[i].overflowing_add(1);
            candidate[i] = sum;
            carry = over;
        }
    }
}

/// The inverse of the public exponent modulo `l`, which it does not divide.
fn private_exponent(l: &[u64]) -> Vec<u64> {
    let e = PUBLIC_EXPONENT;
    let mut inverse: u64 = 1;
    let mut base = rem_small(l, e);
    let mut power = e - 2;
    while power > 0 {
        if power & 1 == 1 {
            inverse = inverse * base % e;
        }
        base = base * base % e;
        power >>= 1;
    }
    // 1 + k * l is a multiple of e, and the quotient is the inverse.
    let k = (e - inverse) % e;
    let mut sum = vec![0u64; l.len() + 1];
    let mut carry: u128 = 1;
    for i in 0..l.len() {
        let cur = u128::from(l[i]) * u128::from(k) + carry;
        sum[i] = cur as u64;
        carry = cur >> 64;
    }
    sum[l.len()] = carry as u64;
    let mut rest: u128 = 0;
    for i in (0..sum.len()).rev() {
        let cur = (rest << 64) | u128::from(sum[i]);
        sum[i] = (cur / u128::from(e)) as u64;
        rest = cur % u128::from(e);
    }
    assert_eq!(rest, 0);
    sum
}

/// The bytes of a number, the highest first, without leading zeros.
fn big_endian(limbs: &[u64]) -> Vec<u8> {
    let bytes: Vec<u8> = limbs.iter().rev().flat_map(|limb| limb.to_be_bytes()).collect();
    let zeros = bytes.iter().take_while(|b| **b == 0).count();
    bytes[zeros..].to_vec()
}

fn der(tag: u8, content: Vec<u8>) -> Vec<u8> {
    let mut out = vec![tag];
    let length = content.len();
    if length < 128 {
        out.push(length as u8);
    } else if length < 256 {
        out.extend([0x81, length as u8]);
    } else {
        out.extend([0x82, (length >> 8) as u8, length as u8]);
    }
    out.extend(content);
    out
}

fn der_integer(limbs: &[u64]) -> Vec<u8> {
    let mut bytes = big_endian(limbs);
    if bytes.first().map_or(true, |b| b & 0x80 != 0) {
        bytes.insert(0, 0);
    }
    der(0x02, bytes)
}

/// DER bytes under a label, in the PEM form.
fn pem_text(label: &str, bytes: &[u8]) -> String {
    let body = base64::engine::general_purpose::STANDARD.encode(bytes);
    let mut text = format!("-----BEGIN {label}-----\n");
    for line in body.as_bytes().chunks(64) {
        text.push_str(std::str::from_utf8(line).unwrap());
        text.push('\n');
    }
    text.push_str(&format!("-----END {label}-----\n"));
    text
}

/// An RSA key of 2048 bits: the private key in PEM, the public key as a JWK,
/// and the `did:jwk` of the public key.
struct TestKey {
    pem: String,
    jwk: String,
    did: String,
}

fn test_key(seed: u64) -> TestKey {
    let primes = small_primes();
    let mut draw = Draw(seed);
    let mut p = prime(&mut draw, &primes);
    let mut q = prime(&mut draw, &primes);
    if !not_less(&p, &q) {
        std::mem::swap(&mut p, &mut q);
    }
    let n = times(&p, &q);
    let mut p_less = p.clone();
    p_less[0] -= 1;
    let mut q_less = q.clone();
    q_less[0] -= 1;
    let d = private_exponent(&times(&p_less, &q_less));
    let f = field(&p);
    let mut p_less_two = p.clone();
    take_away(&mut p_less_two, &small(2, p.len()));
    let q_inverse = product(
        &f,
        &raise(&f, &product(&f, &q, &f.square), &p_less_two),
        &small(1, p.len()),
    );
    let mut content = Vec::new();
    for part in [
        small(0, 1),
        n.clone(),
        small(PUBLIC_EXPONENT, 1),
        d,
        p,
        q,
        private_exponent(&p_less),
        private_exponent(&q_less),
        q_inverse,
    ] {
        content.extend(der_integer(&part));
    }
    let jwk = format!(
        "{{\"kty\":\"RSA\",\"n\":\"{}\",\"e\":\"AQAB\"}}",
        base64::engine::general_purpose::URL_SAFE_NO_PAD.encode(big_endian(&n))
    );
    TestKey { pem: pem_text("RSA PRIVATE KEY", &der(0x30, content)), did: did_of(&jwk), jwk }
}

/// The keys of these tests, made once in each run: first that of the
/// authority, then that of the holder.
static KEYS: std::sync::OnceLock<(TestKey, TestKey)> = std::sync::OnceLock::new();

fn keys() -> &'static (TestKey, TestKey) {
    KEYS.get_or_init(|| (test_key(1), test_key(2)))
}

fn authority_pem() -> String {
    keys().0.pem.clone()
}

fn authority_jwk() -> String {
    keys().0.jwk.clone()
}

fn authority_did() -> String {
    keys().0.did.clone()
}

fn holder_pem() -> String {
    keys().1.pem.clone()
}

fn holder_did() -> String {
    keys().1.did.clone()
}

// The certificate that the client of these tests presents.
const HOLDER_CERT: &str = "MIICvjCCAaagAwIBAgICA+gwDQYJKoZIhvcNAQELBQAwIjEgMB4GA1UEAwwXcGFydGljaXBhbnQuZXhhbXBsZS5vcmcwHhcNMjQwMTAxMDAwMDAwWhcNMzQwMTAxMDAwMDAwWjAiMSAwHgYDVQQDDBdwYXJ0aWNpcGFudC5leGFtcGxlLm9yZzCCASIwDQYJKoZIhvcNAQEBBQADggEPADCCAQoCggEBAO/5CS0fZal+Z6q0y8O7gBiiGZ/gJwtyLD9PHfQkHppjHqrJkEbqTQtIVIBvXKGQrLcx/5LIZRur1DvDYMK5+mKJIvjUdn5SNA6fzsvlS1PdVd22j9taLWvfHMldJBBOYUXdEeLhDwhhplFC3aAK12N3oI5XCbQTEoZ1C06qBBV/flMPRBZLQ6fdXAAXW0svp+vaYXEKGLkIdESCgPU7aYPnekEhTneE1q2w6DXmBB06Wdq50Lk4vQ8Yav+MR/X7w3PGtk26mHR8wlgSyDYlEMGmuc0WNbyAWoBub2WK66YRNg16Yo0AEyz0HI0SEOt9FawV+obphXBxmFF9jEsKZIUCAwEAATANBgkqhkiG9w0BAQsFAAOCAQEAyY+FOfojpIYj2KNuYCa9r6LQsOScDLelYez9E5MnT6RGa645BsSHG0cthTNuuQJvYfu6UPWsUpGolhi22acfOrZ+QUr6fOkpGiXQkARL+fJH31xqglKmSca5XlG2H641VVWiaONO5c5uxpo79Pk4EwvCBFZM6uJSpxCg6hWKMQy5JRasnQwXvKRC+TR3ep6GmLv1Ad7Z0lY0G7QHkA22Lmf5aguR6URWSIQfpg0ODq676ZkbWyMNP2LURhB5mSQQhY3FOo2ksekBGXJxySX8gISlO3aL6jS6PUmv4GBRf8LFwnVdRy8C+4QPo8m8cYSsZXA5hTsRlYBVfq2oiPuxTg==";

fn obj(members: Vec<(&str, Value)>) -> Value {
    let mut map = serde_json::Map::new();
    for (name, value) in members {
        map.insert(name.to_string(), value);
    }
    Value::Object(map)
}

fn s(value: &str) -> Value {
    Value::String(value.to_string())
}

fn n(value: u64) -> Value {
    Value::Number(Number::from(value))
}

fn sign(pem: &str, kid: Option<&str>, claims: &Value) -> String {
    let mut header = jsonwebtoken::Header::new(jsonwebtoken::Algorithm::RS256);
    header.kid = kid.map(|k| k.to_string());
    let key = jsonwebtoken::EncodingKey::from_rsa_pem(pem.as_bytes()).unwrap();
    jsonwebtoken::encode(&header, claims, &key).unwrap()
}

fn decode_unchecked(token: &str, jwk: &str) -> Value {
    let jwk: jsonwebtoken::jwk::Jwk = serde_json::from_str(jwk).unwrap();
    let key = jsonwebtoken::DecodingKey::from_jwk(&jwk).unwrap();
    let mut validation = jsonwebtoken::Validation::new(jsonwebtoken::Algorithm::RS256);
    validation.required_spec_claims.clear();
    validation.validate_exp = false;
    validation.validate_aud = false;
    jsonwebtoken::decode::<Value>(token, &key, &validation).unwrap().claims
}

fn unix_now() -> u64 {
    std::time::SystemTime::now().duration_since(std::time::UNIX_EPOCH).unwrap().as_secs()
}

fn did_of(jwk_json: &str) -> String {
    format!("did:jwk:{}", base64::engine::general_purpose::URL_SAFE_NO_PAD.encode(jwk_json))
}

fn host(url: &str) -> HostConfig {
    HostConfig { protocol: "http".to_string(), url: url.to_string(), port: Some("1500".to_string()) }
}

fn verifier_at(url: &str, is_local: bool) -> BasicVerifierService {
    BasicVerifierService::new(BasicVerifierConfig {
        host: host(url),
        is_local,
        api_path: "/api/v1".to_string(),
    })
}

fn issuer_at(url: &str, is_local: bool) -> BasicIssuerService {
    BasicIssuerService::new(BasicIssuerConfig {
        host: host(url),
        is_local,
        keys_path: "keys".to_string(),
        api_path: "/api/v1".to_string(),
    })
}

fn new_core() -> Authority {
    let config = CoreApplicationConfig::default();
    Core::new(
        GnapService::new(config.gnap_config()),
        BasicIssuerService::new(config.issuer_config()),
        BasicVerifierService::new(config.verifier_config()),
        Ledger::new(),
    )
}

fn grant(start: &[&str], method: &str, vc_type: &str) -> GrantRequest {
    GrantRequest {
        access_token: AccessTokenRequirements4GR { access: Access4AT { kind: vc_type.to_string() } },
        client: Client4GR {
            key: Key4GR { cert: Some(HOLDER_CERT.to_string()) },
            class_id: Some("acme".to_string()),
        },
        interact: Some(Interact4GR {
            start: start.iter().map(|m| m.to_string()).collect(),
            finish: Finish4Interact {
                method: method.to_string(),
                uri: Some("http://client.example/cb".to_string()),
                nonce: "client-nonce".to_string(),
                hash_method: "sha-256".to_string(),
            },
            hints: None,
        }),
    }
}

fn seed(tag: &str) -> CeremonySeed {
    CeremonySeed {
        id: format!("ceremony-{tag}"),
        continue_token: format!("continue-token-{tag}"),
        interaction: interaction::Seed {
            continue_id: format!("ceremony-{tag}"),
            as_nonce: format!("as-nonce-{tag}"),
            interact_ref: format!("interact-ref-{tag}"),
            hash: format!("hash-{tag}"),
        },
        verification: verification::Seed {
            state: format!("state-{tag}"),
            nonce: format!("nonce-{tag}"),
        },
    }
}

fn issuing_seed(tag: &str) -> issuing::Seed {
    issuing::Seed {
        tx_code: format!("tx-{tag}"),
        pre_auth_code: format!("pre-{tag}"),
        token: format!("bearer-{tag}"),
        credential_id: format!("urn:credential:{tag}"),
    }
}

fn stored_verification() -> verification::Model {
    verification::Model {
        id: "ceremony-1".to_string(),
        audience: "http://authority.example:1500/api/v1/verifier/verify".to_string(),
        vc_type: "IdentityCredential".to_string(),
        state: "state-1".to_string(),
        nonce: "nonce-1".to_string(),
        holder: None,
        vpt: None,
    }
}

fn stored_issuing() -> issuing::Model {
    issuing::Model {
        id: "ceremony-1".to_string(),
        name: "ACME".to_string(),
        vc_type: "DataspaceParticipantCredential".to_string(),
        uri: "openid-credential-offer://x".to_string(),
        aud: "http://authority.example:1500/api/v1/issuer".to_string(),
        tx_code: "tx-1".to_string(),
        pre_auth_code: "pre-1".to_string(),
        token: "bearer-1".to_string(),
        did: Some(holder_did()),
        credential_id: "urn:credential:1".to_string(),
        credential: None,
        step: true,
    }
}

/// A credential as a wallet would present it to this verifier.
fn vc_claims(valid_from: &str, valid_until: &str) -> Value {
    obj(vec![
        ("iss", s(authority_did().as_str())),
        ("sub", s(holder_did().as_str())),
        ("jti", s("urn:vc:1")),
        (
            "vc",
            obj(vec![
                ("id", s("urn:vc:1")),
                ("issuer", obj(vec![("id", s(authority_did().as_str()))])),
                ("CredentialSubject", obj(vec![("id", s(holder_did().as_str()))])),
                ("validFrom", s(valid_from)),
                ("validUntil", s(valid_until)),
            ]),
        ),
    ])
}

fn good_vc() -> String {
    sign(authority_pem().as_str(), Some(authority_did().as_str()), &vc_claims("2020-01-01T00:00:00Z", "2999-01-01T00:00:00Z"))
}

fn vp_claims(audience: &str, nonce: &str, id: &str, vcs: Vec<String>) -> Value {
    obj(vec![
        ("aud", s(audience)),
        ("iss", s(holder_did().as_str())),
        ("sub", s(holder_did().as_str())),
        ("nonce", s(nonce)),
        (
            "vp",
            obj(vec![
                ("id", s(id)),
                ("holder", s(holder_did().as_str())),
                ("verifiableCredential", Value::Array(vcs.into_iter().map(Value::String).collect())),
            ]),
        ),
    ])
}

fn json_of(value: &Value) -> Json {
    match value {
        Value::Null => Json::Null,
        Value::Bool(b) => Json::Bool(*b),
        Value::Number(number) => Json::Number(number.to_string()),
        Value::String(text) => Json::Text(text.clone()),
        Value::Array(items) => Json::Array(items.iter().map(json_of).collect()),
        Value::Object(map) => Json::Object(
            map.iter().map(|(k, v)| Member { name: k.clone(), value: json_of(v) }).collect(),
        ),
    }
}

fn value_of(json: &Json) -> Value {
    match json {
        Json::Null => Value::Null,
        Json::Bool(b) => Value::Bool(*b),
        Json::Number(text) => Value::Number(text.parse().unwrap()),
        Json::Text(text) => Value::String(text.clone()),
        Json::Array(items) => Value::Array(items.iter().map(value_of).collect()),
        Json::Object(members) => {
            Value::Object(members.iter().map(|m| (m.name.clone(), value_of(&m.value))).collect())
        }
    }
}

fn with(mut value: Value, path: &[&str], replacement: Option<Value>) -> Value {
    let mut node = &mut value;
    for key in &path[..path.len() - 1] {
        node = node.get_mut(*key).unwrap();
    }
    let last = path[path.len() - 1];
    match replacement {
        Some(v) => {
            node.as_object_mut().unwrap().insert(last.to_string(), v);
        }
        None => {
            node.as_object_mut().unwrap().remove(last);
        }
    }
    value
}

// ---------------------------------------------------------------- token validation

#[test]
fn a_signed_token_gives_its_claims_and_the_did_without_fragment() {
    let claims = obj(vec![("nonce", s("n-1")), ("iat", n(5))]);
    let kid = format!("{}#0", holder_did());
    let token = sign(holder_pem().as_str(), Some(&kid), &claims);
    let (found, did) = validate_token(&token, None).unwrap();
    assert_eq!(did, holder_did().as_str());
    assert_eq!(value_of(&found), claims);
    assert_eq!(found.get("iat").unwrap().as_unsigned(), Some(5));
    let (_, did) = validate_token(&sign(holder_pem().as_str(), Some(holder_did().as_str()), &claims), None).unwrap();
    assert_eq!(did, holder_did().as_str());
}

#[test]
fn the_audience_is_checked_where_one_is_expected() {
    assert_eq!(
        verifier_at("127.0.0.1", true).audience_for("state-1"),
        "http://host.docker.internal:1500/api/v1/verifier/verify/state-1"
    );
    let token = sign(holder_pem().as_str(), Some(holder_did().as_str()), &obj(vec![("aud", s("http://a/verify/s"))]));
    assert!(validate_token(&token, Some("http://a/verify/s")).is_ok());
    assert!(validate_token(&token, None).is_ok());
    let e = validate_token(&token, Some("http://a/verify/other")).unwrap_err();
    assert_eq!((e.kind, e.reason), (ErrorKind::Security, Reason::InvalidSignature));
    let many = sign(
        holder_pem().as_str(),
        Some(holder_did().as_str()),
        &obj(vec![("aud", Value::Array(vec![s("http://b"), s("http://a/verify/s")]))]),
    );
    assert!(validate_token(&many, Some("http://a/verify/s")).is_ok());
    let none = sign(holder_pem().as_str(), Some(holder_did().as_str()), &obj(vec![("nonce", s("x"))]));
    assert!(validate_token(&none, Some("http://a/verify/s")).is_ok());
}

#[test]
fn tokens_that_the_token_alone_condemns() {
    let e = validate_token("not a token", None).unwrap_err();
    assert_eq!((e.kind, e.reason), (ErrorKind::BadFormat, Reason::MalformedToken));
    let e = validate_token("a.b", None).unwrap_err();
    assert_eq!(e.reason, Reason::MalformedToken);
    let e = validate_token("", None).unwrap_err();
    assert_eq!(e.reason, Reason::MalformedToken);

    let claims = obj(vec![("nonce", s("n"))]);
    let e = validate_token(&sign(holder_pem().as_str(), None, &claims), None).unwrap_err();
    assert_eq!((e.kind, e.reason), (ErrorKind::BadFormat, Reason::MissingKid));

    let e = validate_token(&sign(holder_pem().as_str(), Some("did:jwk:***"), &claims), None).unwrap_err();
    assert_eq!((e.kind, e.reason), (ErrorKind::BadFormat, Reason::InvalidKeyEncoding));
    let e = validate_token(&sign(holder_pem().as_str(), Some("did:web:example.org"), &claims), None).unwrap_err();
    assert_eq!(e.reason, Reason::InvalidKeyEncoding);

    let e = validate_token(&sign(holder_pem().as_str(), Some(&did_of("hello")), &claims), None).unwrap_err();
    assert_eq!((e.kind, e.reason), (ErrorKind::BadFormat, Reason::InvalidJwk));
    let e = validate_token(&sign(holder_pem().as_str(), Some(&did_of("{\"kty\":\"RSA\"}")), &claims), None)
        .unwrap_err();
    assert_eq!(e.reason, Reason::InvalidJwk);

    let broken = did_of("{\"kty\":\"RSA\",\"n\":\"!!\",\"e\":\"AQAB\"}");
    let e = validate_token(&sign(holder_pem().as_str(), Some(&broken), &claims), None).unwrap_err();
    assert_eq!((e.kind, e.reason), (ErrorKind::BadFormat, Reason::UnsupportedKey));
}

#[test]
fn tokens_that_the_signature_condemns() {
    let claims = obj(vec![("nonce", s("n"))]);
    let token = sign(holder_pem().as_str(), Some(holder_did().as_str()), &claims);
    let mut forged = token.clone();
    let last = forged.pop().unwrap();
    forged.push(if last == 'A' { 'B' } else { 'A' });
    let e = validate_token(&forged, None).unwrap_err();
    assert_eq!((e.kind, e.reason), (ErrorKind::Security, Reason::InvalidSignature));

    let stolen = sign(authority_pem().as_str(), Some(holder_did().as_str()), &claims);
    assert_eq!(validate_token(&stolen, None).unwrap_err().reason, Reason::InvalidSignature);

    let premature = sign(holder_pem().as_str(), Some(holder_did().as_str()), &obj(vec![("nbf", n(unix_now() + 100_000))]));
    let e = validate_token(&premature, None).unwrap_err();
    assert_eq!((e.kind, e.reason), (ErrorKind::Security, Reason::InvalidSignature));
    let mature = sign(holder_pem().as_str(), Some(holder_did().as_str()), &obj(vec![("nbf", n(unix_now() - 1000))]));
    assert!(validate_token(&mature, None).is_ok());
    let expired = sign(holder_pem().as_str(), Some(holder_did().as_str()), &obj(vec![("exp", n(1))]));
    assert!(validate_token(&expired, None).is_ok());
}

// ---------------------------------------------------------------- verifier

#[test]
fn a_verification_is_addressed_to_this_server() {
    let new = verifier_at("authority.example", false).start_vp("ceremony-1", VcType::Identity).unwrap();
    assert_eq!(
        new,
        verification::NewModel {
            id: "ceremony-1".to_string(),
            audience: "http://authority.example:1500/api/v1/verifier/verify".to_string(),
            vc_type: "IdentityCredential".to_string(),
        }
    );
    let local = verifier_at("127.0.0.1", true).start_vp("c", VcType::DataSpaceParticipant).unwrap();
    assert_eq!(local.audience, "http://host.docker.internal:1500/api/v1/verifier/verify");
    assert_eq!(local.vc_type, "DataspaceParticipantCredential");
    let plain = verifier_at("127.0.0.1", false).start_vp("c", VcType::Identity).unwrap();
    assert_eq!(plain.audience, "http://127.0.0.1:1500/api/v1/verifier/verify");
}

#[test]
fn the_verification_uri_carries_every_value_percent_encoded() {
    let mut model = stored_verification();
    model.nonce = "nonce 1/é".to_string();
    let uri = verifier_at("authority.example", false).generate_verification_uri(model);
    assert_eq!(
        uri,
        "openid4vp://authorize?response_type=vp_token\
         &client_id=http%3A%2F%2Fauthority.example%3A1500%2Fapi%2Fv1%2Fverifier%2Fverify\
         &response_mode=direct_post\
         &presentation_definition_uri=http%3A%2F%2Fauthority.example%3A1500%2Fapi%2Fv1%2Fverifier%2Fpd%2Fstate-1\
         &client_id_scheme=redirect_uri\
         &nonce=nonce%201%2F%C3%A9\
         &response_uri=http%3A%2F%2Fauthority.example%3A1500%2Fapi%2Fv1%2Fverifier%2Fverify%2Fstate-1"
    );
    let local = verifier_at("127.0.0.1", true).generate_verification_uri(stored_verification());
    assert!(local.contains("response_uri=http%3A%2F%2Fhost.docker.internal%3A1500%2Fapi%2Fv1%2Fverifier%2Fverify%2Fstate-1"));
    assert!(local.contains("&nonce=nonce-1&"));
}

#[test]
fn the_presentation_definition_asks_for_the_type_of_the_ceremony() {
    let definition = verifier_at("a", false).generate_vpd(stored_verification());
    assert_eq!(definition.id, "ceremony-1");
    assert_eq!(definition.input_descriptors.len(), 1);
    assert_eq!(definition.input_descriptors[0].pattern, "IdentityCredential");
}

#[test]
fn the_claims_of_a_presentation_are_checked_in_order() {
    let svc = verifier_at("authority.example", false);
    let good = vp_claims("aud", "nonce-1", "ceremony-1", vec!["vc-1".to_string(), "vc-2".to_string()]);
    let mut model = stored_verification();
    let vcs = svc.check_vp_claims(&mut model, &json_of(&good), holder_did().as_str()).unwrap();
    assert_eq!(vcs, vec!["vc-1".to_string(), "vc-2".to_string()]);
    assert_eq!(model.holder, Some(holder_did()));

    let check = |claims: Value| {
        let mut model = stored_verification();
        let e = svc.check_vp_claims(&mut model, &json_of(&claims), holder_did().as_str()).unwrap_err();
        assert_eq!(e.kind, ErrorKind::Security);
        (e.reason, model.holder)
    };
    let bound = Some(holder_did());
    assert_eq!(check(with(good.clone(), &["nonce"], Some(s("other")))), (Reason::NonceMismatch, None));
    assert_eq!(check(with(good.clone(), &["nonce"], None)), (Reason::MissingField, None));
    assert_eq!(check(with(good.clone(), &["nonce"], Some(n(1)))), (Reason::NotAString, None));
    assert_eq!(check(with(good.clone(), &["sub"], Some(s("did:x")))), (Reason::SubjectMismatch, None));
    assert_eq!(check(with(good.clone(), &["iss"], Some(s("did:x")))), (Reason::IssuerMismatch, None));
    assert_eq!(check(with(good.clone(), &["iss"], Some(Value::Null))), (Reason::NotAString, None));
    assert_eq!(
        check(with(good.clone(), &["vp", "id"], Some(s("ceremony-2")))),
        (Reason::PresentationIdMismatch, bound.clone())
    );
    assert_eq!(check(with(good.clone(), &["vp", "id"], None)), (Reason::MissingField, bound.clone()));
    assert_eq!(
        check(with(good.clone(), &["vp", "holder"], Some(s("did:x")))),
        (Reason::HolderMismatch, bound.clone())
    );
    assert_eq!(
        check(with(good.clone(), &["vp", "verifiableCredential"], None)),
        (Reason::NotAList, bound.clone())
    );
    assert_eq!(
        check(with(good.clone(), &["vp", "verifiableCredential"], Some(s("vc")))),
        (Reason::NotAList, bound.clone())
    );
    assert_eq!(
        check(with(good.clone(), &["vp", "verifiableCredential"], Some(Value::Array(vec![n(1)])))),
        (Reason::NotAList, bound.clone())
    );
    let both_wrong = with(with(good.clone(), &["nonce"], Some(s("x"))), &["vp", "id"], Some(s("y")));
    assert_eq!(check(both_wrong), (Reason::NonceMismatch, None));

    let anonymous = with(with(good.clone(), &["sub"], None), &["iss"], None);
    let mut model = stored_verification();
    assert!(svc.check_vp_claims(&mut model, &json_of(&anonymous), holder_did().as_str()).is_ok());
}

#[test]
fn each_check_of_a_presentation_stands_alone() {
    let svc = verifier_at("authority.example", false);
    let good = json_of(&vp_claims("aud", "nonce-1", "ceremony-1", vec![]));
    let mut model = stored_verification();
    assert!(svc.validate_nonce(&model, &good).is_ok());
    assert!(svc.validate_vp_id(&model, &good).is_ok());
    assert_eq!(svc.validate_holder(&model, &good).unwrap_err().reason, Reason::HolderMismatch);
    assert!(svc.validate_vp_subject(&mut model, &good, holder_did().as_str()).is_ok());
    assert_eq!(model.holder, Some(holder_did()));
    assert!(svc.validate_holder(&model, &good).is_ok());
    assert_eq!(svc.retrieve_vcs(&good).unwrap(), Vec::<String>::new());
    let mut other = stored_verification();
    assert_eq!(
        svc.validate_vp_subject(&mut other, &good, "did:jwk:other").unwrap_err().reason,
        Reason::SubjectMismatch
    );
    assert_eq!(other.holder, None);
    other.nonce = "another".to_string();
    assert_eq!(svc.validate_nonce(&other, &good).unwrap_err().reason, Reason::NonceMismatch);
    other.id = "another".to_string();
    assert_eq!(svc.validate_vp_id(&other, &good).unwrap_err().reason, Reason::PresentationIdMismatch);
}

#[test]
fn the_claims_of_a_credential_are_checked_in_order() {
    let svc = verifier_at("authority.example", false);
    let now = Instant { secs: 1_700_000_000, nanos: 0 };
    let good = vc_claims("2020-01-01T00:00:00Z", "2030-01-01T00:00:00Z");
    assert!(svc.check_vc_claims(&json_of(&good), authority_did().as_str(), holder_did().as_str(), &now).is_ok());
    let check = |claims: Value| {
        let e = svc.check_vc_claims(&json_of(&claims), authority_did().as_str(), holder_did().as_str(), &now).unwrap_err();
        assert_eq!(e.kind, ErrorKind::Security);
        e.reason
    };
    assert_eq!(check(with(good.clone(), &["iss"], Some(s("did:x")))), Reason::IssuerMismatch);
    assert_eq!(check(with(good.clone(), &["vc", "issuer", "id"], Some(s("did:x")))), Reason::IssuerMismatch);
    assert_eq!(check(with(good.clone(), &["vc", "issuer"], None)), Reason::MissingField);
    assert_eq!(check(with(good.clone(), &["jti"], Some(s("urn:vc:2")))), Reason::CredentialIdMismatch);
    assert_eq!(check(with(good.clone(), &["vc", "id"], Some(n(1)))), Reason::NotAString);
    assert_eq!(check(with(good.clone(), &["sub"], Some(s("did:x")))), Reason::CredentialSubjectMismatch);
    assert_eq!(
        check(with(good.clone(), &["vc", "CredentialSubject", "id"], Some(s("did:x")))),
        Reason::CredentialSubjectMismatch
    );
    assert_eq!(check(with(good.clone(), &["vc", "CredentialSubject"], None)), Reason::MissingField);
    assert_eq!(check(with(good.clone(), &["vc", "validFrom"], Some(s("2024-01-01T00:00:00Z")))), Reason::NotYetValid);
    assert_eq!(check(with(good.clone(), &["vc", "validFrom"], Some(s("yesterday")))), Reason::InvalidDate);
    assert_eq!(check(with(good.clone(), &["vc", "validUntil"], Some(s("2023-01-01T00:00:00Z")))), Reason::Expired);
    assert_eq!(check(with(good.clone(), &["vc", "validUntil"], Some(s("2030-13-01T00:00:00Z")))), Reason::InvalidDate);

    for optional in [vec!["iss"], vec!["jti"], vec!["vc", "id"], vec!["sub"], vec!["vc", "validFrom"], vec!["vc", "validUntil"]] {
        let claims = with(good.clone(), &optional, None);
        assert!(svc.check_vc_claims(&json_of(&claims), authority_did().as_str(), holder_did().as_str(), &now).is_ok());
    }
    let wrong_issuer_and_expired = with(
        with(good.clone(), &["iss"], Some(s("did:x"))),
        &["vc", "validUntil"],
        Some(s("2000-01-01T00:00:00Z")),
    );
    assert_eq!(check(wrong_issuer_and_expired), Reason::IssuerMismatch);
}

#[test]
fn validity_bounds_are_instants() {
    let svc = verifier_at("authority.example", false);
    let at = |secs: i64, nanos: u32| Instant { secs, nanos };
    let from = |text: &str| json_of(&obj(vec![("vc", obj(vec![("validFrom", s(text))]))]));
    let until = |text: &str| json_of(&obj(vec![("vc", obj(vec![("validUntil", s(text))]))]));
    let start = from("2023-11-14T22:13:20Z");
    assert!(svc.validate_valid_from_at(&start, &at(1_700_000_000, 0)).is_ok());
    assert!(svc.validate_valid_from_at(&start, &at(1_700_000_001, 0)).is_ok());
    assert_eq!(
        svc.validate_valid_from_at(&start, &at(1_699_999_999, 999_999_999)).unwrap_err().reason,
        Reason::NotYetValid
    );
    let offset = from("2023-11-14T23:13:20+01:00");
    assert!(svc.validate_valid_from_at(&offset, &at(1_700_000_000, 0)).is_ok());
    assert!(svc.validate_valid_from_at(&offset, &at(1_699_999_999, 0)).is_err());
    let fraction = from("2023-11-14T22:13:20.5Z");
    assert!(svc.validate_valid_from_at(&fraction, &at(1_700_000_000, 500_000_000)).is_ok());
    assert!(svc.validate_valid_from_at(&fraction, &at(1_700_000_000, 499_999_999)).is_err());

    let end = until("2023-11-14T22:13:20Z");
    assert!(svc.validate_valid_until_at(&end, &at(1_700_000_000, 0)).is_ok());
    assert!(svc.validate_valid_until_at(&end, &at(1_699_999_999, 0)).is_ok());
    assert_eq!(
        svc.validate_valid_until_at(&end, &at(1_700_000_000, 1)).unwrap_err().reason,
        Reason::Expired
    );
    assert!(svc.validate_valid_until(&until("2999-01-01T00:00:00Z")).is_ok());
    assert_eq!(
        svc.validate_valid_until(&until("2001-01-01T00:00:00Z")).unwrap_err().reason,
        Reason::Expired
    );
    assert!(svc.validate_valid_from(&from("2001-01-01T00:00:00Z")).is_ok());
    assert_eq!(
        svc.validate_valid_from(&from("2999-01-01T00:00:00Z")).unwrap_err().reason,
        Reason::NotYetValid
    );
    assert!(svc.validate_valid_from(&json_of(&obj(vec![]))).is_ok());
}

#[test]
fn a_presentation_is_verified_with_every_credential_in_it() {
    let svc = verifier_at("authority.example", false);
    let audience = "http://authority.example:1500/api/v1/verifier/verify/state-1";
    let vp = sign(
        holder_pem().as_str(),
        Some(holder_did().as_str()),
        &vp_claims(audience, "nonce-1", "ceremony-1", vec![good_vc(), good_vc()]),
    );
    let mut model = stored_verification();
    assert!(svc.verify_all(&mut model, vp.clone()).is_ok());
    assert_eq!(model.vpt, Some(vp.clone()));
    assert_eq!(model.holder, Some(holder_did()));

    let mut model = stored_verification();
    let (vcs, holder) = svc.verify_vp(&mut model, &vp).unwrap();
    assert_eq!(vcs.len(), 2);
    assert_eq!(holder, holder_did().as_str());
    assert!(svc.verify_vc(&vcs[0], &holder).is_ok());
    assert_eq!(
        svc.verify_vc(&vcs[0], authority_did().as_str()).unwrap_err().reason,
        Reason::CredentialSubjectMismatch
    );
}

#[test]
fn a_presentation_for_another_exchange_is_refused() {
    let svc = verifier_at("authority.example", false);
    let vp = sign(
        holder_pem().as_str(),
        Some(holder_did().as_str()),
        &vp_claims(
            "http://authority.example:1500/api/v1/verifier/verify/state-2",
            "nonce-1",
            "ceremony-1",
            vec![good_vc()],
        ),
    );
    let mut model = stored_verification();
    let e = svc.verify_all(&mut model, vp.clone()).unwrap_err();
    assert_eq!((e.kind, e.reason), (ErrorKind::Security, Reason::InvalidSignature));
    assert_eq!(model.vpt, Some(vp));
    assert_eq!(model.holder, None);
}

#[test]
fn a_token_that_is_none_is_a_security_failure_for_the_verifier() {
    let svc = verifier_at("authority.example", false);
    let mut model = stored_verification();
    let e = svc.verify_all(&mut model, "garbage".to_string()).unwrap_err();
    assert_eq!((e.kind, e.reason), (ErrorKind::Security, Reason::MalformedToken));
    assert_eq!(model.vpt, Some("garbage".to_string()));
    let e = svc.validate_token(&sign(holder_pem().as_str(), None, &obj(vec![])), None).unwrap_err();
    assert_eq!((e.kind, e.reason), (ErrorKind::Security, Reason::MissingKid));
    let e = svc.verify_vc("a.b.c", holder_did().as_str()).unwrap_err();
    assert_eq!(e.kind, ErrorKind::Security);
}

#[test]
fn an_expired_credential_fails_the_verification() {
    let svc = verifier_at("authority.example", false);
    let expired = chrono::DateTime::from_timestamp(unix_now() as i64 - 1, 0).unwrap().to_rfc3339();
    let vc = sign(authority_pem().as_str(), Some(authority_did().as_str()), &vc_claims("2020-01-01T00:00:00Z", &expired));
    let e = svc.verify_vc(&vc, holder_did().as_str()).unwrap_err();
    assert_eq!((e.kind, e.reason), (ErrorKind::Security, Reason::Expired));

    let audience = "http://authority.example:1500/api/v1/verifier/verify/state-1";
    let vp = sign(
        holder_pem().as_str(),
        Some(holder_did().as_str()),
        &vp_claims(audience, "nonce-1", "ceremony-1", vec![good_vc(), vc]),
    );
    let mut model = stored_verification();
    let e = svc.verify_all(&mut model, vp).unwrap_err();
    assert_eq!((e.kind, e.reason), (ErrorKind::Security, Reason::Expired));
    assert_eq!(model.holder, Some(holder_did()));
}

// ---------------------------------------------------------------- issuer

#[test]
fn the_issuing_uri_names_the_issuer_and_the_offer() {
    let uri = issuer_at("authority.example", false).generate_issuing_uri("ceremony-1");
    assert_eq!(
        uri,
        "openid-credential-offer://authority.example:1500/api/v1/issuer/?credential_offer_uri=\
         http%3A%2F%2Fauthority.example%3A1500%2Fapi%2Fv1%2Fissuer%2FcredentialOffer%3Fid%3Dceremony-1"
    );
    let local = issuer_at("127.0.0.1", true).generate_issuing_uri("c");
    assert_eq!(
        local,
        "openid-credential-offer://host.docker.internal:1500/api/v1/issuer/?credential_offer_uri=\
         http%3A%2F%2Fhost.docker.internal%3A1500%2Fapi%2Fv1%2Fissuer%2FcredentialOffer%3Fid%3Dc"
    );
}

#[test]
fn an_issuing_starts_from_an_approved_request() {
    let req = request::Model {
        id: "ceremony-1".to_string(),
        participant_slug: "acme".to_string(),
        cert: None,
        vc_type: "IdentityCredential".to_string(),
        status: RequestStatus::Approved,
        vc_uri: Some("openid-credential-offer://x".to_string()),
    };
    assert_eq!(
        issuer_at("127.0.0.1", true).start_vci(&req),
        issuing::NewModel {
            id: "ceremony-1".to_string(),
            name: "acme".to_string(),
            vc_type: "IdentityCredential".to_string(),
            uri: "openid-credential-offer://x".to_string(),
            aud: "http://host.docker.internal:1500/api/v1/issuer".to_string(),
        }
    );
}

#[test]
fn the_offer_carries_the_code_of_its_step() {
    let svc = issuer_at("authority.example", false);
    let mut model = stored_issuing();
    let first = svc.get_cred_offer_data(&model).unwrap();
    assert_eq!(first.pre_authorized_code, "tx-1");
    assert_eq!(first.credential_issuer, "http://authority.example:1500/api/v1/issuer");
    assert_eq!(
        first.credential_configuration_ids,
        vec!["DataspaceParticipantCredential_jwt_vc_json".to_string()]
    );
    model.step = false;
    assert_eq!(svc.get_cred_offer_data(&model).unwrap().pre_authorized_code, "pre-1");
    model.vc_type = "Other".to_string();
    let e = svc.get_cred_offer_data(&model).unwrap_err();
    assert_eq!((e.kind, e.reason), (ErrorKind::BadFormat, Reason::UnknownVcType));
}

#[test]
fn the_issuer_describes_itself() {
    let svc = issuer_at("authority.example", false);
    let metadata = svc.get_issuer_data();
    assert_eq!(metadata.credential_issuer, "http://authority.example:1500/api/v1/issuer");
    assert_eq!(metadata.credential_endpoint, "http://authority.example:1500/api/v1/issuer/credential");
    let server = svc.get_oauth_server_data();
    assert_eq!(server.token_endpoint, "http://authority.example:1500/api/v1/issuer/token");
    let token = svc.get_token(&stored_issuing());
    assert_eq!(token.access_token, "bearer-1");
    assert_eq!(token.token_type, "Bearer");
}

#[test]
fn a_token_request_needs_both_codes() {
    let svc = issuer_at("authority.example", false);
    let model = stored_issuing();
    assert!(svc.validate_token_req(&model, "tx-1", "pre-1").is_ok());
    let e = svc.validate_token_req(&model, "tx-2", "pre-1").unwrap_err();
    assert_eq!((e.kind, e.reason), (ErrorKind::Forbidden, Reason::TxCodeMismatch));
    assert_eq!(e.status(), 403);
    let e = svc.validate_token_req(&model, "tx-1", "pre-2").unwrap_err();
    assert_eq!((e.kind, e.reason), (ErrorKind::Forbidden, Reason::PreAuthCodeMismatch));
    let e = svc.validate_token_req(&model, "x", "y").unwrap_err();
    assert_eq!(e.reason, Reason::TxCodeMismatch);
}

#[test]
fn a_proof_of_possession_is_one_did_in_force() {
    let svc = issuer_at("authority.example", false);
    let now = Instant { secs: 1000, nanos: 0 };
    let claims = |iss: &str, sub: &str, iat: u64, exp: u64| {
        json_of(&obj(vec![("iss", s(iss)), ("sub", s(sub)), ("iat", n(iat)), ("exp", n(exp))]))
    };
    assert!(svc.check_possession(&claims("did:h", "did:h", 900, 1100), "did:h", &now).is_ok());
    assert!(svc.check_possession(&claims("did:h", "did:h", 1000, 1000), "did:h", &now).is_ok());
    let refused = |claims: Json, kid: &str| {
        let e = svc.check_possession(&claims, kid, &now).unwrap_err();
        (e.kind, e.reason)
    };
    let mismatch = (ErrorKind::Forbidden, Reason::PossessionMismatch);
    assert_eq!(refused(claims("did:x", "did:h", 900, 1100), "did:h"), mismatch);
    assert_eq!(refused(claims("did:h", "did:h", 900, 1100), "did:x"), mismatch);
    assert_eq!(refused(claims("did:x", "did:x", 900, 1100), "did:h"), mismatch);
    assert_eq!(
        refused(claims("did:h", "did:h", 1001, 1100), "did:h"),
        (ErrorKind::Forbidden, Reason::NotYetValid)
    );
    assert_eq!(
        refused(claims("did:h", "did:h", 900, 999), "did:h"),
        (ErrorKind::Forbidden, Reason::Expired)
    );
    let no_exp = json_of(&obj(vec![("iss", s("did:h")), ("sub", s("did:h")), ("iat", n(1))]));
    assert_eq!(refused(no_exp, "did:h"), (ErrorKind::Security, Reason::MissingField));
    let text_iat =
        json_of(&obj(vec![("iss", s("did:h")), ("sub", s("did:h")), ("iat", s("1")), ("exp", n(2))]));
    assert_eq!(refused(text_iat, "did:h"), (ErrorKind::Security, Reason::NotANumber));
    let negative = json_of(&obj(vec![
        ("iss", s("did:h")),
        ("sub", s("did:h")),
        ("iat", Value::Number(Number::from(-5))),
        ("exp", n(2)),
    ]));
    assert_eq!(refused(negative, "did:h"), (ErrorKind::Security, Reason::NotANumber));
    let no_iss = json_of(&obj(vec![("sub", s("did:h")), ("iat", n(1)), ("exp", n(2))]));
    assert_eq!(refused(no_iss, "did:h"), (ErrorKind::Security, Reason::MissingField));

    let parsed = DidPossession::from_claims(&claims("did:a", "did:b", 3, 4)).unwrap();
    assert_eq!(
        parsed,
        DidPossession { iss: "did:a".to_string(), sub: "did:b".to_string(), iat: 3, exp: 4 }
    );
    assert!(svc.validate_did_possession(&parsed, "did:b").is_err());
}

fn possession_proof(audience: &str, iat: u64, exp: u64) -> CredentialRequest {
    let claims = obj(vec![
        ("iss", s(holder_did().as_str())),
        ("sub", s(holder_did().as_str())),
        ("aud", s(audience)),
        ("iat", n(iat)),
        ("exp", n(exp)),
    ]);
    CredentialRequest {
        format: "jwt_vc_json".to_string(),
        proof: Proof {
            proof_type: "jwt".to_string(),
            jwt: sign(holder_pem().as_str(), Some(&format!("{}#0", holder_did())), &claims),
        },
    }
}

#[test]
fn a_credential_request_binds_the_holder() {
    let svc = issuer_at("authority.example", false);
    let audience = "http://authority.example:1500/api/v1/issuer";
    let now = unix_now();
    let mut model = stored_issuing();
    model.did = None;
    assert!(svc.validate_cred_req(&mut model, &possession_proof(audience, now - 10, now + 600), "bearer-1").is_ok());
    assert_eq!(model.did, Some(holder_did()));

    let refused = |request: CredentialRequest, token: &str| {
        let mut model = stored_issuing();
        model.did = None;
        let e = svc.validate_cred_req(&mut model, &request, token).unwrap_err();
        assert_eq!(model.did, None);
        (e.kind, e.reason)
    };
    let good = possession_proof(audience, now - 10, now + 600);
    assert_eq!(refused(good.clone(), "bearer-2"), (ErrorKind::Forbidden, Reason::BearerMismatch));
    let mut other_format = good.clone();
    other_format.format = "ldp_vc".to_string();
    assert_eq!(
        refused(other_format.clone(), "bearer-1"),
        (ErrorKind::BadFormat, Reason::UnsupportedCredentialFormat)
    );
    assert_eq!(refused(other_format, "nope"), (ErrorKind::Forbidden, Reason::BearerMismatch));
    let mut other_proof = good.clone();
    other_proof.proof.proof_type = "cwt".to_string();
    assert_eq!(refused(other_proof, "bearer-1"), (ErrorKind::BadFormat, Reason::UnsupportedProofType));
    let mut no_token = good.clone();
    no_token.proof.jwt = "abc".to_string();
    assert_eq!(refused(no_token, "bearer-1"), (ErrorKind::BadFormat, Reason::MalformedToken));
    assert_eq!(
        refused(possession_proof("http://elsewhere/issuer", now - 10, now + 600), "bearer-1"),
        (ErrorKind::Security, Reason::InvalidSignature)
    );
    assert_eq!(
        refused(possession_proof(audience, now - 100, now - 50), "bearer-1"),
        (ErrorKind::Forbidden, Reason::Expired)
    );
    assert_eq!(
        refused(possession_proof(audience, now + 500, now + 600), "bearer-1"),
        (ErrorKind::Forbidden, Reason::NotYetValid)
    );
}

#[test]
fn a_minted_credential_names_its_holder_and_lasts_365_days() {
    let svc = issuer_at("authority.example", false);
    let at = Instant { secs: 1_700_000_000, nanos: 250_000_000 };
    let mut model = stored_issuing();
    let given = svc.issue_cred_at(&mut model, authority_did().as_str(), authority_pem().as_str(), &at).unwrap();
    assert_eq!(given.format, "jwt_vc_json");
    assert_eq!(model.credential, Some(given.credential.clone()));
    assert_eq!(jsonwebtoken::decode_header(&given.credential).unwrap().kid, Some(authority_did()));
    assert_eq!(
        jsonwebtoken::decode_header(&given.credential).unwrap().alg,
        jsonwebtoken::Algorithm::RS256
    );
    let claims = decode_unchecked(&given.credential, authority_jwk().as_str());
    assert_eq!(
        claims,
        obj(vec![(
            "vc",
            obj(vec![
                ("@context", Value::Array(vec![s("https://www.w3.org/ns/credentials/v2")])),
                ("type", Value::Array(vec![s("VerifiableCredential"), s("DataspaceParticipantCredential")])),
                ("id", s("urn:credential:1")),
                (
                    "credentialSubject",
                    obj(vec![
                        ("id", s(holder_did().as_str())),
                        ("type", s("DataspaceParticipant")),
                        ("DataspaceId", s("RainbowDataSpace")),
                        ("LegalName", s("ACME")),
                    ]),
                ),
                ("issuer", obj(vec![("id", s(authority_did().as_str())), ("name", s("RainbowAuthority"))])),
                ("validFrom", s("2023-11-14T22:13:20.250Z")),
                ("validUntil", s("2024-11-13T22:13:20.250Z")),
            ]),
        )])
    );
    assert_eq!(claims["vc"]["credentialSubject"]["id"], s(model.did.as_ref().unwrap()));
    assert_eq!(
        value_of(&svc.vc_claims(
            &stored_issuing(),
            VcType::DataSpaceParticipant,
            holder_did().as_str(),
            authority_did().as_str(),
            "2023-11-14T22:13:20.250Z",
            "2024-11-13T22:13:20.250Z"
        )),
        claims
    );
}

#[test]
fn an_identity_credential_has_the_subject_of_its_profile() {
    let svc = issuer_at("authority.example", false);
    let mut model = stored_issuing();
    model.vc_type = "IdentityCredential".to_string();
    let given = svc.issue_cred(&mut model, authority_did().as_str(), authority_pem().as_str()).unwrap();
    let claims = decode_unchecked(&given.credential, authority_jwk().as_str());
    assert_eq!(
        claims["vc"]["credentialSubject"],
        obj(vec![("id", s(holder_did().as_str())), ("type", s("IdentityCredential")), ("LegalName", s("ACME"))])
    );
    assert_eq!(claims["vc"]["type"], Value::Array(vec![s("VerifiableCredential"), s("IdentityCredential")]));
    let from = chrono::DateTime::parse_from_rfc3339(claims["vc"]["validFrom"].as_str().unwrap()).unwrap();
    let until = chrono::DateTime::parse_from_rfc3339(claims["vc"]["validUntil"].as_str().unwrap()).unwrap();
    assert_eq!((until - from).num_seconds(), 365 * 86_400);
    assert!((from.timestamp() - unix_now() as i64).abs() < 60);
}

#[test]
fn signing_is_deterministic() {
    let svc = issuer_at("authority.example", false);
    let at = Instant { secs: 1_700_000_000, nanos: 0 };
    let mut first = stored_issuing();
    let mut second = stored_issuing();
    let a = svc.issue_cred_at(&mut first, authority_did().as_str(), authority_pem().as_str(), &at).unwrap();
    let b = svc.issue_cred_at(&mut second, authority_did().as_str(), authority_pem().as_str(), &at).unwrap();
    assert_eq!(a, b);
    let later = Instant { secs: 1_700_000_001, nanos: 0 };
    let mut third = stored_issuing();
    let c = svc.issue_cred_at(&mut third, authority_did().as_str(), authority_pem().as_str(), &later).unwrap();
    assert_ne!(a.credential, c.credential);
}

#[test]
fn a_stored_credential_is_never_signed_again() {
    let svc = issuer_at("authority.example", false);
    let mut model = stored_issuing();
    let first = svc
        .issue_cred_at(&mut model, authority_did().as_str(), authority_pem().as_str(), &Instant { secs: 1_700_000_000, nanos: 0 })
        .unwrap();
    let stored = model.clone();
    let second = svc
        .issue_cred_at(&mut model, authority_did().as_str(), authority_pem().as_str(), &Instant { secs: 1_800_000_000, nanos: 0 })
        .unwrap();
    assert_eq!(second, first);
    assert_eq!(model, stored);
    let third = svc.issue_cred(&mut model, "did:jwk:other", "no key at all").unwrap();
    assert_eq!(third.credential, first.credential);
    assert_eq!(model, stored);
}

#[test]
fn credentials_that_cannot_be_issued() {
    let svc = issuer_at("authority.example", false);
    let at = Instant { secs: 1_700_000_000, nanos: 0 };
    let refused = |model: issuing::Model, pem: &str, at: Instant| {
        let mut working = model.clone();
        let e = svc.issue_cred_at(&mut working, authority_did().as_str(), pem, &at).unwrap_err();
        assert_eq!(working, model);
        (e.kind, e.reason)
    };
    let mut unknown = stored_issuing();
    unknown.vc_type = "Other".to_string();
    assert_eq!(refused(unknown, authority_pem().as_str(), at), (ErrorKind::BadFormat, Reason::UnknownVcType));
    let mut unbound = stored_issuing();
    unbound.did = None;
    assert_eq!(refused(unbound, authority_pem().as_str(), at), (ErrorKind::BadFormat, Reason::MissingField));
    assert_eq!(
        refused(stored_issuing(), "-----BEGIN NOTHING-----", at),
        (ErrorKind::BadFormat, Reason::SigningFailed)
    );
    assert_eq!(
        refused(stored_issuing(), authority_pem().as_str(), Instant { secs: i64::MAX, nanos: 0 }),
        (ErrorKind::BadFormat, Reason::InvalidDate)
    );
    assert_eq!(
        refused(stored_issuing(), authority_pem().as_str(), Instant { secs: i64::MAX / 2, nanos: 0 }),
        (ErrorKind::BadFormat, Reason::InvalidDate)
    );
}

#[test]
fn the_holder_becomes_a_minion() {
    let svc = issuer_at("authority.example", false);
    let req = request::Model {
        id: "ceremony-1".to_string(),
        participant_slug: "acme".to_string(),
        cert: None,
        vc_type: "IdentityCredential".to_string(),
        status: RequestStatus::Approved,
        vc_uri: Some("openid-credential-offer://x".to_string()),
    };
    let inter = interaction::Model {
        id: "ceremony-1".to_string(),
        start: vec![],
        method: "push".to_string(),
        uri: "https://client.example:8443/callbacks/1".to_string(),
        client_nonce: String::new(),
        hash_method: String::new(),
        hints: None,
        grant_endpoint: String::new(),
        continue_endpoint: String::new(),
        continue_token: "t".to_string(),
        continue_id: "c".to_string(),
        as_nonce: String::new(),
        interact_ref: String::new(),
        hash: String::new(),
    };
    let minion = svc.end(&req, &inter, &stored_issuing()).unwrap();
    assert_eq!(minion.participant_id, holder_did().as_str());
    assert_eq!(minion.participant_slug, "acme");
    assert_eq!(minion.participant_type, "Minion");
    assert_eq!(minion.base_url, Some("https://client.example:8443".to_string()));
    assert_eq!(minion.vc_uri, Some("openid-credential-offer://x".to_string()));
    assert!(!minion.is_vc_issued);
    assert!(!minion.is_me);
    let mut unbound = stored_issuing();
    unbound.did = None;
    let e = svc.end(&req, &inter, &unbound).unwrap_err();
    assert_eq!((e.kind, e.reason), (ErrorKind::BadFormat, Reason::MissingField));
}

// ---------------------------------------------------------------- certificate

#[test]
fn the_certificate_of_a_request_names_the_participant() {
    let svc = GnapService::new(CoreApplicationConfig::default().gnap_config());
    let req = request::Model {
        id: "ceremony-1".to_string(),
        participant_slug: "acme".to_string(),
        cert: Some(HOLDER_CERT.to_string()),
        vc_type: "DataspaceParticipantCredential".to_string(),
        status: RequestStatus::Pending,
        vc_uri: None,
    };
    let data = svc.manage_cont_req(&req).unwrap();
    assert_eq!(data.name, "acme");
    assert_eq!(data.website, "http://participant.example.org");
    assert_eq!(data.vc_type, VcType::DataSpaceParticipant);
    let mut unknown = req.clone();
    unknown.vc_type = "Other".to_string();
    assert_eq!(svc.manage_cont_req(&unknown).unwrap_err().reason, Reason::UnknownVcType);
}

// ---------------------------------------------------------------- ceremonies

#[test]
fn happy_oidc4vp_path() {
    let mut authority = new_core();
    let response = authority.manage_req_with(grant(&["oidc4vp"], "redirect", "IdentityCredential"), seed("1")).unwrap();
    assert_eq!(response.instance_id, "ceremony-1");
    assert_eq!(response.cont.uri, "http://127.0.0.1:1500/api/v1/gate/continue");
    assert_eq!(response.cont.access_token, "continue-token-1");
    assert_eq!(response.interact.finish, "as-nonce-1");
    let uri = response.interact.user_code_uri.unwrap();
    assert!(!uri.is_empty());
    assert!(uri.starts_with("openid4vp://authorize?"));
    assert!(uri.contains("&nonce=nonce-1&"));

    let request = authority.get_by_id("ceremony-1".to_string()).unwrap();
    assert_eq!(request.status, RequestStatus::Pending);
    assert_eq!(request.vc_type, "IdentityCredential");
    let stored = authority.repo().get_verification_by_state("state-1").unwrap();
    assert_eq!(stored.id, "ceremony-1");
    assert_eq!(stored.audience, "http://host.docker.internal:1500/api/v1/verifier/verify");
    assert_eq!(stored.vc_type, "IdentityCredential");
    assert_eq!(authority.get_vp_def("state-1".to_string()).unwrap().id, "ceremony-1");

    let audience = "http://host.docker.internal:1500/api/v1/verifier/verify/state-1";
    let vp = sign(
        holder_pem().as_str(),
        Some(holder_did().as_str()),
        &vp_claims(audience, "nonce-1", "ceremony-1", vec![good_vc()]),
    );
    let outcome = authority.verify("state-1".to_string(), vp.clone()).unwrap();
    assert_eq!(
        outcome,
        EndOfVerification::Redirect(
            "http://client.example/cb?hash=hash-1&interact_ref=interact-ref-1".to_string()
        )
    );
    let verified = authority.repo().get_verification("ceremony-1").unwrap();
    assert_eq!(verified.vpt, Some(vp));
    assert_eq!(verified.holder, Some(holder_did()));
}

#[test]
fn a_pushed_end_of_verification_is_a_callback() {
    let mut authority = new_core();
    authority.manage_req_with(grant(&["oidc4vp"], "push", "IdentityCredential"), seed("1")).unwrap();
    let audience = "http://host.docker.internal:1500/api/v1/verifier/verify/state-1";
    let vp = sign(holder_pem().as_str(), Some(holder_did().as_str()), &vp_claims(audience, "nonce-1", "ceremony-1", vec![]));
    match authority.verify("state-1".to_string(), vp).unwrap() {
        EndOfVerification::Push(callback) => {
            assert_eq!(callback.uri, "http://client.example/cb");
            assert_eq!(
                value_of(&callback.body),
                obj(vec![("interact_ref", s("interact-ref-1")), ("hash", s("hash-1"))])
            );
        }
        other => panic!("unexpected outcome: {:?}", other),
    }
    let mut polling = grant(&["oidc4vp"], "poll", "IdentityCredential");
    polling.client.class_id = None;
    authority.manage_req_with(polling, seed("2")).unwrap();
    let audience = "http://host.docker.internal:1500/api/v1/verifier/verify/state-2";
    let vp = sign(holder_pem().as_str(), Some(holder_did().as_str()), &vp_claims(audience, "nonce-2", "ceremony-2", vec![]));
    let e = authority.verify("state-2".to_string(), vp.clone()).unwrap_err();
    assert_eq!((e.kind, e.reason), (ErrorKind::NotImplemented, Reason::UnsupportedFinishMethod));
    assert_eq!(authority.repo().get_verification("ceremony-2").unwrap().vpt, Some(vp));
    let e = authority.verify("state-9".to_string(), "x".to_string()).unwrap_err();
    assert_eq!(e.kind, ErrorKind::MissingResource);
    assert_eq!(authority.get_vp_def("state-9".to_string()).unwrap_err().kind, ErrorKind::MissingResource);
}

#[test]
fn cross_user_path() {
    let mut authority = new_core();
    let response =
        authority.manage_req_with(grant(&["cross-user"], "push", "DataspaceParticipantCredential"), seed("1")).unwrap();
    assert_eq!(response.interact.user_code_uri, None);
    assert_eq!(response.cont.access_token, "continue-token-1");
    assert!(authority.repo().get_verification("ceremony-1").is_err());
    assert_eq!(authority.get_all().len(), 1);

    let callback = authority.decision_callback("ceremony-1", true).unwrap();
    assert_eq!(callback.uri, "http://client.example/cb");
    assert_eq!(
        value_of(&callback.body),
        obj(vec![("interact_ref", s("interact-ref-1")), ("hash", s("hash-1"))])
    );
    CoreVcsTrait::manage_req(
        &mut authority,
        "ceremony-1".to_string(),
        VcDecisionApproval { approve: true },
        200,
    ).unwrap();
    assert_eq!(authority.get_by_id("ceremony-1".to_string()).unwrap().status, RequestStatus::Approved);

    let uri = authority
        .manage_cont_req_with(
            "ceremony-1".to_string(),
            RefBody { interact_ref: "interact-ref-1".to_string() },
            "continue-token-1".to_string(),
            issuing_seed("1"),
        )
        .unwrap();
    assert!(uri.starts_with("openid-credential-offer://host.docker.internal:1500/api/v1/issuer/?"));
    assert_eq!(authority.get_by_id("ceremony-1".to_string()).unwrap().vc_uri, Some(uri));
}

#[test]
fn the_operator_may_deny_and_the_client_may_refuse_the_callback() {
    let mut authority = new_core();
    authority.manage_req_with(grant(&["cross-user"], "push", "IdentityCredential"), seed("1")).unwrap();
    authority.manage_req_with(grant(&["cross-user"], "push", "IdentityCredential"), seed("2")).unwrap();

    let denial = authority.decision_callback("ceremony-1", false).unwrap();
    assert_eq!(value_of(&denial.body), obj(vec![("rejected", s("Petition was rejected"))]));
    CoreVcsTrait::manage_req(
        &mut authority,
        "ceremony-1".to_string(),
        VcDecisionApproval { approve: false },
        200,
    ).unwrap();
    assert_eq!(authority.get_by_id("ceremony-1".to_string()).unwrap().status, RequestStatus::Finalized);
    let e = authority.decision_callback("ceremony-1", true).unwrap_err();
    assert_eq!((e.kind, e.reason), (ErrorKind::Forbidden, Reason::Sealed));
    let e = CoreVcsTrait::manage_req(
        &mut authority,
        "ceremony-1".to_string(),
        VcDecisionApproval { approve: true },
        200,
    )
        .unwrap_err();
    assert_eq!((e.kind, e.reason), (ErrorKind::Forbidden, Reason::Sealed));
    assert_eq!(authority.get_by_id("ceremony-1".to_string()).unwrap().status, RequestStatus::Finalized);
    let e = authority
        .manage_cont_req_with(
            "ceremony-1".to_string(),
            RefBody { interact_ref: "interact-ref-1".to_string() },
            "continue-token-1".to_string(),
            issuing_seed("1"),
        )
        .unwrap_err();
    assert_eq!((e.kind, e.reason), (ErrorKind::Forbidden, Reason::Sealed));
    assert!(authority.repo().get_issuing("ceremony-1").is_err());

    let e = CoreVcsTrait::manage_req(
        &mut authority,
        "ceremony-2".to_string(),
        VcDecisionApproval { approve: true },
        503,
    )
        .unwrap_err();
    assert_eq!((e.kind, e.reason), (ErrorKind::Consumer, Reason::CallbackRefused));
    assert_eq!(e.http_code, Some(503));
    assert_eq!(e.status(), 503);
    assert_eq!(authority.get_by_id("ceremony-2".to_string()).unwrap().status, RequestStatus::MinionFailure);

    let e = CoreVcsTrait::manage_req(
        &mut authority,
        "ceremony-9".to_string(),
        VcDecisionApproval { approve: true },
        200,
    )
        .unwrap_err();
    assert_eq!(e.kind, ErrorKind::MissingResource);
    assert_eq!(authority.decision_callback("ceremony-9", true).unwrap_err().kind, ErrorKind::MissingResource);
}

#[test]
fn continuation_replay() {
    let mut authority = new_core();
    authority.manage_req_with(grant(&["oidc4vp"], "redirect", "IdentityCredential"), seed("1")).unwrap();
    let continue_once = |authority: &mut Authority, tag: &str| {
        authority.manage_cont_req_with(
            "ceremony-1".to_string(),
            RefBody { interact_ref: "interact-ref-1".to_string() },
            "continue-token-1".to_string(),
            issuing_seed(tag),
        )
    };
    let first = continue_once(&mut authority, "1").unwrap();
    assert_eq!(
        first,
        "openid-credential-offer://host.docker.internal:1500/api/v1/issuer/?credential_offer_uri=\
         http%3A%2F%2Fhost.docker.internal%3A1500%2Fapi%2Fv1%2Fissuer%2FcredentialOffer%3Fid%3Dceremony-1"
    );
    let request = authority.get_by_id("ceremony-1".to_string()).unwrap();
    assert_eq!(request.status, RequestStatus::Approved);
    assert_eq!(request.vc_uri, Some(first.clone()));
    let issuing = authority.repo().get_issuing("ceremony-1").unwrap();
    assert_eq!(issuing.uri, first);
    assert_eq!(issuing.name, "acme");
    assert_eq!(issuing.aud, "http://host.docker.internal:1500/api/v1/issuer");
    assert_eq!(issuing.tx_code, "tx-1");

    let second = continue_once(&mut authority, "2").unwrap();
    assert_eq!(second, first);
    assert_eq!(authority.get_by_id("ceremony-1".to_string()).unwrap(), request);
    assert_eq!(authority.repo().get_issuing("ceremony-1").unwrap(), issuing);
    assert_eq!(authority.repo().get_all_issuings(None, None).len(), 1);
}

#[test]
fn forged_token() {
    let mut authority = new_core();
    authority.manage_req_with(grant(&["oidc4vp"], "redirect", "IdentityCredential"), seed("1")).unwrap();
    let before = (
        authority.get_all(),
        authority.repo().get_all_interactions(None, None),
        authority.repo().get_all_issuings(None, None),
    );
    let e = authority
        .manage_cont_req_with(
            "ceremony-1".to_string(),
            RefBody { interact_ref: "interact-ref-1".to_string() },
            "continue-token-2".to_string(),
            issuing_seed("1"),
        )
        .unwrap_err();
    assert_eq!((e.kind, e.reason), (ErrorKind::Security, Reason::ContinueTokenMismatch));
    let e = authority
        .manage_cont_req_with(
            "ceremony-1".to_string(),
            RefBody { interact_ref: "interact-ref-2".to_string() },
            "continue-token-1".to_string(),
            issuing_seed("1"),
        )
        .unwrap_err();
    assert_eq!((e.kind, e.reason), (ErrorKind::Security, Reason::InteractRefMismatch));
    let e = authority
        .manage_cont_req(
            "ceremony-7".to_string(),
            RefBody { interact_ref: "interact-ref-1".to_string() },
            "continue-token-1".to_string(),
        )
        .unwrap_err();
    assert_eq!(e.kind, ErrorKind::MissingResource);
    let after = (
        authority.get_all(),
        authority.repo().get_all_interactions(None, None),
        authority.repo().get_all_issuings(None, None),
    );
    assert_eq!(after, before);
    assert_eq!(after.0[0].status, RequestStatus::Pending);
}

#[test]
fn mismatched_nonce() {
    let mut authority = new_core();
    authority.manage_req_with(grant(&["oidc4vp"], "redirect", "IdentityCredential"), seed("1")).unwrap();
    let audience = "http://host.docker.internal:1500/api/v1/verifier/verify/state-1";
    let vp = sign(
        holder_pem().as_str(),
        Some(holder_did().as_str()),
        &vp_claims(audience, "another-nonce", "ceremony-1", vec![good_vc()]),
    );
    let e = authority.verify("state-1".to_string(), vp.clone()).unwrap_err();
    assert_eq!((e.kind, e.reason), (ErrorKind::Security, Reason::NonceMismatch));
    let stored = authority.repo().get_verification("ceremony-1").unwrap();
    assert_eq!(stored.vpt, Some(vp));
    assert_eq!(stored.holder, None);
    assert_eq!(stored.nonce, "nonce-1");
}

#[test]
fn expired_vc() {
    let mut authority = new_core();
    authority.manage_req_with(grant(&["oidc4vp"], "redirect", "IdentityCredential"), seed("1")).unwrap();
    let a_second_ago = chrono::DateTime::from_timestamp(unix_now() as i64 - 1, 0).unwrap().to_rfc3339();
    let vc = sign(authority_pem().as_str(), Some(authority_did().as_str()), &vc_claims("2020-01-01T00:00:00Z", &a_second_ago));
    let audience = "http://host.docker.internal:1500/api/v1/verifier/verify/state-1";
    let vp = sign(holder_pem().as_str(), Some(holder_did().as_str()), &vp_claims(audience, "nonce-1", "ceremony-1", vec![vc]));
    let e = authority.verify("state-1".to_string(), vp).unwrap_err();
    assert_eq!((e.kind, e.reason), (ErrorKind::Security, Reason::Expired));
}

fn approved_ceremony(authority: &mut Authority, tag: &str) {
    authority.manage_req_with(grant(&["cross-user"], "push", "DataspaceParticipantCredential"), seed(tag)).unwrap();
    authority.manage_cont_req_with(
        format!("ceremony-{tag}"),
        RefBody { interact_ref: format!("interact-ref-{tag}") },
        format!("continue-token-{tag}"),
        issuing_seed(tag),
    )
    .unwrap();
}

#[test]
fn the_pre_authorized_code_flow_delivers_the_credential() {
    let mut authority = new_core();
    approved_ceremony(&mut authority, "1");

    let offer = authority.get_cred_offer_data("ceremony-1".to_string()).unwrap();
    assert_eq!(offer.pre_authorized_code, "tx-1");
    assert_eq!(offer.credential_issuer, "http://host.docker.internal:1500/api/v1/issuer");
    assert!(!authority.repo().get_issuing("ceremony-1").unwrap().step);
    let again = authority.get_cred_offer_data("ceremony-1".to_string()).unwrap();
    assert_eq!(again.pre_authorized_code, "pre-1");
    assert_eq!(authority.get_cred_offer_data("nope".to_string()).unwrap_err().kind, ErrorKind::MissingResource);

    let token = authority
        .get_token(TokenRequest { tx_code: "tx-1".to_string(), pre_authorized_code: "pre-1".to_string() })
        .unwrap();
    assert_eq!(token.access_token, "bearer-1");
    assert_eq!(token.token_type, "Bearer");
    let e = authority
        .get_token(TokenRequest { tx_code: "tx-1".to_string(), pre_authorized_code: "pre-2".to_string() })
        .unwrap_err();
    assert_eq!((e.kind, e.reason), (ErrorKind::Forbidden, Reason::PreAuthCodeMismatch));
    let e = authority
        .get_token(TokenRequest { tx_code: "tx-9".to_string(), pre_authorized_code: "pre-1".to_string() })
        .unwrap_err();
    assert_eq!(e.kind, ErrorKind::MissingResource);

    let now = unix_now();
    let audience = "http://host.docker.internal:1500/api/v1/issuer";
    let given = authority
        .get_credential(possession_proof(audience, now - 5, now + 600), "bearer-1".to_string(), authority_did().as_str(), authority_pem().as_str())
        .unwrap();
    assert_eq!(given.format, "jwt_vc_json");
    let issuing = authority.repo().get_issuing("ceremony-1").unwrap();
    assert_eq!(issuing.credential, Some(given.credential.clone()));
    assert_eq!(issuing.did, Some(holder_did()));
    let claims = decode_unchecked(&given.credential, authority_jwk().as_str());
    assert_eq!(claims["vc"]["credentialSubject"]["id"], s(holder_did().as_str()));
    assert_eq!(claims["vc"]["credentialSubject"]["LegalName"], s("acme"));
    assert_eq!(claims["vc"]["id"], s("urn:credential:1"));
    assert_eq!(claims["vc"]["issuer"]["id"], s(authority_did().as_str()));

    let minion = authority.repo().get_minion(holder_did().as_str()).unwrap();
    assert_eq!(minion.participant_slug, "acme");
    assert_eq!(minion.base_url, Some("http://client.example".to_string()));
    assert_eq!(minion.vc_uri, authority.get_by_id("ceremony-1".to_string()).unwrap().vc_uri);
    assert!((minion.last_interaction.secs - now as i64).abs() < 60);
}

#[test]
fn a_second_credential_request_gets_the_stored_credential() {
    let mut authority = new_core();
    approved_ceremony(&mut authority, "1");
    let now = unix_now();
    let audience = "http://host.docker.internal:1500/api/v1/issuer";
    let first = authority
        .get_credential(possession_proof(audience, now - 5, now + 600), "bearer-1".to_string(), authority_did().as_str(), authority_pem().as_str())
        .unwrap();
    let issuing = authority.repo().get_issuing("ceremony-1").unwrap();
    let minions = authority.repo().get_all_minions(None, None);
    let second = authority
        .get_credential(possession_proof(audience, now - 5, now + 600), "bearer-1".to_string(), authority_did().as_str(), authority_pem().as_str())
        .unwrap();
    assert_eq!(second, first);
    assert_eq!(authority.repo().get_issuing("ceremony-1").unwrap(), issuing);
    assert_eq!(authority.repo().get_all_minions(None, None), minions);
    let third = authority
        .get_credential(possession_proof(audience, now - 5, now + 600), "bearer-1".to_string(), "did:jwk:x", "no key")
        .unwrap();
    assert_eq!(third.credential, first.credential);
}

#[test]
fn a_refused_credential_request_changes_nothing() {
    let mut authority = new_core();
    approved_ceremony(&mut authority, "1");
    let before = authority.repo().get_issuing("ceremony-1").unwrap();
    let now = unix_now();
    let audience = "http://host.docker.internal:1500/api/v1/issuer";
    let e = authority
        .get_credential(possession_proof(audience, now - 5, now + 600), "bearer-9".to_string(), authority_did().as_str(), authority_pem().as_str())
        .unwrap_err();
    assert_eq!(e.kind, ErrorKind::MissingResource);
    let e = authority
        .get_credential(possession_proof(audience, now - 500, now - 100), "bearer-1".to_string(), authority_did().as_str(), authority_pem().as_str())
        .unwrap_err();
    assert_eq!((e.kind, e.reason), (ErrorKind::Forbidden, Reason::Expired));
    let e = authority
        .get_credential(possession_proof(audience, now - 5, now + 600), "bearer-1".to_string(), authority_did().as_str(), "no key")
        .unwrap_err();
    assert_eq!((e.kind, e.reason), (ErrorKind::BadFormat, Reason::SigningFailed));
    assert_eq!(authority.repo().get_issuing("ceremony-1").unwrap(), before);
    assert!(authority.repo().get_all_minions(None, None).is_empty());
}

#[test]
fn a_minted_credential_is_refused_by_the_verifier_for_its_subject() {
    let mut authority = new_core();
    approved_ceremony(&mut authority, "1");
    let now = unix_now();
    let minted = authority
        .get_credential(
            possession_proof("http://host.docker.internal:1500/api/v1/issuer", now - 5, now + 600),
            "bearer-1".to_string(),
            authority_did().as_str(),
            authority_pem().as_str(),
        )
        .unwrap()
        .credential;
    let svc = verifier_at("127.0.0.1", true);
    let (claims, kid) = svc.validate_token(&minted, None).unwrap();
    assert_eq!(kid, authority_did().as_str());
    assert!(svc.validate_issuer(&claims, &kid).is_ok());
    assert!(svc.validate_vc_id(&claims).is_ok());
    assert!(svc.validate_valid_from(&claims).is_ok());
    assert!(svc.validate_valid_until(&claims).is_ok());
    let e = svc.validate_vc_sub(&claims, holder_did().as_str()).unwrap_err();
    assert_eq!((e.kind, e.reason), (ErrorKind::Security, Reason::MissingField));
    assert_eq!(e.detail, "CredentialSubject");
    let e = svc.verify_vc(&minted, holder_did().as_str()).unwrap_err();
    assert_eq!((e.kind, e.reason), (ErrorKind::Security, Reason::MissingField));
}

#[test]
fn ceremonies_do_not_share_ids_or_secrets() {
    let mut authority = new_core();
    authority.manage_req_with(grant(&["oidc4vp"], "redirect", "IdentityCredential"), seed("1")).unwrap();
    let e = authority
        .manage_req_with(grant(&["oidc4vp"], "redirect", "IdentityCredential"), seed("1"))
        .unwrap_err();
    assert_eq!((e.kind, e.reason), (ErrorKind::Database, Reason::Conflict));
    assert_eq!(authority.get_all().len(), 1);

    let mut same_token = seed("2");
    same_token.continue_token = "continue-token-1".to_string();
    let e = authority
        .manage_req_with(grant(&["oidc4vp"], "redirect", "IdentityCredential"), same_token)
        .unwrap_err();
    assert_eq!(e.reason, Reason::Conflict);
    assert_eq!(authority.get_all().len(), 2);
    assert!(authority.repo().get_interaction("ceremony-2").is_err());

    let mut same_state = seed("3");
    same_state.verification.state = "state-1".to_string();
    let e = authority
        .manage_req_with(grant(&["oidc4vp"], "redirect", "IdentityCredential"), same_state.clone())
        .unwrap_err();
    assert_eq!(e.reason, Reason::Conflict);
    assert!(authority.repo().get_interaction("ceremony-3").is_ok());
    assert!(authority.repo().get_verification("ceremony-3").is_err());

    let mut cross = same_state;
    cross.id = "ceremony-4".to_string();
    cross.continue_token = "continue-token-4".to_string();
    cross.interaction.continue_id = "ceremony-4".to_string();
    assert!(authority.manage_req_with(grant(&["cross-user"], "push", "IdentityCredential"), cross).is_ok());

    let refused = authority.manage_req_with(grant(&["user-code"], "push", "IdentityCredential"), seed("5")).unwrap_err();
    assert_eq!((refused.kind, refused.reason), (ErrorKind::NotImplemented, Reason::UnsupportedStart));
    assert!(authority.get_by_id("ceremony-5".to_string()).is_err());
}

#[test]
fn drawn_ceremonies_are_continued_by_their_id() {
    let mut authority = new_core();
    let first = CoreGatekeeperTrait::manage_req(&mut authority, grant(&["oidc4vp"], "redirect", "IdentityCredential")).unwrap();
    let second = CoreGatekeeperTrait::manage_req(&mut authority, grant(&["cross-user"], "push", "IdentityCredential")).unwrap();
    assert_ne!(first.instance_id, second.instance_id);
    assert_ne!(first.cont.access_token, second.cont.access_token);
    assert!(second.interact.user_code_uri.is_none());
    let inter = authority.repo().get_interaction_by_cont_id(&first.instance_id).unwrap();
    assert_eq!(inter.id, first.instance_id);
    assert_eq!(inter.continue_token, first.cont.access_token);
    assert_eq!(inter.as_nonce, first.interact.finish);
    let uri = authority
        .manage_cont_req(
            first.instance_id.clone(),
            RefBody { interact_ref: inter.interact_ref.clone() },
            first.cont.access_token.clone(),
        )
        .unwrap();
    let issuing = authority.repo().get_issuing(&first.instance_id).unwrap();
    assert_eq!(issuing.uri, uri);
    assert_eq!(issuing.tx_code.len(), 43);
    assert_ne!(issuing.tx_code, issuing.token);
    assert_eq!(authority.issuer_metadata().credential_issuer, "http://host.docker.internal:1500/api/v1/issuer");
    assert_eq!(authority.oauth_server_metadata().issuer, "http://host.docker.internal:1500/api/v1/issuer");
}

#[test]
fn a_credential_is_delivered_to_a_proved_holder_at_a_given_time() {
    let mut authority = new_core();
    approved_ceremony(&mut authority, "1");
    let at = Instant { secs: 1_700_000_000, nanos: 0 };
    let e = authority.deliver_credential("bearer-9", holder_did().as_str(), authority_did().as_str(), authority_pem().as_str(), &at).unwrap_err();
    assert_eq!((e.kind, e.reason), (ErrorKind::MissingResource, Reason::NotFound));
    let e = authority.deliver_credential("bearer-1", holder_did().as_str(), authority_did().as_str(), "no key", &at).unwrap_err();
    assert_eq!((e.kind, e.reason), (ErrorKind::BadFormat, Reason::SigningFailed));
    assert_eq!(authority.repo().get_issuing("ceremony-1").unwrap().did, None);
    assert!(authority.repo().get_all_minions(None, None).is_empty());

    let given = authority.deliver_credential("bearer-1", holder_did().as_str(), authority_did().as_str(), authority_pem().as_str(), &at).unwrap();
    let mut expected = authority.repo().get_issuing("ceremony-1").unwrap();
    assert_eq!(expected.did, Some(holder_did()));
    assert_eq!(expected.credential, Some(given.credential.clone()));
    expected.credential = None;
    let alone = issuer_at("127.0.0.1", true)
        .issue_cred_at(&mut expected, authority_did().as_str(), authority_pem().as_str(), &at)
        .unwrap();
    assert_eq!(alone, given);
    let minion = authority.repo().get_minion(holder_did().as_str()).unwrap();
    assert_eq!(minion.last_interaction, at);
    assert_eq!(minion.participant_type, "Minion");
    assert_eq!(minion.base_url, Some("http://client.example".to_string()));

    let later = Instant { secs: 1_800_000_000, nanos: 0 };
    let again = authority.deliver_credential("bearer-1", "did:jwk:other", "did:x", "no key", &later).unwrap();
    assert_eq!(again, given);
    assert_eq!(authority.repo().get_issuing("ceremony-1").unwrap().did, Some(holder_did()));
    assert_eq!(authority.repo().get_all_minions(None, None), vec![minion]);
}

#[test]
fn a_verification_is_concluded_with_the_outcome_of_its_check() {
    let mut authority = new_core();
    authority.manage_req_with(grant(&["oidc4vp"], "redirect", "IdentityCredential"), seed("1")).unwrap();
    let mut checked = authority.repo().get_verification("ceremony-1").unwrap();
    checked.vpt = Some("a.b.c".to_string());
    let failure = ds_authority::errors::Errors::security_new(Reason::NonceMismatch, "nonce");
    let e = authority.conclude_verification(checked.clone(), Err(failure.clone())).unwrap_err();
    assert_eq!(e, failure);
    assert_eq!(authority.repo().get_verification("ceremony-1").unwrap(), checked);

    checked.holder = Some(holder_did());
    let outcome = authority.conclude_verification(checked.clone(), Ok(())).unwrap();
    assert_eq!(
        outcome,
        EndOfVerification::Redirect(
            "http://client.example/cb?hash=hash-1&interact_ref=interact-ref-1".to_string()
        )
    );
    assert_eq!(authority.repo().get_verification("ceremony-1").unwrap(), checked);

    let mut unknown = checked.clone();
    unknown.id = "ceremony-9".to_string();
    let e = authority.conclude_verification(unknown, Ok(())).unwrap_err();
    assert_eq!((e.kind, e.reason), (ErrorKind::Database, Reason::NotFound));
}

#[test]
fn a_closed_ceremony_takes_no_further_step() {
    let mut authority = new_core();
    authority.manage_req_with(grant(&["oidc4vp"], "redirect", "DataspaceParticipantCredential"), seed("1")).unwrap();
    assert!(!authority.is_closed("ceremony-1"));
    assert!(!authority.is_closed("ceremony-9"));
    authority
        .manage_cont_req_with(
            "ceremony-1".to_string(),
            RefBody { interact_ref: "interact-ref-1".to_string() },
            "continue-token-1".to_string(),
            issuing_seed("1"),
        )
        .unwrap();
    let at = Instant { secs: 1_700_000_000, nanos: 0 };
    authority.deliver_credential("bearer-1", holder_did().as_str(), authority_did().as_str(), authority_pem().as_str(), &at).unwrap();
    assert!(authority.is_closed("ceremony-1"));
    let before = (
        authority.get_all(),
        authority.repo().get_all_interactions(None, None),
        authority.repo().get_all_verifications(None, None),
        authority.repo().get_all_issuings(None, None),
    );
    let sealed = (ErrorKind::Forbidden, Reason::Sealed);

    let audience = "http://host.docker.internal:1500/api/v1/verifier/verify/state-1";
    let vp = sign(holder_pem().as_str(), Some(holder_did().as_str()), &vp_claims(audience, "nonce-1", "ceremony-1", vec![good_vc()]));
    let e = authority.verify("state-1".to_string(), vp).unwrap_err();
    assert_eq!((e.kind, e.reason), sealed);
    let e = authority.decision_callback("ceremony-1", false).unwrap_err();
    assert_eq!((e.kind, e.reason), sealed);
    let e = CoreVcsTrait::manage_req(
        &mut authority,
        "ceremony-1".to_string(),
        VcDecisionApproval { approve: false },
        200,
    )
        .unwrap_err();
    assert_eq!((e.kind, e.reason), sealed);
    let e = authority.get_cred_offer_data("ceremony-1".to_string()).unwrap_err();
    assert_eq!((e.kind, e.reason), sealed);
    let uri = authority
        .manage_cont_req_with(
            "ceremony-1".to_string(),
            RefBody { interact_ref: "interact-ref-1".to_string() },
            "continue-token-1".to_string(),
            issuing_seed("2"),
        )
        .unwrap();
    assert_eq!(Some(uri), before.0[0].vc_uri);
    let after = (
        authority.get_all(),
        authority.repo().get_all_interactions(None, None),
        authority.repo().get_all_verifications(None, None),
        authority.repo().get_all_issuings(None, None),
    );
    assert_eq!(after, before);
}

#[test]
fn a_denied_ceremony_gets_no_credential() {
    let mut authority = new_core();
    approved_ceremony(&mut authority, "1");
    CoreVcsTrait::manage_req(
        &mut authority,
        "ceremony-1".to_string(),
        VcDecisionApproval { approve: false },
        200,
    ).unwrap();
    assert!(authority.is_closed("ceremony-1"));
    let at = Instant { secs: 1_700_000_000, nanos: 0 };
    let e = authority.deliver_credential("bearer-1", holder_did().as_str(), authority_did().as_str(), authority_pem().as_str(), &at).unwrap_err();
    assert_eq!((e.kind, e.reason), (ErrorKind::Forbidden, Reason::Sealed));
    assert_eq!(authority.repo().get_issuing("ceremony-1").unwrap().credential, None);
}

#[test]
fn the_orchestrator_hands_out_its_services_and_its_store() {
    let mut authority = new_core();
    authority.manage_req_with(grant(&["oidc4vp"], "redirect", "IdentityCredential"), seed("1")).unwrap();
    let offer = authority.issuer().generate_issuing_uri("ceremony-1");
    assert!(offer.starts_with("openid-credential-offer://"));
    assert_eq!(
        authority.vp_verifier().audience_for("state-1"),
        "http://host.docker.internal:1500/api/v1/verifier/verify/state-1"
    );
    let stored = authority.repo().get_interaction("ceremony-1").unwrap();
    assert!(authority
        .gatekeeper()
        .validate_cont_req(&stored, stored.interact_ref.clone(), stored.continue_token.clone())
        .is_ok());
    assert_eq!(authority.repo().len(), 1);
}

#[test]
fn a_refused_presentation_leaves_the_holder_that_the_binding_checks_leave() {
    let svc = verifier_at("authority.example", false);
    let audience = "http://authority.example:1500/api/v1/verifier/verify/state-1";
    let before = Some("did:jwk:someone-else".to_string());

    let mut model = stored_verification();
    model.holder = before.clone();
    let wrong_nonce = sign(
        holder_pem().as_str(),
        Some(holder_did().as_str()),
        &vp_claims(audience, "another-nonce", "ceremony-1", vec![good_vc()]),
    );
    let e = svc.verify_vp(&mut model, &wrong_nonce).unwrap_err();
    assert_eq!((e.kind, e.reason), (ErrorKind::Security, Reason::NonceMismatch));
    assert_eq!(model.vpt, Some(wrong_nonce));
    assert_eq!(model.holder, before);
    assert_eq!(model.nonce, "nonce-1");

    let mut model = stored_verification();
    model.holder = before.clone();
    let e = svc.verify_all(&mut model, "garbage".to_string()).unwrap_err();
    assert_eq!((e.kind, e.reason), (ErrorKind::Security, Reason::MalformedToken));
    assert_eq!(model.holder, before);

    let mut model = stored_verification();
    model.holder = before.clone();
    let wrong_id = sign(
        holder_pem().as_str(),
        Some(holder_did().as_str()),
        &vp_claims(audience, "nonce-1", "ceremony-2", vec![good_vc()]),
    );
    let e = svc.verify_all(&mut model, wrong_id).unwrap_err();
    assert_eq!((e.kind, e.reason), (ErrorKind::Security, Reason::PresentationIdMismatch));
    assert_eq!(model.holder, Some(holder_did()));
}
