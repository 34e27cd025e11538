use ds_authority::clock::Instant;
use ds_authority::errors::{ErrorKind, Errors, Reason};
use ds_authority::json::{parse_decimal, Json, Member};
use ds_authority::text::{
    contains_text, ct_eq, find_text_from, from_chars, opt_str_eq, replace_all, str_eq,
    strip_prefix, texts_eq, to_chars,
};
use ds_authority::services::client::{parse_answer, target_of, Answer, Target};
use ds_authority::services::waltid::{
    accepted, first_did, first_wallet_id, jwks_of, session_token,
};
use ds_authority::utils::{
    authorize_bearer, authorize_gnap, create_opaque_token, decoded_claims, extract_bearer_token,
    extract_gnap_token, get_claim, get_from_opt, get_opt_claim, has_expired, has_expired_at,
    is_active, is_active_at, jwk_of_did, split_did, token_check, trim_4_base, trim_path,
};

fn object(members: Vec<(&str, Json)>) -> Json {
    Json::Object(
        members.into_iter().map(|(name, value)| Member { name: name.to_string(), value }).collect(),
    )
}

fn text(value: &str) -> Json {
    Json::Text(value.to_string())
}

#[test]
fn trim_4_base_keeps_scheme_and_host() {
    assert_eq!(trim_4_base("http://example.org:80/a/b"), "http://example.org:80");
    assert_eq!(trim_4_base("http://example.org/"), "http://example.org");
    assert_eq!(trim_4_base("http://example.org"), "http://example.org");
    assert_eq!(trim_4_base("a/b"), "a/b");
    assert_eq!(trim_4_base("///x"), "//");
    assert_eq!(trim_4_base(""), "");
}

#[test]
fn split_did_at_first_hash() {
    assert_eq!(split_did("did:jwk:abc#0"), ("did:jwk:abc", Some("0")));
    assert_eq!(split_did("did:jwk:abc"), ("did:jwk:abc", None));
    assert_eq!(split_did("a#b#c"), ("a", Some("b#c")));
    assert_eq!(split_did("abc#"), ("abc", Some("")));
    assert_eq!(split_did("#abc"), ("", Some("abc")));
    assert_eq!(split_did(""), ("", None));
}

#[test]
fn trim_path_drops_last_segment() {
    assert_eq!(trim_path("/a/b/c"), "/a/b");
    assert_eq!(trim_path("/a/b/"), "/a/b");
    assert_eq!(trim_path("/abc"), "");
    assert_eq!(trim_path("abc"), "abc");
    assert_eq!(trim_path(""), "");
}

#[test]
fn text_survives_the_way_through_characters() {
    assert_eq!(to_chars("héllo"), vec!['h', 'é', 'l', 'l', 'o']);
    assert_eq!(from_chars(&vec!['h', 'é', 'l', 'l', 'o']), "héllo");
    assert_eq!(from_chars(&to_chars("日本語 text")), "日本語 text");
}

#[test]
fn replace_all_replaces_every_match_from_the_left() {
    assert_eq!(
        replace_all("http://127.0.0.1:1500/api", "127.0.0.1", "host.docker.internal"),
        "http://host.docker.internal:1500/api"
    );
    assert_eq!(replace_all("aaa", "aa", "b"), "ba");
    assert_eq!(replace_all("abcabc", "bc", ""), "aa");
    assert_eq!(replace_all("abc", "x", "y"), "abc");
    assert_eq!(replace_all("abc", "", "y"), "abc");
    assert_eq!(replace_all("", "a", "b"), "");
    assert_eq!(replace_all("did:jwk:abc", "did:jwk:", ""), "abc");
    assert_eq!(replace_all("abab", "ab", "abab"), "abababab");
}

#[test]
fn replace_all_agrees_with_the_standard_library_on_non_empty_patterns() {
    let cases = [
        ("127.0.0.1 and 127.0.0.1", "127.0.0.1", "host"),
        ("aaaa", "aa", "a"),
        ("xyz", "xyz", ""),
        ("xyzxy", "xy", "yx"),
        ("ééé", "é", "e"),
    ];
    for (s, from, to) in cases {
        assert_eq!(replace_all(s, from, to), s.replace(from, to));
    }
}

#[test]
fn equality_of_texts() {
    assert!(str_eq("abc", "abc"));
    assert!(!str_eq("abc", "abd"));
    assert!(!str_eq("abc", "ab"));
    assert!(str_eq("", ""));
    assert!(ct_eq("secret-token", "secret-token"));
    assert!(!ct_eq("secret-token", "secret-tokem"));
    assert!(!ct_eq("Xecret-token", "secret-token"));
    assert!(!ct_eq("secret", "secret-token"));
    assert!(!ct_eq("secret-token", "secret"));
    assert!(ct_eq("", ""));
    assert!(opt_str_eq(&None, &None));
    assert!(opt_str_eq(&Some("a".to_string()), &Some("a".to_string())));
    assert!(!opt_str_eq(&Some("a".to_string()), &None));
    assert!(!opt_str_eq(&None, &Some("a".to_string())));
    assert!(texts_eq(&vec!["a".to_string()], &vec!["a".to_string()]));
    assert!(!texts_eq(&vec!["a".to_string()], &vec!["b".to_string()]));
    assert!(!texts_eq(&vec!["a".to_string()], &vec![]));
}

#[test]
fn strip_prefix_and_membership() {
    assert_eq!(strip_prefix("CN=example", "CN="), Some("example".to_string()));
    assert_eq!(strip_prefix("example", "CN="), None);
    assert_eq!(strip_prefix("CN", "CN="), None);
    assert_eq!(strip_prefix("abc", ""), Some("abc".to_string()));
    let modes = vec!["redirect".to_string(), "oidc4vp".to_string()];
    assert!(contains_text(&modes, "oidc4vp"));
    assert!(!contains_text(&modes, "cross-user"));
    assert!(!contains_text(&vec![], "oidc4vp"));
}

#[test]
fn authorization_schemes() {
    assert_eq!(extract_gnap_token(Some("GNAP abc")), Some("abc".to_string()));
    assert_eq!(extract_gnap_token(Some("GNAP ")), Some("".to_string()));
    assert_eq!(extract_gnap_token(Some("Bearer abc")), None);
    assert_eq!(extract_gnap_token(Some("gnap abc")), None);
    assert_eq!(extract_gnap_token(None), None);
    assert_eq!(extract_bearer_token(Some("Bearer abc def")), Some("abc def".to_string()));
    assert_eq!(extract_bearer_token(Some("GNAP abc")), None);
    assert_eq!(extract_bearer_token(Some("Bearer")), None);
    assert_eq!(extract_bearer_token(None), None);
}

#[test]
fn opaque_token_is_32_bytes_in_url_safe_base64() {
    let token = create_opaque_token();
    assert_eq!(token.len(), 43);
    assert!(token.chars().all(|c| c.is_ascii_alphanumeric() || c == '-' || c == '_'));
    assert_ne!(token, create_opaque_token());
}

#[test]
fn decimal_numbers() {
    assert_eq!(parse_decimal("0"), Some(0));
    assert_eq!(parse_decimal("1700000000"), Some(1_700_000_000));
    assert_eq!(parse_decimal("18446744073709551615"), Some(u64::MAX));
    assert_eq!(parse_decimal("18446744073709551616"), None);
    assert_eq!(parse_decimal("99999999999999999999999"), None);
    assert_eq!(parse_decimal(""), None);
    assert_eq!(parse_decimal("-1"), None);
    assert_eq!(parse_decimal("1.5"), None);
    assert_eq!(parse_decimal("12a"), None);
    assert_eq!(parse_decimal("007"), Some(7));
}

#[test]
fn json_lookups() {
    let claims = object(vec![
        ("nonce", text("n-1")),
        ("count", Json::Number("7".to_string())),
        ("vp", object(vec![("id", text("c-1")), ("list", Json::Array(vec![text("a"), text("b")]))])),
        ("nonce", text("n-2")),
    ]);
    assert_eq!(claims.get("nonce"), Some(&text("n-2")));
    assert_eq!(claims.get("missing"), None);
    assert_eq!(text("x").get("nonce"), None);
    assert_eq!(claims.get("nonce").unwrap().as_text(), Some(&"n-2".to_string()));
    assert_eq!(claims.get("count").unwrap().as_text(), None);
    assert_eq!(claims.get("count").unwrap().as_unsigned(), Some(7));
    assert_eq!(claims.get("nonce").unwrap().as_unsigned(), None);
    let list = claims.get("vp").unwrap().get("list").unwrap();
    assert_eq!(list.as_text_list(), Some(vec!["a".to_string(), "b".to_string()]));
    assert_eq!(Json::Array(vec![text("a"), Json::Null]).as_text_list(), None);
    assert_eq!(Json::Array(vec![]).as_text_list(), Some(vec![]));
    assert_eq!(text("a").as_text_list(), None);
    assert_eq!(
        Json::text_list(&vec!["a".to_string(), "b".to_string()]),
        Json::Array(vec![text("a"), text("b")])
    );
}

#[test]
fn claims_are_read_along_a_path() {
    let claims = object(vec![
        ("nonce", text("n-1")),
        ("n", Json::Number("1".to_string())),
        ("vp", object(vec![("id", text("c-1")), ("holder", Json::Null)])),
    ]);
    assert_eq!(get_claim(&claims, vec!["nonce"]).unwrap(), "n-1");
    assert_eq!(get_claim(&claims, vec!["vp", "id"]).unwrap(), "c-1");
    let missing = get_claim(&claims, vec!["vp", "nope"]).unwrap_err();
    assert_eq!(missing.kind, ErrorKind::BadFormat);
    assert_eq!(missing.reason, Reason::MissingField);
    assert_eq!(missing.detail, "nope");
    let through_text = get_claim(&claims, vec!["nonce", "deeper"]).unwrap_err();
    assert_eq!(through_text.reason, Reason::MissingField);
    let not_text = get_claim(&claims, vec!["vp", "holder"]).unwrap_err();
    assert_eq!(not_text.kind, ErrorKind::BadFormat);
    assert_eq!(not_text.reason, Reason::NotAString);
    assert_eq!(not_text.detail, "holder");
    assert_eq!(get_claim(&claims, vec![]).unwrap_err().reason, Reason::NotAString);

    assert_eq!(get_opt_claim(&claims, vec!["nonce"]).unwrap(), Some("n-1".to_string()));
    assert_eq!(get_opt_claim(&claims, vec!["sub"]).unwrap(), None);
    assert_eq!(get_opt_claim(&claims, vec!["vp", "nope"]).unwrap(), None);
    assert_eq!(get_opt_claim(&claims, vec!["n"]).unwrap_err().reason, Reason::NotAString);
}

#[test]
fn option_values() {
    assert_eq!(get_from_opt(&Some("x".to_string()), "did").unwrap(), "x");
    let e = get_from_opt(&None, "did").unwrap_err();
    assert_eq!(e.kind, ErrorKind::BadFormat);
    assert_eq!(e.reason, Reason::MissingField);
    assert_eq!(e.detail, "did");
}

#[test]
fn a_token_is_in_force_between_iat_and_exp() {
    let now = Instant { secs: 1000, nanos: 5 };
    assert!(is_active_at(1000, &now).is_ok());
    assert!(is_active_at(999, &now).is_ok());
    let early = is_active_at(1001, &now).unwrap_err();
    assert_eq!(early.kind, ErrorKind::Forbidden);
    assert_eq!(early.reason, Reason::NotYetValid);
    assert!(has_expired_at(1000, &now).is_ok());
    assert!(has_expired_at(1001, &now).is_ok());
    let late = has_expired_at(999, &now).unwrap_err();
    assert_eq!(late.kind, ErrorKind::Forbidden);
    assert_eq!(late.reason, Reason::Expired);
    let before_epoch = Instant { secs: -1, nanos: 0 };
    assert!(is_active_at(0, &before_epoch).is_err());
    assert!(has_expired_at(0, &before_epoch).is_ok());
    assert!(is_active_at(u64::MAX, &now).is_err());
}

#[test]
fn what_the_clock_cannot_change() {
    assert!(is_active(0).is_ok());
    let never = is_active(9_223_372_036_854_775_808).unwrap_err();
    assert_eq!((never.kind, never.reason), (ErrorKind::Forbidden, Reason::NotYetValid));
    assert_eq!(never.http_code, None);
    assert!(has_expired(9_223_372_036_854_775_807).is_ok());
    assert!(has_expired(u64::MAX).is_ok());
}

#[test]
fn the_clock_of_the_machine_is_after_2020_and_before_the_end_of_time() {
    assert!(is_active(1_577_836_800).is_ok());
    assert_eq!(is_active(u64::MAX).unwrap_err().reason, Reason::NotYetValid);
    assert!(has_expired(u64::MAX).is_ok());
    assert_eq!(has_expired(1_577_836_800).unwrap_err().reason, Reason::Expired);
}

#[test]
fn token_checks_follow_the_expected_audience() {
    let open = token_check(None);
    assert!(open.required_claims.is_empty());
    assert!(!open.validate_exp);
    assert!(open.validate_nbf);
    assert!(!open.validate_aud);
    assert!(open.audience.is_empty());
    let bound = token_check(Some("http://a/verify/s"));
    assert!(bound.validate_aud);
    assert_eq!(bound.audience, vec!["http://a/verify/s".to_string()]);
    assert!(!bound.validate_exp);
    assert!(bound.validate_nbf);
}

#[test]
fn failures_map_to_statuses() {
    let status = |kind, reason| Errors::new(kind, reason, "x").status();
    assert_eq!(status(ErrorKind::BadFormat, Reason::MissingField), 400);
    assert_eq!(status(ErrorKind::NotImplemented, Reason::UnsupportedStart), 501);
    assert_eq!(status(ErrorKind::Security, Reason::ContinueTokenMismatch), 401);
    assert_eq!(status(ErrorKind::Security, Reason::InteractRefMismatch), 401);
    assert_eq!(status(ErrorKind::Security, Reason::NonceMismatch), 403);
    assert_eq!(status(ErrorKind::Forbidden, Reason::TxCodeMismatch), 403);
    assert_eq!(status(ErrorKind::Unauthorized, Reason::MissingToken), 401);
    assert_eq!(status(ErrorKind::MissingResource, Reason::NotFound), 404);
    assert_eq!(status(ErrorKind::Database, Reason::Conflict), 500);
    assert_eq!(status(ErrorKind::Read, Reason::InvalidSetting), 500);
    assert_eq!(status(ErrorKind::Consumer, Reason::CallbackRefused), 502);
    assert_eq!(Errors::consumer_new("http://c", Some(418)).status(), 418);
    assert_eq!(Errors::consumer_new("http://c", None).status(), 502);
}

#[test]
fn failures_are_built_in_their_class() {
    assert_eq!(Errors::format_new(Reason::MissingField, "a").kind, ErrorKind::BadFormat);
    assert_eq!(Errors::not_impl_new(Reason::UnsupportedStart, "a").kind, ErrorKind::NotImplemented);
    assert_eq!(Errors::security_new(Reason::NonceMismatch, "a").kind, ErrorKind::Security);
    assert_eq!(Errors::forbidden_new(Reason::Expired, "a").kind, ErrorKind::Forbidden);
    assert_eq!(Errors::unauthorized_new("a").kind, ErrorKind::Unauthorized);
    assert_eq!(Errors::missing_resource_new("k").kind, ErrorKind::MissingResource);
    assert_eq!(Errors::missing_resource_new("k").detail, "k");
    assert_eq!(Errors::database_new(Reason::Conflict, "a").kind, ErrorKind::Database);
    let refused = Errors::consumer_new("http://c", Some(500));
    assert_eq!(refused.kind, ErrorKind::Consumer);
    assert_eq!(refused.http_code, Some(500));
    let moved = Errors::format_new(Reason::MissingField, "nonce").into_security();
    assert_eq!(moved.kind, ErrorKind::Security);
    assert_eq!(moved.reason, Reason::MissingField);
    assert_eq!(moved.detail, "nonce");
    assert_eq!(moved.log(), "Security: nonce");
    assert_eq!(moved.kind_name(), "Security");
}

#[test]
fn a_request_without_its_header_is_unauthorized() {
    assert_eq!(authorize_gnap(Some("GNAP abc")).unwrap(), "abc");
    assert_eq!(authorize_bearer(Some("Bearer abc")).unwrap(), "abc");
    for refused in [
        authorize_gnap(None),
        authorize_gnap(Some("Bearer abc")),
        authorize_gnap(Some("")),
        authorize_bearer(None),
        authorize_bearer(Some("GNAP abc")),
        authorize_bearer(Some("bearer abc")),
    ] {
        let e = refused.unwrap_err();
        assert_eq!((e.kind, e.reason), (ErrorKind::Unauthorized, Reason::MissingToken));
        assert_eq!(e.status(), 401);
    }
}

#[test]
fn the_key_of_a_did_is_its_material_decoded() {
    assert_eq!(jwk_of_did("did:jwk:eyJhIjoxfQ").unwrap(), b"{\"a\":1}".to_vec());
    assert_eq!(jwk_of_did("did:jwk:eyJhIjoxfQ#0").unwrap(), b"{\"a\":1}".to_vec());
    assert_eq!(jwk_of_did("eyJhIjoxfQ").unwrap(), b"{\"a\":1}".to_vec());
    assert_eq!(jwk_of_did("did:jwk:").unwrap(), Vec::<u8>::new());
    for refused in ["did:jwk:eyJhIjoxfQ==", "did:jwk:a b", "did:web:example.org", "did:jwk:é"] {
        let e = jwk_of_did(refused).unwrap_err();
        assert_eq!((e.kind, e.reason), (ErrorKind::BadFormat, Reason::InvalidKeyEncoding));
    }
}

#[test]
fn the_answers_of_the_wallet_are_read() {
    let login = object(vec![("id", text("account")), ("token", text("session-token"))]);
    assert_eq!(session_token(&login).unwrap(), "session-token");
    let e = session_token(&object(vec![("id", text("account"))])).unwrap_err();
    assert_eq!((e.kind, e.reason), (ErrorKind::Consumer, Reason::MissingField));
    assert_eq!(e.status(), 502);
    let e = session_token(&object(vec![("token", Json::Null)])).unwrap_err();
    assert_eq!((e.kind, e.reason), (ErrorKind::Consumer, Reason::NotAString));
    assert_eq!(session_token(&text("token")).unwrap_err().reason, Reason::MissingField);

    let wallets = object(vec![(
        "wallets",
        Json::Array(vec![object(vec![("id", text("w-1"))]), object(vec![("id", text("w-2"))])]),
    )]);
    assert_eq!(first_wallet_id(&wallets).unwrap(), "w-1");
    let none = object(vec![("wallets", Json::Array(vec![]))]);
    assert_eq!(first_wallet_id(&none).unwrap_err().reason, Reason::MissingField);
    assert_eq!(first_wallet_id(&object(vec![])).unwrap_err().reason, Reason::MissingField);

    let dids = Json::Array(vec![
        object(vec![("did", text("did:jwk:a")), ("alias", text("first"))]),
        object(vec![("did", text("did:jwk:b"))]),
    ]);
    assert_eq!(first_did(&dids).unwrap(), "did:jwk:a");
    assert_eq!(first_did(&Json::Array(vec![])).unwrap_err().reason, Reason::MissingField);
    assert_eq!(first_did(&Json::Array(vec![object(vec![("did", Json::Bool(true))])])).unwrap_err().reason, Reason::NotAString);
    assert_eq!(dids.item(1).unwrap().get("did").unwrap(), &text("did:jwk:b"));
    assert_eq!(dids.item(2), None);
    assert_eq!(text("x").item(0), None);
}

#[test]
fn decoded_claims_are_handed_on_with_the_signer() {
    let claims = object(vec![("nonce", text("n-1"))]);
    let (read, signer) = decoded_claims(Ok(claims), "did:jwk:abc").unwrap();
    assert_eq!(read, object(vec![("nonce", text("n-1"))]));
    assert_eq!(signer, "did:jwk:abc");
}

#[test]
fn a_refused_token_is_a_security_failure() {
    let e = decoded_claims(Err("InvalidSignature".to_string()), "did:jwk:abc").unwrap_err();
    assert_eq!((e.kind, e.reason), (ErrorKind::Security, Reason::InvalidSignature));
    assert_eq!(e.detail, "InvalidSignature");
    assert_eq!(e.http_code, None);
    assert_eq!(e.status(), 403);
}

#[test]
fn the_wallet_takes_a_call_with_200_or_201() {
    assert!(accepted("http://wallet/login", 200).is_ok());
    assert!(accepted("http://wallet/register", 201).is_ok());
    let e = accepted("http://wallet/login", 401).unwrap_err();
    assert_eq!((e.kind, e.reason), (ErrorKind::Consumer, Reason::CallbackRefused));
    assert_eq!(e.detail, "http://wallet/login");
    assert_eq!(e.http_code, Some(401));
    assert_eq!(e.status(), 401);
    assert_eq!(accepted("http://wallet/login", 409).unwrap_err().http_code, Some(409));
}

#[test]
fn a_key_is_published_as_a_key_set() {
    let jwk = object(vec![("kty", text("RSA")), ("e", text("AQAB"))]);
    assert_eq!(
        jwks_of(jwk),
        object(vec![(
            "keys",
            Json::Array(vec![object(vec![("kty", text("RSA")), ("e", text("AQAB"))])]),
        )])
    );
}

#[test]
fn a_pattern_is_found_at_its_first_place() {
    let text = to_chars("a\r\nb\r\n\r\nc\r\n\r\n");
    let blank = to_chars("\r\n\r\n");
    assert_eq!(find_text_from(&text, &blank, 0), 4);
    assert_eq!(find_text_from(&text, &blank, 5), 9);
    assert_eq!(find_text_from(&text, &blank, 10), text.len());
    assert_eq!(find_text_from(&text, &to_chars("zz"), 0), text.len());
    assert_eq!(find_text_from(&text, &blank, 99), text.len());
    assert_eq!(find_text_from(&text, &Vec::new(), 2), 2);
}

#[test]
fn a_url_leads_to_host_port_and_path() {
    assert_eq!(
        target_of("http://client.example/cb?x=1").unwrap(),
        Target {
            address: "client.example:80".to_string(),
            host: "client.example".to_string(),
            path: "/cb?x=1".to_string(),
        }
    );
    assert_eq!(
        target_of("http://127.0.0.1:7001").unwrap(),
        Target {
            address: "127.0.0.1:7001".to_string(),
            host: "127.0.0.1:7001".to_string(),
            path: "/".to_string(),
        }
    );
    for bad in ["https://client.example/cb", "http:///cb", "http://", "client.example", ""] {
        let e = target_of(bad).unwrap_err();
        assert_eq!((e.kind, e.reason), (ErrorKind::Consumer, Reason::CallbackRefused));
        assert_eq!(e.detail, bad);
        assert_eq!(e.http_code, None);
        assert_eq!(e.status(), 502);
    }
}

#[test]
fn an_answer_is_read_for_its_status_and_body() {
    let text = "HTTP/1.0 200 OK\r\nContent-Type: application/json\r\n\r\n{\"token\":\"t\"}";
    assert_eq!(
        parse_answer("http://w", text).unwrap(),
        Answer { status: 200, body: "{\"token\":\"t\"}".to_string() }
    );
    assert_eq!(
        parse_answer("http://w", "HTTP/1.1 404\r\n\r\n").unwrap(),
        Answer { status: 404, body: String::new() }
    );
    assert_eq!(
        parse_answer("http://w", "HTTP/1.0 502 Bad Gateway\r\n\r\na\r\n\r\nb").unwrap(),
        Answer { status: 502, body: "a\r\n\r\nb".to_string() }
    );
    for bad in [
        "",
        "HTTP/1.0 200 OK\r\nno blank line",
        "HTTP/1.0\r\n\r\nbody",
        "HTTP/1.0 OK 200\r\n\r\n",
        "HTTP/1.0 70000 OK\r\n\r\n",
        "HTTP/1.0  200 OK\r\n\r\n",
        "\r\n\r\nHTTP/1.0 200 OK",
    ] {
        let e = parse_answer("http://w", bad).unwrap_err();
        assert_eq!((e.kind, e.reason), (ErrorKind::Consumer, Reason::CallbackRefused));
        assert_eq!(e.detail, "http://w");
        assert_eq!(e.http_code, None);
    }
}
