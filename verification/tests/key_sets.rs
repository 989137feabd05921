//! Key sets as an authority publishes them.

use todo_api::auth::jwks::{jwks_uri, FetchOutcome, JWK, JWKS};
use todo_api::error::AuthError;

const TWO_KEYS: &str = r#"{
  "keys": [
    {
      "alg": "RS256", "kty": "RSA", "use": "sig",
      "n": "modulus-1", "e": "AQAB", "kid": "first", "x5t": "thumb-1",
      "x5c": ["cert-1a", "cert-1b"]
    },
    {
      "alg": "RS256", "kty": "RSA", "use": "enc",
      "n": "modulus-2", "e": "AQAB", "kid": "second", "x5t": "thumb-2",
      "x5c": [],
      "extra": {"ignored": true}
    }
  ]
}"#;

const ONE_KEY: &str = r#"{"alg":"RS256","kty":"RSA","use":"sig","n":"nn","e":"ee","kid":"k","x5t":"t","x5c":["c"]}"#;

fn response(status: u16, body: &str) -> FetchOutcome {
    FetchOutcome::Response { status, body: body.as_bytes().to_vec() }
}

fn document_of(text: &str) -> serde_json::Value {
    serde_json::from_str(text).unwrap()
}

#[test]
fn fetched_key_set_holds_the_keys_in_their_order() {
    let keys = JWKS::from_fetch(&response(200, TWO_KEYS)).unwrap();
    assert_eq!(keys.keys.len(), 2);
    let first = &keys.keys[0];
    assert_eq!(first.alg, "RS256");
    assert_eq!(first.kty, "RSA");
    assert_eq!(first.use_as, "sig");
    assert_eq!(first.n, "modulus-1");
    assert_eq!(first.e, "AQAB");
    assert_eq!(first.kid, "first");
    assert_eq!(first.x5t, "thumb-1");
    assert_eq!(first.x5c, vec!["cert-1a".to_string(), "cert-1b".to_string()]);
    let second = &keys.keys[1];
    assert_eq!(second.use_as, "enc");
    assert_eq!(second.n, "modulus-2");
    assert_eq!(second.kid, "second");
    assert_eq!(second.x5t, "thumb-2");
    assert!(second.x5c.is_empty());
    assert_eq!(keys.position("second"), Some(1));
}

#[test]
fn every_success_status_yields_the_key_set() {
    for status in [200, 201, 204, 250, 299] {
        assert_eq!(JWKS::from_fetch(&response(status, TWO_KEYS)).unwrap().keys.len(), 2);
    }
}

#[test]
fn any_other_status_yields_no_key_set() {
    for status in [0, 100, 199, 300, 301, 304, 400, 401, 403, 404, 500, 503, u16::MAX] {
        let error = JWKS::from_fetch(&response(status, TWO_KEYS)).err().unwrap();
        assert_eq!(error, AuthError::AuthorityUnavailable);
    }
}

#[test]
fn fetch_without_a_response_yields_no_key_set() {
    assert_eq!(
        JWKS::from_fetch(&FetchOutcome::Unreachable).err(),
        Some(AuthError::AuthorityUnavailable)
    );
    assert_eq!(
        JWKS::from_fetch(&FetchOutcome::TimedOut).err(),
        Some(AuthError::AuthorityUnavailable)
    );
    assert_eq!(AuthError::AuthorityUnavailable.status_code(), 500);
}

#[test]
fn body_that_is_no_json_yields_no_key_set() {
    for body in ["", "keys", "{", r#"{"keys": [}"#, "<html></html>", r#"{"keys": []} trailing"#] {
        assert_eq!(
            JWKS::from_fetch(&response(200, body)).err(),
            Some(AuthError::AuthorityUnavailable)
        );
    }
}

#[test]
fn body_that_is_no_utf8_yields_no_key_set() {
    let mut body = br#"{"keys": [], "note": ""#.to_vec();
    body.extend_from_slice(&[0xff, 0xfe]);
    body.extend_from_slice(br#""}"#);
    let outcome = FetchOutcome::Response { status: 200, body };
    assert_eq!(JWKS::from_fetch(&outcome).err(), Some(AuthError::AuthorityUnavailable));
}

#[test]
fn body_of_another_shape_yields_no_key_set() {
    for body in [
        "null",
        "[]",
        "{}",
        r#"{"keys": null}"#,
        r#"{"keys": {}}"#,
        r#"{"keys": "none"}"#,
        r#"{"Keys": []}"#,
        r#"{"keys": [null]}"#,
        r#"{"keys": [[]]}"#,
    ] {
        assert_eq!(
            JWKS::from_fetch(&response(200, body)).err(),
            Some(AuthError::AuthorityUnavailable)
        );
    }
}

#[test]
fn key_set_without_keys_is_a_key_set() {
    let keys = JWKS::from_fetch(&response(200, r#"{"keys": []}"#)).unwrap();
    assert!(keys.keys.is_empty());
    let keys = JWKS::from_fetch(&response(200, r#"{"keys": [], "more": 1}"#)).unwrap();
    assert!(keys.keys.is_empty());
}

#[test]
fn one_key_that_lacks_a_member_spoils_the_whole_key_set() {
    for member in ["alg", "kty", "use", "n", "e", "kid", "x5t", "x5c"] {
        let mut broken = document_of(ONE_KEY);
        broken.as_object_mut().unwrap().remove(member);
        assert!(JWK::from_json(&broken).is_none());
        let body = format!(r#"{{"keys": [{}, {}, {}]}}"#, ONE_KEY, broken, ONE_KEY);
        assert_eq!(
            JWKS::from_fetch(&response(200, &body)).err(),
            Some(AuthError::AuthorityUnavailable)
        );
        let document = document_of(&body);
        assert!(JWKS::from_json(&document).is_none());
    }
    let body = format!(r#"{{"keys": [{}, {}]}}"#, ONE_KEY, ONE_KEY);
    assert_eq!(JWKS::from_fetch(&response(200, &body)).unwrap().keys.len(), 2);
}

#[test]
fn member_of_the_wrong_type_is_no_member() {
    for member in ["alg", "kty", "use", "n", "e", "kid", "x5t"] {
        for wrong in ["null", "1", "true", "[]", "{}", r#"["RS256"]"#] {
            let mut broken = document_of(ONE_KEY);
            broken.as_object_mut().unwrap().insert(member.to_string(), document_of(wrong));
            assert!(JWK::from_json(&broken).is_none());
        }
    }
    for wrong in ["null", "1", r#""c""#, "{}", "[1]", r#"["c", null]"#, r#"["c", ["d"]]"#] {
        let mut broken = document_of(ONE_KEY);
        broken.as_object_mut().unwrap().insert("x5c".to_string(), document_of(wrong));
        assert!(JWK::from_json(&broken).is_none());
    }
}

#[test]
fn key_is_read_from_its_document() {
    let key = JWK::from_json(&document_of(ONE_KEY)).unwrap();
    assert_eq!(key.alg, "RS256");
    assert_eq!(key.kty, "RSA");
    assert_eq!(key.use_as, "sig");
    assert_eq!(key.n, "nn");
    assert_eq!(key.e, "ee");
    assert_eq!(key.kid, "k");
    assert_eq!(key.x5t, "t");
    assert_eq!(key.x5c, vec!["c".to_string()]);
    assert!(JWK::from_json(&document_of("[]")).is_none());
    assert!(JWK::from_json(&document_of("null")).is_none());
    assert!(JWK::from_json(&document_of(r#""key""#)).is_none());
}

#[test]
fn key_set_is_read_from_its_document() {
    let keys = JWKS::from_json(&document_of(TWO_KEYS)).unwrap();
    assert_eq!(keys.keys.len(), 2);
    assert_eq!(keys.keys[0].kid, "first");
    assert_eq!(keys.keys[1].kid, "second");
    assert!(JWKS::from_json(&document_of(ONE_KEY)).is_none());
}

#[test]
fn process_starts_with_no_keys_where_the_fetch_failed() {
    assert!(JWKS::at_startup(&FetchOutcome::Unreachable).keys.is_empty());
    assert!(JWKS::at_startup(&FetchOutcome::TimedOut).keys.is_empty());
    assert!(JWKS::at_startup(&response(500, TWO_KEYS)).keys.is_empty());
    assert!(JWKS::at_startup(&response(200, "{}")).keys.is_empty());
    assert_eq!(JWKS::at_startup(&response(200, TWO_KEYS)).keys.len(), 2);
    assert!(JWKS::empty().keys.is_empty());
}

#[test]
fn copy_of_a_key_set_holds_the_same_keys() {
    let keys = JWKS::from_fetch(&response(200, TWO_KEYS)).unwrap();
    let copy = keys.clone();
    assert_eq!(copy.keys.len(), 2);
    for (source, copied) in keys.keys.iter().zip(copy.keys.iter()) {
        assert_eq!(source.alg, copied.alg);
        assert_eq!(source.kty, copied.kty);
        assert_eq!(source.use_as, copied.use_as);
        assert_eq!(source.n, copied.n);
        assert_eq!(source.e, copied.e);
        assert_eq!(source.kid, copied.kid);
        assert_eq!(source.x5t, copied.x5t);
        assert_eq!(source.x5c, copied.x5c);
    }
    let key = keys.keys[0].clone();
    assert_eq!(key.kid, "first");
    assert_eq!(key.x5c.len(), 2);
}

#[test]
fn key_set_is_published_below_the_authority() {
    assert_eq!(
        jwks_uri("https://issuer.example/"),
        "https://issuer.example/.well-known/jwks.json"
    );
    assert_eq!(
        jwks_uri("https://issuer.example"),
        "https://issuer.example/.well-known/jwks.json"
    );
    assert_eq!(
        jwks_uri("https://issuer.example/tenant/"),
        "https://issuer.example/tenant/.well-known/jwks.json"
    );
    assert_eq!(jwks_uri("http://localhost:8081"), "http://localhost:8081/.well-known/jwks.json");
    assert_eq!(jwks_uri(""), "/.well-known/jwks.json");
    assert_eq!(jwks_uri("/"), "/.well-known/jwks.json");
    assert_eq!(jwks_uri("https://ümlaut.example"), "https://ümlaut.example/.well-known/jwks.json");
    assert_eq!(jwks_uri("https://x//"), "https://x//.well-known/jwks.json");
}
