use sha2::Digest;
use webidentity::{
    build_canonical_string, create_signed_headers_at, get_identity, pubkey_of,
    resolve_location_url, sign_bytes, verify_request, verify_request_at, verify_signature,
    HeaderProvider, SignatureError, SimpleHeaderProvider, WebIdentityError,
};

fn signing_key() -> [u8; 32] {
    [7u8; 32]
}

fn public_key() -> Vec<u8> {
    pubkey_of(&signing_key()).unwrap()
}

fn pk_hex() -> String {
    hex::encode(public_key())
}

fn doc_with(extra: &str) -> String {
    format!(
        "<html><head><meta name=\"identity:public-key\" content=\"ed25519-pub:{}\">{}</head></html>",
        pk_hex(),
        extra
    )
}

fn source_url() -> url::Url {
    url::Url::parse("https://example.com/id").unwrap()
}

#[test]
fn identity_id_is_deterministic_and_matches_sha256() {
    let key = public_key();
    let ident1 = get_identity(&source_url(), &doc_with("")).unwrap();
    let ident2 = get_identity(&source_url(), &doc_with("")).unwrap();
    assert_eq!(ident1.id, ident2.id);
    let expected = hex::encode(sha2::Sha256::digest(&key));
    assert_eq!(ident1.id, expected);
    assert_eq!(ident1.public_key, key);
}

#[test]
fn sign_and_verify_round_trip() {
    let key = signing_key();
    let pk = public_key();
    let ts: u64 = 1_700_000_000;
    let headers =
        create_signed_headers_at("example.com/id", "post", "example.com", "/v1/messages", b"hello", &key, ts)
            .unwrap();
    let r = verify_request_at(
        "post",
        "example.com",
        "/v1/messages",
        b"hello",
        &headers,
        &pk,
        300,
        ts + 10,
    );
    assert!(r.is_ok());
}

#[test]
fn sign_and_verify_round_trip_with_clock() {
    let key = signing_key();
    let pk = public_key();
    let headers = webidentity::create_signed_headers(
        "example.com/id",
        "get",
        "example.com",
        "/",
        b"",
        &key,
    )
    .unwrap();
    let r = verify_request("get", "example.com", "/", b"", &headers, &pk, 300);
    assert!(r.is_ok());
}

#[test]
fn tampering_any_field_gives_signature_mismatch() {
    let key = signing_key();
    let pk = public_key();
    let ts: u64 = 1_700_000_000;
    let headers =
        create_signed_headers_at("example.com/id", "post", "example.com", "/v1/messages", b"hello", &key, ts)
            .unwrap();
    let cases: [(&str, &str, &str, &[u8]); 4] = [
        ("put", "example.com", "/v1/messages", b"hello"),
        ("post", "example.org", "/v1/messages", b"hello"),
        ("post", "example.com", "/v1/other", b"hello"),
        ("post", "example.com", "/v1/messages", b"hullo"),
    ];
    for (method, host, path, body) in cases {
        let r = verify_request_at(method, host, path, body, &headers, &pk, 300, ts + 10);
        assert!(matches!(
            r,
            Err(WebIdentityError::Signature(SignatureError::SignatureMismatch))
        ));
    }
}

#[test]
fn expired_timestamp_is_rejected_and_fresh_one_accepted() {
    let key = signing_key();
    let pk = public_key();
    let ts: u64 = 1_700_000_000;
    let headers =
        create_signed_headers_at("example.com/id", "get", "example.com", "/", b"", &key, ts).unwrap();
    let stale = verify_request_at("get", "example.com", "/", b"", &headers, &pk, 300, ts + 301);
    assert!(matches!(
        stale,
        Err(WebIdentityError::Signature(SignatureError::TimestampExpired))
    ));
    let fresh = verify_request_at("get", "example.com", "/", b"", &headers, &pk, 300, ts + 300);
    assert!(fresh.is_ok());
    let future = verify_request_at("get", "example.com", "/", b"", &headers, &pk, 300, ts - 100);
    assert!(future.is_ok());
}

#[test]
fn resolve_plain_host_prepends_https() {
    let u = resolve_location_url("example.com").unwrap();
    assert_eq!(u.scheme(), "https");
    assert_eq!(u.host_str(), Some("example.com"));
}

#[test]
fn resolve_keeps_explicit_http() {
    let u = resolve_location_url("http://example.com").unwrap();
    assert_eq!(u.scheme(), "http");
    assert_eq!(u.host_str(), Some("example.com"));
    assert_eq!(u.as_str(), "http://example.com/");
}

#[test]
fn resolve_rejects_other_schemes() {
    let r = resolve_location_url("ftp://example.com");
    assert!(matches!(
        r,
        Err(WebIdentityError::UnsupportedProtocol(s)) if s == "ftp"
    ));
}

#[test]
fn resolve_reports_parse_failures() {
    let r = resolve_location_url("exa mple.com");
    assert!(matches!(r, Err(WebIdentityError::UrlParse(_))));
}

#[test]
fn display_name_falls_back_to_og_title() {
    let doc = doc_with("<meta property=\"og:title\" content=\"A Title\">");
    let ident = get_identity(&source_url(), &doc).unwrap();
    assert_eq!(ident.display_name, "A Title");
}

#[test]
fn display_name_falls_back_to_location() {
    let ident = get_identity(&source_url(), &doc_with("")).unwrap();
    assert_eq!(ident.display_name, "example.com/id");
    assert_eq!(ident.location, "example.com/id");
}

#[test]
fn display_name_prefers_earlier_sources() {
    let doc = doc_with(
        "<meta property=\"og:title\" content=\"A Title\">\
         <meta name=\"author\" content=\"An Author\">\
         <meta name=\"identity:display-name\" content=\"The Name\">",
    );
    let ident = get_identity(&source_url(), &doc).unwrap();
    assert_eq!(ident.display_name, "The Name");
}

#[test]
fn empty_display_name_counts_as_absent() {
    let doc = doc_with(
        "<meta name=\"identity:display-name\" content=\"\">\
         <meta name=\"author\" content=\"An Author\">",
    );
    let ident = get_identity(&source_url(), &doc).unwrap();
    assert_eq!(ident.display_name, "An Author");
}

#[test]
fn missing_public_key_is_reported() {
    let doc = "<html><head><meta property=\"og:title\" content=\"T\"></head></html>";
    let r = get_identity(&source_url(), doc);
    assert!(matches!(r, Err(WebIdentityError::MissingPublicKey)));
}

#[test]
fn public_key_with_bad_hex_is_rejected() {
    let doc = "<html><head><meta name=\"identity:public-key\" content=\"ed25519-pub:zz11\"></head></html>";
    let r = get_identity(&source_url(), doc);
    assert!(matches!(
        r,
        Err(WebIdentityError::InvalidPublicKeyFormat(reason)) if reason == "Invalid hex encoding."
    ));
}

#[test]
fn public_key_with_wrong_length_is_rejected() {
    let doc = "<html><head><meta name=\"identity:public-key\" content=\"ed25519-pub:aabb\"></head></html>";
    let r = get_identity(&source_url(), doc);
    assert!(matches!(
        r,
        Err(WebIdentityError::InvalidPublicKeyFormat(reason)) if reason == "Wrong key size"
    ));
}

#[test]
fn public_key_with_wrong_prefix_is_rejected() {
    let doc = format!(
        "<html><head><meta name=\"identity:public-key\" content=\"rsa-pub:{}\"></head></html>",
        pk_hex()
    );
    let r = get_identity(&source_url(), &doc);
    assert!(matches!(
        r,
        Err(WebIdentityError::InvalidPublicKeyFormat(reason))
            if reason == "This server only supports keys that start with 'ed25519-pub:'."
    ));
}

#[test]
fn structurally_invalid_public_key_is_rejected() {
    let mut candidate = [0u8; 32];
    let mut found = false;
    for b in 0..=255u8 {
        candidate[0] = b;
        if ed25519_dalek::VerifyingKey::from_bytes(&candidate).is_err() {
            found = true;
            break;
        }
    }
    assert!(found);
    let doc = format!(
        "<html><head><meta name=\"identity:public-key\" content=\"ed25519-pub:{}\"></head></html>",
        hex::encode(candidate)
    );
    let r = get_identity(&source_url(), &doc);
    assert!(matches!(
        r,
        Err(WebIdentityError::InvalidPublicKeyFormat(reason))
            if reason == "Not a valid Ed25519 public key."
    ));
}

#[test]
fn canonical_string_trims_trailing_slash_but_keeps_root() {
    let with_slash =
        build_canonical_string("post", "example.com", "/v1/messages/", "BODYHASH", "example.com", "123");
    let without_slash =
        build_canonical_string("post", "example.com", "/v1/messages", "BODYHASH", "example.com", "123");
    assert_eq!(with_slash, without_slash);
    assert_eq!(
        with_slash,
        "POST\nexample.com\n/v1/messages\nBODYHASH\nexample.com\n123"
    );
    let root = build_canonical_string("get", "example.com", "/", "BODYHASH", "example.com", "123");
    assert_eq!(root, "GET\nexample.com\n/\nBODYHASH\nexample.com\n123");
}

#[test]
fn missing_headers_are_reported_in_order() {
    let pk = public_key();
    let mut headers = SimpleHeaderProvider::new();
    let r = verify_request_at("get", "h", "/", b"", &headers, &pk, 300, 0);
    assert!(matches!(
        r,
        Err(WebIdentityError::Signature(SignatureError::MissingHeader(n))) if n == "WebIdentity-Location"
    ));
    headers.insert("WebIdentity-Location".to_string(), "h".to_string());
    let r = verify_request_at("get", "h", "/", b"", &headers, &pk, 300, 0);
    assert!(matches!(
        r,
        Err(WebIdentityError::Signature(SignatureError::MissingHeader(n))) if n == "WebIdentity-Timestamp"
    ));
    headers.insert("WebIdentity-Timestamp".to_string(), "0".to_string());
    let r = verify_request_at("get", "h", "/", b"", &headers, &pk, 300, 0);
    assert!(matches!(
        r,
        Err(WebIdentityError::Signature(SignatureError::MissingHeader(n))) if n == "WebIdentity-Signature"
    ));
}

#[test]
fn invalid_timestamps_are_reported() {
    let pk = public_key();
    let mut headers = SimpleHeaderProvider::new();
    headers.insert("WebIdentity-Location".to_string(), "h".to_string());
    headers.insert("WebIdentity-Timestamp".to_string(), "abc".to_string());
    headers.insert("WebIdentity-Signature".to_string(), "00".to_string());
    let r = verify_request_at("get", "h", "/", b"", &headers, &pk, 300, 0);
    assert!(matches!(
        r,
        Err(WebIdentityError::Signature(SignatureError::InvalidTimestamp(s))) if s == "abc"
    ));
    headers.insert(
        "WebIdentity-Timestamp".to_string(),
        "18446744073709551616".to_string(),
    );
    let r = verify_request_at("get", "h", "/", b"", &headers, &pk, 300, 0);
    assert!(matches!(
        r,
        Err(WebIdentityError::Signature(SignatureError::InvalidTimestamp(_)))
    ));
}

#[test]
fn timestamp_with_leading_plus_parses() {
    let pk = public_key();
    let mut headers = SimpleHeaderProvider::new();
    headers.insert("WebIdentity-Location".to_string(), "h".to_string());
    headers.insert("WebIdentity-Timestamp".to_string(), "+5".to_string());
    headers.insert("WebIdentity-Signature".to_string(), "not-hex".to_string());
    let r = verify_request_at("get", "h", "/", b"", &headers, &pk, 300, 5);
    assert!(matches!(
        r,
        Err(WebIdentityError::Signature(SignatureError::SignatureMismatch))
    ));
}

#[test]
fn undecodable_signature_is_a_mismatch() {
    let key = signing_key();
    let pk = public_key();
    let ts: u64 = 1_700_000_000;
    let mut headers =
        create_signed_headers_at("h", "get", "h", "/", b"", &key, ts).unwrap();
    headers.insert("WebIdentity-Signature".to_string(), "0".to_string());
    let r = verify_request_at("get", "h", "/", b"", &headers, &pk, 300, ts);
    assert!(matches!(
        r,
        Err(WebIdentityError::Signature(SignatureError::SignatureMismatch))
    ));
}

#[test]
fn sign_bytes_and_verify_signature_round_trip() {
    let key = signing_key();
    let pk = public_key();
    let sig = sign_bytes(&key, b"payload").unwrap();
    assert_eq!(sig.len(), 64);
    assert!(verify_signature(&pk, b"payload", &sig).is_ok());
    let r = verify_signature(&pk, b"other payload", &sig);
    assert!(matches!(
        r,
        Err(WebIdentityError::Signature(SignatureError::SignatureMismatch))
    ));
    let short = sign_bytes(&[1u8; 16], b"payload");
    assert!(matches!(
        short,
        Err(WebIdentityError::Signature(SignatureError::SignatureMismatch))
    ));
}

#[test]
fn pubkey_of_matches_dalek() {
    let key = signing_key();
    let expected = ed25519_dalek::SigningKey::from_bytes(&key)
        .verifying_key()
        .to_bytes()
        .to_vec();
    assert_eq!(public_key(), expected);
    assert!(matches!(
        pubkey_of(&[1u8; 8]),
        Err(WebIdentityError::Crypto(_))
    ));
}

#[test]
fn signed_headers_match_manual_construction() {
    let key = signing_key();
    let ts: u64 = 1_700_000_123;
    let headers =
        create_signed_headers_at("example.com/id", "get", "example.com", "/x", b"body", &key, ts)
            .unwrap();
    assert_eq!(headers.get_header("WebIdentity-Location"), Some("example.com/id"));
    assert_eq!(headers.get_header("WebIdentity-Timestamp"), Some("1700000123"));
    let body_hash = hex::encode(sha2::Sha256::digest(b"body"));
    let canonical = format!(
        "GET\nexample.com\n/x\n{}\nexample.com/id\n1700000123",
        body_hash
    );
    let expected_sig = hex::encode(
        ed25519_dalek::Signer::sign(
            &ed25519_dalek::SigningKey::from_bytes(&key),
            canonical.as_bytes(),
        )
        .to_bytes(),
    );
    assert_eq!(headers.get_header("WebIdentity-Signature"), Some(expected_sig.as_str()));
    assert_eq!(headers.get_header("X-Other"), None);
}

#[test]
fn header_provider_insert_overwrites() {
    let mut headers = SimpleHeaderProvider::new();
    headers.insert("A".to_string(), "1".to_string());
    headers.insert("A".to_string(), "2".to_string());
    assert_eq!(headers.get_header("A"), Some("2"));
}
