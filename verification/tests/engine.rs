//! End-to-end tests of the token engine against the real outside crates.

use jwt_bearer::assertion;
use jwt_bearer::auth::Authenticator;
use jwt_bearer::auth::TokenStep;
use jwt_bearer::error::Error;
use jwt_bearer::error::ErrorKind;
use jwt_bearer::exchange;
use jwt_bearer::key;

use base64::Engine;
use rsa::pkcs8::EncodePrivateKey;
use rsa::signature::Verifier;

const TEST_P: [u8; 64] = [247, 217, 182, 206, 13, 166, 31, 201, 154, 60, 190, 149, 236, 49, 47, 52, 52, 81, 214, 229, 7, 84, 134, 50, 56, 112, 66, 26, 226, 106, 190, 33, 255, 126, 108, 249, 81, 47, 49, 32, 96, 60, 222, 195, 58, 84, 170, 29, 126, 119, 29, 126, 158, 210, 159, 174, 113, 186, 69, 183, 135, 241, 73, 225];
const TEST_Q: [u8; 64] = [193, 166, 89, 63, 112, 153, 216, 107, 112, 145, 215, 142, 48, 81, 123, 178, 152, 25, 198, 56, 86, 76, 91, 26, 240, 94, 86, 165, 88, 135, 157, 74, 114, 125, 196, 176, 108, 243, 169, 96, 59, 209, 227, 90, 147, 91, 36, 58, 205, 198, 158, 210, 201, 97, 231, 149, 209, 141, 162, 181, 153, 162, 187, 217];

/// The fixed RSA test key, rebuilt from its two primes.
fn test_rsa_key() -> rsa::RsaPrivateKey {
    rsa::RsaPrivateKey::from_p_q(
        rsa::BigUint::from_bytes_be(&TEST_P),
        rsa::BigUint::from_bytes_be(&TEST_Q),
        rsa::BigUint::from(65537u32),
    )
    .expect("the fixed test primes form an RSA key")
}

/// The test key as PKCS#8 PEM text, encoded at run time.
fn test_pem() -> String {
    test_rsa_key()
        .to_pkcs8_pem(rsa::pkcs8::LineEnding::LF)
        .expect("PEM encoding")
        .to_string()
}

const CLOUD_SCOPE: &str = "https://www.googleapis.com/auth/cloud-platform";

fn test_key_json() -> String {
    let head = "{\"type\":\"service_account\",\"project_id\":\"demo-project\",\"private_key_id\":\"kid-1\",\"private_key\":\"";
    let tail = "\",\"client_email\":\"robot@demo-project.iam.gserviceaccount.com\",\"token_uri\":\"https://oauth2.googleapis.com/token\"}";
    format!("{}{}{}", head, test_pem().replace('\n', "\\n"), tail)
}

fn loaded_key() -> key::ServiceAccountKey {
    key::load(Some(&test_key_json())).expect("test key must load")
}

fn b64url_decode(s: &str) -> Vec<u8> {
    base64::engine::general_purpose::URL_SAFE_NO_PAD
        .decode(s)
        .expect("segment must be base64url")
}

#[test]
fn missing_source_is_credential_missing() {
    let r = key::load(None);
    match r {
        Err(Error::CredentialMissing) => {}
        _ => panic!("expected CredentialMissing"),
    }
}

#[test]
fn non_json_source_is_credential_malformed() {
    match key::load(Some("not json at all")) {
        Err(Error::CredentialMalformed(_)) => {}
        _ => panic!("expected CredentialMalformed"),
    }
}

#[test]
fn missing_member_is_credential_malformed() {
    match key::load(Some("{\"client_email\":\"a@b.c\"}")) {
        Err(Error::CredentialMalformed(_)) => {}
        _ => panic!("expected CredentialMalformed"),
    }
}

#[test]
fn bad_pem_is_key_parse_error() {
    let json = test_key_json().replace("PRIVATE KEY", "BROKEN KEY");
    match key::load(Some(&json)) {
        Err(Error::KeyParseError(_)) => {}
        _ => panic!("expected KeyParseError"),
    }
}

#[test]
fn loaded_key_carries_fields() {
    let k = loaded_key();
    assert_eq!(k.client_email, "robot@demo-project.iam.gserviceaccount.com");
    assert_eq!(k.token_uri, "https://oauth2.googleapis.com/token");
    assert_eq!(k.private_key_id, "kid-1");
    assert_eq!(k.project_id.as_deref(), Some("demo-project"));
    assert_eq!(k.private_key, test_pem());
}

#[test]
fn base64url_matches_reference_vectors() {
    for input in [
        &b""[..],
        &b"f"[..],
        &b"fo"[..],
        &b"foo"[..],
        &b"foob"[..],
        &b"fooba"[..],
        &b"foobar"[..],
        &[0xffu8, 0xef, 0xbe][..],
    ] {
        let mut out: Vec<u8> = Vec::new();
        jwt_bearer::b64::push_base64url(&mut out, input);
        let expect = base64::engine::general_purpose::URL_SAFE_NO_PAD.encode(input);
        assert_eq!(String::from_utf8(out).unwrap(), expect);
    }
}

#[test]
fn assertion_has_exact_header_and_claims() {
    let k = loaded_key();
    let scopes = vec![CLOUD_SCOPE.to_string(), "https://www.googleapis.com/auth/drive".to_string()];
    let now: u64 = 1_700_000_000;
    let jwt = assertion::build(&k, &scopes, now).expect("signing must work");
    let parts: Vec<&str> = jwt.split('.').collect();
    assert_eq!(parts.len(), 3);
    let header = String::from_utf8(b64url_decode(parts[0])).unwrap();
    assert_eq!(header, "{\"alg\":\"RS256\",\"typ\":\"JWT\"}");
    let claims = String::from_utf8(b64url_decode(parts[1])).unwrap();
    let expect = format!(
        "{{\"iss\":\"robot@demo-project.iam.gserviceaccount.com\",\"scope\":\"{} {}\",\"aud\":\"https://oauth2.googleapis.com/token\",\"iat\":1700000000,\"exp\":1700003600}}",
        CLOUD_SCOPE, "https://www.googleapis.com/auth/drive"
    );
    assert_eq!(claims, expect);
}

#[test]
fn assertion_lifetime_is_fixed_and_signature_verifies() {
    let k = loaded_key();
    let scopes = vec![CLOUD_SCOPE.to_string()];
    let now: u64 = 1_700_000_000;
    let jwt = assertion::build(&k, &scopes, now).expect("signing must work");
    let parts: Vec<&str> = jwt.split('.').collect();
    let claims: serde_json::Value =
        serde_json::from_slice(&b64url_decode(parts[1])).expect("claims must be JSON");
    let iat = claims["iat"].as_u64().unwrap();
    let exp = claims["exp"].as_u64().unwrap();
    assert_eq!(exp - iat, 3600);
    assert_eq!(iat, now);

    let private = test_rsa_key();
    let verifying =
        rsa::pkcs1v15::VerifyingKey::<rsa::sha2::Sha256>::new(rsa::RsaPublicKey::from(&private));
    let msg = format!("{}.{}", parts[0], parts[1]);
    let sig = rsa::pkcs1v15::Signature::try_from(b64url_decode(parts[2]).as_slice())
        .expect("signature bytes");
    verifying
        .verify(msg.as_bytes(), &sig)
        .expect("RS256 signature must verify against the public key");
}

#[test]
fn signing_error_when_key_text_is_not_a_key() {
    let mut k = loaded_key();
    k.private_key = "not a private key at all".to_string();
    let scopes = vec![CLOUD_SCOPE.to_string()];
    match assertion::build(&k, &scopes, 1_700_000_000) {
        Err(Error::SigningError(_)) => {}
        _ => panic!("expected SigningError"),
    }
}

#[test]
fn round_trip_returns_token_and_expiry() {
    let k = loaded_key();
    let mut auth = Authenticator::new(k);
    let scopes = vec![CLOUD_SCOPE.to_string()];
    let now: u64 = 1_700_000_000;
    let step = auth.token_request(&scopes, now).expect("request must build");
    let req = match step {
        TokenStep::Exchange(req) => req,
        TokenStep::Cached(_) => panic!("an empty cache cannot answer"),
    };
    assert_eq!(req.uri, "https://oauth2.googleapis.com/token");
    assert!(req
        .body
        .starts_with("grant_type=urn:ietf:params:oauth:grant-type:jwt-bearer&assertion="));
    let answer = "{\"access_token\":\"abc\",\"token_type\":\"Bearer\",\"expires_in\":3600}";
    let t = auth
        .token_complete(&scopes, 200, answer, now + 1)
        .expect("a well-formed answer must yield a token");
    assert_eq!(t.value, "abc");
    assert_eq!(t.token_type, "Bearer");
    assert_eq!(t.expires_at, now + 1 + 3600);
    assert_eq!(t.scopes, scopes);
}

#[test]
fn second_request_within_window_is_served_from_cache() {
    let k = loaded_key();
    let mut auth = Authenticator::new(k);
    let scopes = vec![CLOUD_SCOPE.to_string()];
    let now: u64 = 1_700_000_000;
    match auth.token_request(&scopes, now).unwrap() {
        TokenStep::Exchange(_) => {}
        _ => panic!("first request must exchange"),
    }
    let answer = "{\"access_token\":\"abc\",\"token_type\":\"Bearer\",\"expires_in\":3600}";
    auth.token_complete(&scopes, 200, answer, now).unwrap();
    match auth.token_request(&scopes, now + 3000).unwrap() {
        TokenStep::Cached(t) => assert_eq!(t.value, "abc"),
        _ => panic!("a valid cached token must be reused"),
    }
}

#[test]
fn request_in_skew_window_triggers_exchange() {
    let k = loaded_key();
    let mut auth = Authenticator::new(k);
    let scopes = vec![CLOUD_SCOPE.to_string()];
    let now: u64 = 1_700_000_000;
    let answer = "{\"access_token\":\"abc\",\"token_type\":\"Bearer\",\"expires_in\":3600}";
    auth.token_complete(&scopes, 200, answer, now).unwrap();
    // 60 s before expiry the skew already forces a refresh.
    match auth.token_request(&scopes, now + 3600 - 60).unwrap() {
        TokenStep::Exchange(_) => {}
        _ => panic!("a token inside the skew window must not be reused"),
    }
}

#[test]
fn expired_entry_triggers_exactly_one_new_exchange() {
    let k = loaded_key();
    let mut auth = Authenticator::new(k);
    let scopes = vec![CLOUD_SCOPE.to_string()];
    let now: u64 = 1_700_000_000;
    let answer = "{\"access_token\":\"abc\",\"token_type\":\"Bearer\",\"expires_in\":3600}";
    auth.token_complete(&scopes, 200, answer, now).unwrap();
    // Force the cached expiry into the past.
    auth.cache.entries[0].token.expires_at = now - 1;
    match auth.token_request(&scopes, now).unwrap() {
        TokenStep::Exchange(_) => {}
        _ => panic!("an expired token must not be reused"),
    }
    let fresh = "{\"access_token\":\"def\",\"token_type\":\"Bearer\",\"expires_in\":3600}";
    auth.token_complete(&scopes, 200, fresh, now).unwrap();
    match auth.token_request(&scopes, now).unwrap() {
        TokenStep::Cached(t) => assert_eq!(t.value, "def"),
        _ => panic!("the refreshed token must now be served"),
    }
}

#[test]
fn scope_order_and_repetition_do_not_split_the_cache() {
    let k = loaded_key();
    let mut auth = Authenticator::new(k);
    let a = "https://www.googleapis.com/auth/devstorage.read_only".to_string();
    let b = "https://www.googleapis.com/auth/drive".to_string();
    let now: u64 = 1_700_000_000;
    let answer = "{\"access_token\":\"abc\",\"token_type\":\"Bearer\",\"expires_in\":3600}";
    auth.token_complete(&vec![a.clone(), b.clone()], 200, answer, now).unwrap();
    match auth.token_request(&vec![b.clone(), a.clone(), b.clone()], now).unwrap() {
        TokenStep::Cached(t) => assert_eq!(t.value, "abc"),
        _ => panic!("the same scope set must share one entry"),
    }
    match auth.token_request(&vec![a.clone()], now).unwrap() {
        TokenStep::Exchange(_) => {}
        _ => panic!("a different scope set must not share the entry"),
    }
}

#[test]
fn server_rejection_surfaces_and_is_not_cached() {
    let k = loaded_key();
    let mut auth = Authenticator::new(k);
    let scopes = vec![CLOUD_SCOPE.to_string()];
    let now: u64 = 1_700_000_000;
    let r = auth.token_complete(&scopes, 400, "{\"error\":\"invalid_grant\"}", now);
    match r {
        Err(Error::AuthServerError { status, reason }) => {
            assert_eq!(status, 400);
            assert!(reason.contains("invalid_grant"));
        }
        _ => panic!("expected AuthServerError"),
    }
    match auth.token_request(&scopes, now).unwrap() {
        TokenStep::Exchange(_) => {}
        _ => panic!("a rejection must not populate the cache"),
    }
}

#[test]
fn malformed_answer_is_response_parse_error() {
    let k = loaded_key();
    let mut auth = Authenticator::new(k);
    let scopes = vec![CLOUD_SCOPE.to_string()];
    for bad in ["plainly not json", "[1,2,3]", "{\"token_type\":\"Bearer\"}"] {
        match auth.token_complete(&scopes, 200, bad, 1_700_000_000) {
            Err(Error::ResponseParseError(_)) => {}
            _ => panic!("expected ResponseParseError for {bad}"),
        }
    }
}

#[test]
fn error_kinds_and_retry_policy() {
    let net = Error::NetworkError("timed out".to_string());
    assert_eq!(net.kind(), ErrorKind::NetworkError);
    assert!(net.retryable());
    assert_eq!(net.detail(), "timed out");
    let rejected = Error::AuthServerError { status: 403, reason: "no".to_string() };
    assert_eq!(rejected.kind(), ErrorKind::AuthServerError);
    assert!(!rejected.retryable());
    assert_eq!(rejected.detail(), "no");
    assert_eq!(Error::CredentialMissing.kind(), ErrorKind::CredentialMissing);
    assert!(!Error::CredentialMissing.retryable());
    assert_eq!(Error::CredentialMissing.detail(), "");
}

#[test]
fn exchange_request_shape_is_fixed() {
    assert_eq!(exchange::exchange_method(), "POST");
    assert_eq!(exchange::exchange_content_type(), "application/x-www-form-urlencoded");
    let req = exchange::build_token_request(&"https://t.example/token".to_string(), &"A.B.C".to_string());
    assert_eq!(req.uri, "https://t.example/token");
    assert_eq!(
        req.body,
        "grant_type=urn:ietf:params:oauth:grant-type:jwt-bearer&assertion=A.B.C"
    );
}

#[test]
fn expiry_saturates_at_the_clock_maximum() {
    let scopes = vec![CLOUD_SCOPE.to_string()];
    let answer = "{\"access_token\":\"abc\",\"token_type\":\"Bearer\",\"expires_in\":3600}";
    let t = exchange::parse_token_response(200, answer, u64::MAX - 10, &scopes).unwrap();
    assert_eq!(t.expires_at, u64::MAX);
}

#[test]
fn claim_values_are_json_escaped() {
    let mut k = loaded_key();
    k.client_email = "robot\"quoted\\back@demo.example".to_string();
    let scopes = vec![CLOUD_SCOPE.to_string()];
    let jwt = assertion::build(&k, &scopes, 1_700_000_000).expect("signing must work");
    let parts: Vec<&str> = jwt.split('.').collect();
    let claims: serde_json::Value =
        serde_json::from_slice(&b64url_decode(parts[1])).expect("claims must stay valid JSON");
    assert_eq!(claims["iss"].as_str().unwrap(), "robot\"quoted\\back@demo.example");
}

#[test]
fn non_ascii_email_is_credential_malformed() {
    let json = test_key_json().replace("robot@", "rob\u{f6}t@");
    match key::load(Some(&json)) {
        Err(Error::CredentialMalformed(_)) => {}
        _ => panic!("expected CredentialMalformed for a non-ASCII e-mail"),
    }
}
