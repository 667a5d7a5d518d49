use keylime_agent::certification::{load_app_key_from_context, APP_KEY_HANDLE};
use keylime_agent::certification::decoded_public_key;
use base64::Engine;
use keylime_agent::certification::{
    app_key_certificate, app_key_public_pem, certified, check_admission, context_missing,
    create_qualifying_data, digest_input, peer_ip, CertificationFailure, CertificationPolicy,
    CertifyAppKeyRequest, CertifyAppKeyResponse,
};
use keylime_agent::rate_limit::RateLimiter;
use sha2::Digest;

fn request(nonce: Option<&str>) -> CertifyAppKeyRequest {
    CertifyAppKeyRequest {
        api_version: Some("v1".to_string()),
        command: Some("certify_app_key".to_string()),
        app_key_public: "-----BEGIN PUBLIC KEY-----\nAAAA\n-----END PUBLIC KEY-----\n".to_string(),
        app_key_context_path: "/tmp/test.ctx".to_string(),
        challenge_nonce: nonce.map(|n| n.to_string()),
    }
}

fn policy(enabled: bool, allowed: &[&str], rate_limit: u32) -> CertificationPolicy {
    CertificationPolicy {
        enabled,
        allowed_ips: allowed.iter().map(|s| s.to_string()).collect(),
        rate_limit,
    }
}

fn public_key_pem() -> String {
    let rsa = openssl::rsa::Rsa::generate(2048).unwrap();
    let key = openssl::pkey::PKey::from_rsa(rsa).unwrap();
    String::from_utf8(key.public_key_to_pem().unwrap()).unwrap()
}

#[test]
fn test_certify_app_key_invalid_command() {
    let req = CertifyAppKeyRequest {
        api_version: Some("v1".to_string()),
        command: Some("invalid_command".to_string()),
        app_key_public: "test_pubkey".to_string(),
        app_key_context_path: "/tmp/test.ctx".to_string(),
        challenge_nonce: None,
    };
    assert_eq!(req.command.as_deref(), Some("invalid_command"));
}

#[test]
fn request_without_challenge_nonce_is_refused() {
    let mut limiter = RateLimiter::new();
    let p = policy(true, &[], 100);
    let err =
        check_admission(&p, &mut limiter, Some("127.0.0.1:5000"), 0, &request(Some(""))).unwrap_err();
    assert_eq!(err.code, 400);
    assert_eq!(err.message, "Missing required field: challenge_nonce");
    let err =
        check_admission(&p, &mut limiter, Some("127.0.0.1:5000"), 0, &request(None)).unwrap_err();
    assert_eq!(err.code, 400);
    assert_eq!(err.message, "Missing required field: challenge_nonce");
}

#[test]
fn request_without_key_or_path_is_refused() {
    let mut limiter = RateLimiter::new();
    let p = policy(true, &[], 100);
    let mut r = request(Some("n"));
    r.app_key_public = String::new();
    r.app_key_context_path = String::new();
    let err = check_admission(&p, &mut limiter, None, 0, &r).unwrap_err();
    assert_eq!((err.code, err.message.as_str()), (400, "Missing required field: app_key_public"));
    let mut r = request(None);
    r.app_key_context_path = String::new();
    let err = check_admission(&p, &mut limiter, None, 0, &r).unwrap_err();
    assert_eq!(
        (err.code, err.message.as_str()),
        (400, "Missing required field: app_key_context_path")
    );
}

#[test]
fn valid_request_hands_out_its_nonce() {
    let mut limiter = RateLimiter::new();
    let p = policy(true, &["127.0.0.1"], 5);
    let nonce =
        check_admission(&p, &mut limiter, Some("127.0.0.1:5000"), 7, &request(Some("abc"))).unwrap();
    assert_eq!(nonce, "abc");
    assert_eq!(limiter.window("127.0.0.1"), Some((1, 7)));
}

#[test]
fn command_is_not_looked_at() {
    let mut limiter = RateLimiter::new();
    let p = policy(true, &[], 100);
    let mut r = request(Some("abc"));
    r.command = Some("anything".to_string());
    r.api_version = None;
    assert!(check_admission(&p, &mut limiter, None, 0, &r).is_ok());
    r.command = None;
    assert!(check_admission(&p, &mut limiter, None, 0, &r).is_ok());
}

#[test]
fn feature_flag_comes_first() {
    let mut limiter = RateLimiter::new();
    let p = policy(false, &["10.0.0.1"], 1);
    let err =
        check_admission(&p, &mut limiter, Some("127.0.0.1:5000"), 0, &request(None)).unwrap_err();
    assert_eq!(err.code, 403);
    assert_eq!(
        err.message,
        "Unified-Identity feature is disabled. Enable unified_identity_enabled in agent config."
    );
    assert_eq!(limiter.window("127.0.0.1"), None);
}

#[test]
fn peer_outside_the_list_is_refused() {
    let mut limiter = RateLimiter::new();
    let p = policy(true, &["10.0.0.1", "10.0.0.2"], 1);
    let err =
        check_admission(&p, &mut limiter, Some("127.0.0.1:5000"), 0, &request(None)).unwrap_err();
    assert_eq!(err.code, 403);
    assert_eq!(err.message, "IP 127.0.0.1 not in allowed list");
    assert_eq!(limiter.window("127.0.0.1"), None);
    let err = check_admission(&p, &mut limiter, None, 0, &request(None)).unwrap_err();
    assert_eq!(err.message, "IP unknown not in allowed list");
    assert!(check_admission(&p, &mut limiter, Some("10.0.0.2:1"), 0, &request(Some("n"))).is_ok());
}

#[test]
fn requests_over_the_limit_are_refused_with_429() {
    let mut limiter = RateLimiter::new();
    let p = policy(true, &[], 2);
    let r = request(Some("n"));
    assert!(check_admission(&p, &mut limiter, Some("1.1.1.1:9"), 0, &r).is_ok());
    assert!(check_admission(&p, &mut limiter, Some("1.1.1.1:10"), 1, &r).is_ok());
    let err = check_admission(&p, &mut limiter, Some("1.1.1.1:11"), 2, &r).unwrap_err();
    assert_eq!(err.code, 429);
    assert_eq!(err.message, "Rate limit exceeded. Please try again later.");
    assert!(check_admission(&p, &mut limiter, Some("2.2.2.2:9"), 2, &r).is_ok());
    assert!(check_admission(&p, &mut limiter, Some("1.1.1.1:9"), 60_001, &r).is_ok());
}

#[test]
fn refused_fields_still_count_against_the_limit() {
    let mut limiter = RateLimiter::new();
    let p = policy(true, &[], 1);
    let err = check_admission(&p, &mut limiter, Some("1.1.1.1:9"), 0, &request(None)).unwrap_err();
    assert_eq!(err.code, 400);
    let err =
        check_admission(&p, &mut limiter, Some("1.1.1.1:9"), 1, &request(Some("n"))).unwrap_err();
    assert_eq!(err.code, 429);
}

#[test]
fn peer_address_loses_its_port() {
    assert_eq!(peer_ip(Some("127.0.0.1:5000")), "127.0.0.1");
    assert_eq!(peer_ip(Some("127.0.0.1")), "127.0.0.1");
    assert_eq!(peer_ip(Some("[::1]:80")), "[");
    assert_eq!(peer_ip(Some(":80")), "");
    assert_eq!(peer_ip(Some("")), "");
    assert_eq!(peer_ip(None), "unknown");
}

#[test]
fn missing_context_file_is_a_bad_request() {
    let err = context_missing("/tmp/app.ctx");
    assert_eq!(err.code, 400);
    assert_eq!(err.message, "App Key context file not found: /tmp/app.ctx");
}

#[test]
fn public_key_may_come_as_pem_or_as_base64_of_pem() {
    let pem = "-----BEGIN PUBLIC KEY-----\nAAAA\n-----END PUBLIC KEY-----\n";
    assert_eq!(app_key_public_pem(pem).unwrap(), pem);
    let wrapped = base64::engine::general_purpose::STANDARD.encode(pem);
    assert_ne!(wrapped, pem);
    assert_eq!(app_key_public_pem(&wrapped).unwrap(), pem);
    assert_eq!(app_key_public_pem("not base64!").unwrap(), "not base64!");
    assert_eq!(app_key_public_pem("").unwrap(), "");
    let not_text = base64::engine::general_purpose::STANDARD.encode([0xff, 0xfe, 0x00]);
    let err = app_key_public_pem(&not_text).unwrap_err();
    assert_eq!(err.code, 400);
    assert_eq!(err.message, "Invalid app_key_public format");
}

#[test]
fn digest_input_is_digest_then_nonce() {
    assert_eq!(digest_input(&[1, 2, 3], "né"), vec![1, 2, 3, b'n', 0xc3, 0xa9]);
    assert_eq!(digest_input(&[], ""), Vec::<u8>::new());
}

#[test]
fn qualifying_data_is_the_digest_of_key_digest_and_nonce() {
    let pem = public_key_pem();
    let data = create_qualifying_data(&pem, "challenge-1").unwrap();
    let mut inner = sha2::Sha256::digest(pem.as_bytes()).to_vec();
    inner.extend_from_slice(b"challenge-1");
    let expected = sha2::Sha256::digest(&inner).to_vec();
    assert_eq!(data, expected);
    assert_eq!(data.len(), 32);
    assert_ne!(data, create_qualifying_data(&pem, "challenge-2").unwrap());
}

#[test]
fn qualifying_data_takes_the_key_in_its_canonical_form() {
    let pem = public_key_pem();
    let padded = format!("some text in front\n{pem}\n");
    assert_eq!(
        create_qualifying_data(&padded, "n").unwrap(),
        create_qualifying_data(&pem, "n").unwrap()
    );
}

#[test]
fn qualifying_data_needs_a_public_key() {
    let err = create_qualifying_data("not a key", "n").unwrap_err();
    assert!(err.starts_with("Failed to parse PEM public key: "), "{err}");
}

#[test]
fn certificate_is_base64_of_json() {
    let certificate = app_key_certificate(b"attest", b"sig\xff", "nonce \"1\"");
    let json = base64::engine::general_purpose::STANDARD.decode(&certificate).unwrap();
    let json = String::from_utf8(json).unwrap();
    assert_eq!(
        json,
        "{\"certify_data\":\"YXR0ZXN0\",\"challenge_nonce\":\"nonce \\\"1\\\"\",\"signature\":\"c2ln/w==\"}"
    );
    let value: serde_json::Value = serde_json::from_str(&json).unwrap();
    assert_eq!(value.get("challenge_nonce").unwrap().as_str().unwrap(), "nonce \"1\"");
    let mut expected = serde_json::Map::new();
    expected.insert("certify_data".to_string(), serde_json::Value::String("YXR0ZXN0".to_string()));
    expected.insert("signature".to_string(), serde_json::Value::String("c2ln/w==".to_string()));
    expected.insert(
        "challenge_nonce".to_string(),
        serde_json::Value::String("nonce \"1\"".to_string()),
    );
    assert_eq!(serde_json::Value::Object(expected).to_string(), json);
}

#[test]
fn served_request_is_answered_with_success() {
    let r: CertifyAppKeyResponse = certified("Y2VydA==".to_string(), "agent-1");
    assert_eq!(r.result, "SUCCESS");
    assert_eq!(r.app_key_certificate.as_deref(), Some("Y2VydA=="));
    assert_eq!(r.agent_uuid.as_deref(), Some("agent-1"));
    assert!(r.error.is_none());
}

#[test]
fn failures_while_serving_are_internal_errors() {
    let cases = [
        (
            CertificationFailure::LoadKey("bad context".to_string()),
            "Failed to load App Key from context file: bad context",
        ),
        (
            CertificationFailure::QualifyingData("no key".to_string()),
            "Failed to process App Key public key: no key",
        ),
        (CertificationFailure::Certify("tpm".to_string()), "TPM2_Certify failed: tpm"),
        (CertificationFailure::MarshalAttestation, "Failed to serialize attestation"),
        (CertificationFailure::MarshalSignature, "Failed to serialize signature"),
    ];
    for (failure, message) in cases {
        let e = failure.to_error();
        assert_eq!(e.code, 500);
        assert_eq!(e.message, message);
    }
}

#[test]
fn certificate_text_has_its_keys_in_the_order_of_the_alphabet() {
    assert_eq!(
        keylime_agent::certification::certificate_text("QQ==", "Ug==", "n"),
        "{\"certify_data\":\"QQ==\",\"challenge_nonce\":\"n\",\"signature\":\"Ug==\"}"
    );
}

#[test]
fn decoded_public_key_must_be_text() {
    assert_eq!(decoded_public_key("raw", None).unwrap(), "raw");
    assert_eq!(decoded_public_key("raw", Some(b"pem".to_vec())).unwrap(), "pem");
    assert_eq!(decoded_public_key("raw", Some(vec![0xc3, 0xa9])).unwrap(), "é");
    let err = decoded_public_key("raw", Some(vec![0xc3])).unwrap_err();
    assert_eq!((err.code, err.message.as_str()), (400, "Invalid app_key_public format"));
}

#[test]
fn application_key_is_used_by_its_persistent_handle() {
    assert_eq!(APP_KEY_HANDLE, 0x8101000B);
    assert_eq!(load_app_key_from_context(true, None), Ok(0x8101000B));
    assert_eq!(load_app_key_from_context(true, Some("ignored")), Ok(0x8101000B));
    assert_eq!(
        load_app_key_from_context(false, Some("no such file")),
        Err("tpm2_readpublic failed for context file: no such file".to_string())
    );
    assert_eq!(
        load_app_key_from_context(false, None),
        Err("App Key not found at persistent handle 0x8101000B and context file loading requires key to be persisted".to_string())
    );
}

#[test]
fn limit_of_zero_refuses_every_request() {
    let mut limiter = RateLimiter::new();
    let p = policy(true, &[], 0);
    let err =
        check_admission(&p, &mut limiter, Some("127.0.0.1:5000"), 0, &request(Some("abc"))).unwrap_err();
    assert_eq!(err.code, 429);
    assert_eq!(err.message, "Rate limit exceeded. Please try again later.");
    assert_eq!(limiter.window("127.0.0.1"), Some((1, 0)));
}

#[test]
fn qualifying_data_needs_a_key_that_openssl_takes() {
    let pem = String::from_utf8(vec![0u8; 0x8000_0000]).unwrap();
    assert_eq!(
        create_qualifying_data(&pem, "n"),
        Err("The public key is too long".to_string())
    );
}
