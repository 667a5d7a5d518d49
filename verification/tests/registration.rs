use base64::Engine;
use keylime_agent::json_value::Json;
use keylime_agent::registrar::RegistrarClientError;
use keylime_agent::registration::{
    activate_body, activation_result, is_empty, registration_result, try_activate_agent,
    try_register_agent, AgentIdentity,
};

fn identity() -> AgentIdentity {
    AgentIdentity {
        ak_pub: vec![0],
        ek_pub: vec![0],
        ek_cert: None,
        iak_attest: None,
        iak_cert: None,
        iak_sign: None,
        iak_pub: None,
        idevid_cert: None,
        idevid_pub: None,
        ip: "1.2.3.4".to_string(),
        port: 0,
        mtls_cert: None,
        uuid: "uuid".to_string(),
        enabled_api_versions: vec!["1.2".to_string()],
    }
}

#[test]
fn registration_leaves_absent_fields_out() {
    assert_eq!(
        identity().register_body(),
        "{\"aik_tpm\":\"AA==\",\"ek_tpm\":\"AA==\",\"iak_cert\":null,\"idevid_cert\":null,\"ip\":\"1.2.3.4\",\"port\":0}"
    );
}

#[test]
fn registration_leaves_an_empty_endorsement_key_out() {
    let mut ai = identity();
    ai.ek_pub = Vec::new();
    assert_eq!(
        ai.register_body(),
        "{\"aik_tpm\":\"AA==\",\"iak_cert\":null,\"idevid_cert\":null,\"ip\":\"1.2.3.4\",\"port\":0}"
    );
    assert!(is_empty(&ai.ek_pub));
    assert!(!is_empty(&ai.ak_pub));
}

#[test]
fn registration_carries_every_field_that_is_there() {
    let ai = AgentIdentity {
        ak_pub: b"ak".to_vec(),
        ek_pub: b"ek".to_vec(),
        ek_cert: Some("chain".to_string()),
        iak_attest: Some(vec![0]),
        iak_cert: Some(b"ic".to_vec()),
        iak_sign: Some(vec![0]),
        iak_pub: Some(b"ip".to_vec()),
        idevid_cert: Some(b"dc".to_vec()),
        idevid_pub: Some(b"dp".to_vec()),
        ip: "::1".to_string(),
        port: 9002,
        mtls_cert: Some("-----BEGIN CERTIFICATE-----\n".to_string()),
        uuid: "uuid".to_string(),
        enabled_api_versions: Vec::new(),
    };
    let body = ai.register_body();
    assert_eq!(
        body,
        "{\"aik_tpm\":\"YWs=\",\"ek_tpm\":\"ZWs=\",\"ekcert\":\"chain\",\"iak_attest\":\"AA==\",\"iak_cert\":\"aWM=\",\"iak_sign\":\"AA==\",\"iak_tpm\":\"aXA=\",\"idevid_cert\":\"ZGM=\",\"idevid_tpm\":\"ZHA=\",\"ip\":\"::1\",\"mtls_cert\":\"-----BEGIN CERTIFICATE-----\\n\",\"port\":9002}"
    );
    let value: serde_json::Value = serde_json::from_str(&body).unwrap();
    assert_eq!(value.get("port").unwrap().as_u64(), Some(9002));
}

#[test]
fn activation_carries_the_tag() {
    assert_eq!(activate_body("tag"), "{\"auth_tag\":\"tag\"}");
    assert_eq!(activate_body("a+b/c=="), "{\"auth_tag\":\"a+b/c==\"}");
}

#[test]
fn registration_gives_the_decoded_challenge() {
    let body = "{\"code\":200,\"status\":\"OK\",\"results\":{\"blob\":\"Y2hhbGxlbmdl\"}}";
    assert_eq!(try_register_agent("addr".to_string(), 200, body).unwrap(), b"challenge");
    assert_eq!(try_register_agent("addr".to_string(), 299, body).unwrap(), b"challenge");
    let body = "{\"code\":200,\"status\":\"OK\",\"results\":{\"blob\":null}}";
    assert_eq!(try_register_agent("addr".to_string(), 200, body).unwrap(), b"");
}

#[test]
fn registration_fails_on_any_other_status() {
    let body = "{\"code\":200,\"status\":\"OK\",\"results\":{\"blob\":\"Y2hhbGxlbmdl\"}}";
    for status in [100u16, 199, 300, 404, 500] {
        match try_register_agent("http://r/v1/agents/u".to_string(), status, body) {
            Err(RegistrarClientError::Registration { addr, code }) => {
                assert_eq!(addr, "http://r/v1/agents/u");
                assert_eq!(code, status);
            }
            other => panic!("unexpected: {other:?}"),
        }
    }
}

#[test]
fn registration_fails_on_a_body_that_cannot_be_read() {
    let bodies = [
        "",
        "not json",
        "[]",
        "{}",
        "{\"code\":200,\"status\":\"OK\"}",
        "{\"code\":\"200\",\"status\":\"OK\",\"results\":{\"blob\":null}}",
        "{\"code\":200,\"status\":1,\"results\":{\"blob\":null}}",
        "{\"code\":200,\"status\":\"OK\",\"results\":[]}",
        "{\"code\":200,\"status\":\"OK\",\"results\":{}}",
        "{\"code\":200,\"status\":\"OK\",\"results\":{\"blob\":7}}",
        "{\"code\":200,\"status\":\"OK\",\"results\":{\"blob\":\"not base64!\"}}",
    ];
    for body in bodies {
        match try_register_agent("addr".to_string(), 200, body) {
            Err(RegistrarClientError::Reqwest(e)) => {
                assert_eq!(e, "error decoding response body", "{body}")
            }
            other => panic!("unexpected for {body}: {other:?}"),
        }
    }
}

#[test]
fn activation_needs_an_envelope() {
    let body = "{\"code\":200,\"status\":\"OK\",\"results\":{}}";
    assert!(try_activate_agent("addr".to_string(), 200, body).is_ok());
    match try_activate_agent("addr".to_string(), 503, body) {
        Err(RegistrarClientError::Activation { addr, code }) => {
            assert_eq!(addr, "addr");
            assert_eq!(code, 503);
        }
        other => panic!("unexpected: {other:?}"),
    }
    assert!(matches!(
        try_activate_agent("addr".to_string(), 200, "{}"),
        Err(RegistrarClientError::Reqwest(_))
    ));
}

#[test]
fn answers_are_judged_from_their_json() {
    let doc = Json::Object(vec![
        ("code".to_string(), Json::Number("200".to_string())),
        ("results".to_string(), Json::Object(vec![("blob".to_string(), Json::Null)])),
        ("status".to_string(), Json::Text("OK".to_string())),
    ]);
    assert_eq!(registration_result("a".to_string(), 200, Some(&doc)).unwrap(), b"");
    assert!(activation_result("a".to_string(), 200, Some(&doc)).is_ok());
    assert!(registration_result("a".to_string(), 200, None).is_err());
    assert!(activation_result("a".to_string(), 200, Some(&Json::Null)).is_err());
}

#[test]
fn activation_tag_is_an_hmac_of_the_identifier() {
    let tag = keylime_agent::registration::auth_tag(b"Jefe", "what do ya want for nothing?").unwrap();
    let known = hex::decode(
        "af45d2e376484031617f78d2b58a6b1b9c7ef464f5a01b47e42ec3736322445e8e2240ca5e69e2c78b3239ecfab21649",
    )
    .unwrap();
    use_base64(&known, &tag);
    assert_eq!(tag, "r0XS43ZIQDFhf3jStYprG5x+9GT1oBtH5C7Dc2MiRF6OIkDKXmnix4syOez6shZJ");
    let key = openssl::pkey::PKey::hmac(b"key").unwrap();
    let mut signer =
        openssl::sign::Signer::new(openssl::hash::MessageDigest::sha384(), &key).unwrap();
    signer.update(b"uuid").unwrap();
    let mac = signer.sign_to_vec().unwrap();
    use_base64(&mac, &keylime_agent::registration::auth_tag(b"key", "uuid").unwrap());
    assert_ne!(
        keylime_agent::registration::auth_tag(b"key", "uuid").unwrap(),
        keylime_agent::registration::auth_tag(b"key", "uuie").unwrap()
    );
}

fn use_base64(mac: &[u8], tag: &str) {
    assert_eq!(base64::engine::general_purpose::STANDARD.encode(mac), tag);
}

#[test]
fn activation_tag_needs_a_key_that_openssl_takes() {
    let key = vec![0u8; 0x8000_0000];
    assert_eq!(
        keylime_agent::registration::auth_tag(&key, "uuid"),
        Err("the key of the challenge is too long".to_string())
    );
}

#[test]
fn activation_tag_is_the_hmac_as_base64() {
    assert_eq!(
        keylime_agent::registration::tag_from(Ok(vec![0xaf, 0x45, 0xd2])),
        Ok("r0XS".to_string())
    );
    assert_eq!(keylime_agent::registration::tag_from(Ok(vec![])), Ok(String::new()));
    assert_eq!(
        keylime_agent::registration::tag_from(Err("no digest".to_string())),
        Err("Failed to compute the authentication tag: no digest".to_string())
    );
}
