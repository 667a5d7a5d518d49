use keylime_agent::edge_claim::{
    certificate_body, claim_from, claim_in_header, extract_sensor_id_from_cert,
    extract_sensor_id_from_extensions, forwarded_certificates, split_certificates, url_decode,
    CertExtension, Claim, Location, SensorType, CERTIFICATE_MARKER, LEGACY_OID,
    UNIFIED_IDENTITY_OID,
};
use keylime_agent::edge_filter::{
    decide, judge, on_http_call_response, on_http_request_headers, parse_mode,
    verify_request_body, FilterConfig, FilterMetrics, RequestDecision, SidecarReply,
    VerificationCache, VerificationMode, CACHE_TTL_MS,
};
use keylime_agent::json_value::Json;

const MOBILE: &str = "{\"grc.geolocation\":{\"mobile\":{\"sensor_id\":\"12d1:1433\",\"sensor_imei\":\"356938035643809\",\"sim_imsi\":\"214070000000001\",\"sim_msisdn\":\"+34600000000\",\"location_verification\":{\"lat\":40.4168,\"lon\":-3.7038,\"accuracy\":15}}}}";
const GNSS: &str = "{\"grc.geolocation\":{\"gnss\":{\"sensor_id\":\"/dev/gps0\",\"sensor_serial_number\":\"SN-1\",\"retrieved_location\":{\"lat\":1.5,\"lon\":2,\"accuracy\":0.25}}}}";
const FLAT: &str = "{\"grc.geolocation\":{\"type\":\"mobile\",\"sensor_id\":\"12d1:1433\",\"sensor_imei\":\"1\",\"sensor_imsi\":\"2\"}}";

fn chars(s: &str) -> Vec<char> {
    s.chars().collect()
}

fn text(v: &[char]) -> String {
    v.iter().collect()
}

/// A certificate that carries `content` in an extension under `oid`, in PEM.
fn certificate(oid: &str, content: &[u8]) -> String {
    let rsa = openssl::rsa::Rsa::generate(2048).unwrap();
    let key = openssl::pkey::PKey::from_rsa(rsa).unwrap();
    let mut name = openssl::x509::X509NameBuilder::new().unwrap();
    name.append_entry_by_text("CN", "agent").unwrap();
    let name = name.build();
    let mut b = openssl::x509::X509Builder::new().unwrap();
    b.set_version(2).unwrap();
    b.set_subject_name(&name).unwrap();
    b.set_issuer_name(&name).unwrap();
    b.set_pubkey(&key).unwrap();
    b.set_not_before(&openssl::asn1::Asn1Time::days_from_now(0).unwrap()).unwrap();
    b.set_not_after(&openssl::asn1::Asn1Time::days_from_now(1).unwrap()).unwrap();
    let serial = openssl::bn::BigNum::from_u32(1).unwrap().to_asn1_integer().unwrap();
    b.set_serial_number(&serial).unwrap();
    let oid = openssl::asn1::Asn1Object::from_str(oid).unwrap();
    let value = openssl::asn1::Asn1OctetString::new_from_bytes(content).unwrap();
    let ext = openssl::x509::X509Extension::new_from_der(&oid, false, &value).unwrap();
    b.append_extension(ext).unwrap();
    b.sign(&key, openssl::hash::MessageDigest::sha256()).unwrap();
    String::from_utf8(b.build().to_pem().unwrap()).unwrap()
}

/// The text as the proxy writes it into the header.
fn encoded(pem: &str) -> String {
    pem.replace(' ', "%20")
        .replace('\n', "%0A")
        .replace('/', "%2F")
        .replace('+', "%2B")
        .replace('=', "%3D")
        .replace(':', "%3A")
}

fn mobile_claim() -> Claim {
    Claim {
        sensor_type: SensorType::Mobile,
        sensor_id: "12d1:1433".to_string(),
        imei: "356938035643809".to_string(),
        imsi: "214070000000001".to_string(),
        msisdn: "+34600000000".to_string(),
        serial_number: String::new(),
        location: Location {
            lat: Some("40.4168".to_string()),
            lon: Some("-3.7038".to_string()),
            accuracy: Some("15".to_string()),
        },
    }
}

fn gnss_claim() -> Claim {
    Claim {
        sensor_type: SensorType::Gnss,
        sensor_id: "/dev/gps0".to_string(),
        imei: String::new(),
        imsi: String::new(),
        msisdn: String::new(),
        serial_number: "SN-1".to_string(),
        location: Location { lat: None, lon: None, accuracy: None },
    }
}

fn config(mode: VerificationMode) -> FilterConfig {
    FilterConfig { verification_mode: mode, sidecar_endpoint: "http://localhost:5000".to_string() }
}

#[test]
fn chain_is_preferred_to_the_leaf() {
    let header = "By=spiffe://x;Cert=\"LEAF\";Chain=\"CHAIN%0Atwo\";Subject=\"\"";
    assert_eq!(forwarded_certificates(header).as_deref(), Some("CHAIN\ntwo"));
    let header = "Chain=\"CHAIN\";Cert=\"LEAF\"";
    assert_eq!(forwarded_certificates(header).as_deref(), Some("CHAIN"));
}

#[test]
fn leaf_is_taken_where_there_is_no_chain() {
    let header = "By=spiffe://x;Cert=\"LEAF%20ONE\";Subject=\"CN=a\"";
    assert_eq!(forwarded_certificates(header).as_deref(), Some("LEAF ONE"));
    assert_eq!(forwarded_certificates("Cert=LEAF").as_deref(), Some("LEAF"));
    assert_eq!(forwarded_certificates("Cert=\"LEAF\"\"\"").as_deref(), Some("LEAF"));
    assert_eq!(forwarded_certificates("Cert=").as_deref(), Some(""));
    assert_eq!(forwarded_certificates("Cert=\"").as_deref(), Some(""));
}

#[test]
fn header_without_certificates_gives_none() {
    assert_eq!(forwarded_certificates(""), None);
    assert_eq!(forwarded_certificates("By=spiffe://x;Subject=\"CN=a\""), None);
    assert_eq!(forwarded_certificates("cert=lower"), None);
}

#[test]
fn proxy_codes_are_decoded() {
    let decode = |s: &str| text(&url_decode(&chars(s)));
    assert_eq!(decode("a%20b%0Ac%0Dd%2Fe%2Bf%3Dg%22h%3Bi%3Aj"), "a b\nc\rd/e+f=g\"h;i:j");
    assert_eq!(decode(""), "");
    assert_eq!(decode("%"), "%");
    assert_eq!(decode("%2"), "%2");
    assert_eq!(decode("%2f%3a%0a"), "%2f%3a%0a");
    assert_eq!(decode("%25"), "%25");
    assert_eq!(decode("%%20"), "% ");
    assert_eq!(decode("%2%20"), "%2 ");
    assert_eq!(decode("%20%20"), "  ");
    let sequential = "x%%3A20%3%3B%0A%2%2F0"
        .replace("%20", " ")
        .replace("%0A", "\n")
        .replace("%0D", "\r")
        .replace("%2F", "/")
        .replace("%2B", "+")
        .replace("%3D", "=")
        .replace("%22", "\"")
        .replace("%3B", ";")
        .replace("%3A", ":");
    assert_eq!(decode("x%%3A20%3%3B%0A%2%2F0"), sequential);
}

#[test]
fn chain_is_split_into_its_certificates() {
    assert_eq!(CERTIFICATE_MARKER, "-----BEGIN CERTIFICATE-----");
    let chain = "-----BEGIN CERTIFICATE-----\nAAAA\n-----END CERTIFICATE-----\n-----BEGIN CERTIFICATE-----\nBBBB\n-----END CERTIFICATE-----\n";
    let blocks: Vec<String> = split_certificates(chain).iter().map(|b| text(b)).collect();
    assert_eq!(
        blocks,
        [
            "-----BEGIN CERTIFICATE-----\nAAAA\n-----END CERTIFICATE-----\n",
            "-----BEGIN CERTIFICATE-----\nBBBB\n-----END CERTIFICATE-----\n"
        ]
    );
    assert!(split_certificates("").is_empty());
    assert!(split_certificates(" \n\t").is_empty());
    let blocks: Vec<String> = split_certificates("junk").iter().map(|b| text(b)).collect();
    assert_eq!(blocks, ["-----BEGIN CERTIFICATE-----junk"]);
}

#[test]
fn body_is_what_lies_between_the_frames() {
    let block = "-----BEGIN CERTIFICATE-----\nAAAA\r\nBBBB\n-----END CERTIFICATE-----\n";
    assert_eq!(text(&certificate_body(&chars(block))), "AAAABBBB");
    assert_eq!(text(&certificate_body(&chars(""))), "");
    assert_eq!(text(&certificate_body(&chars("AAAA"))), "AAAA");
}

#[test]
fn nested_mobile_claim_is_read() {
    let cert = certificate(UNIFIED_IDENTITY_OID, MOBILE.as_bytes());
    let claim = extract_sensor_id_from_cert(&cert).unwrap();
    assert_eq!(claim.sensor_type, SensorType::Mobile);
    assert_eq!(claim.sensor_id, "12d1:1433");
    assert_eq!(claim.imei, "356938035643809");
    assert_eq!(claim.imsi, "214070000000001");
    assert_eq!(claim.msisdn, "+34600000000");
    assert_eq!(claim.serial_number, "");
    assert_eq!(claim.location.lat.as_deref(), Some("40.4168"));
    assert_eq!(claim.location.lon.as_deref(), Some("-3.7038"));
    assert_eq!(claim.location.accuracy.as_deref(), Some("15"));
}

#[test]
fn nested_gnss_claim_is_read_under_the_legacy_identifier() {
    let cert = certificate(LEGACY_OID, GNSS.as_bytes());
    let claim = extract_sensor_id_from_cert(&cert).unwrap();
    assert_eq!(claim.sensor_type, SensorType::Gnss);
    assert_eq!(claim.sensor_id, "/dev/gps0");
    assert_eq!(claim.serial_number, "SN-1");
    assert_eq!(claim.imei, "");
    assert_eq!(claim.location.lat.as_deref(), Some("1.5"));
    assert_eq!(claim.location.lon.as_deref(), Some("2"));
    assert_eq!(claim.location.accuracy.as_deref(), Some("0.25"));
}

#[test]
fn flat_claim_is_read() {
    let cert = certificate(UNIFIED_IDENTITY_OID, FLAT.as_bytes());
    let claim = extract_sensor_id_from_cert(&cert).unwrap();
    assert_eq!(claim.sensor_type, SensorType::Mobile);
    assert_eq!(claim.sensor_id, "12d1:1433");
    assert_eq!(claim.imei, "1");
    assert_eq!(claim.imsi, "2");
    assert!(claim.location.lat.is_none());
}

#[test]
fn extension_under_another_identifier_is_no_claim() {
    let cert = certificate("1.3.6.1.4.1.99999.3", MOBILE.as_bytes());
    assert!(extract_sensor_id_from_cert(&cert).is_none());
}

#[test]
fn extension_that_is_no_json_is_no_claim() {
    let cert = certificate(UNIFIED_IDENTITY_OID, b"not json");
    assert!(extract_sensor_id_from_cert(&cert).is_none());
    let cert = certificate(UNIFIED_IDENTITY_OID, &[0xff, 0xfe]);
    assert!(extract_sensor_id_from_cert(&cert).is_none());
    let cert = certificate(UNIFIED_IDENTITY_OID, b"{\"grc.geolocation\":{\"sensor_id\":7}}");
    assert!(extract_sensor_id_from_cert(&cert).is_none());
}

#[test]
fn claim_is_found_in_the_second_certificate_of_a_chain() {
    let leaf = certificate("1.3.6.1.4.1.99999.3", b"{}");
    let agent = certificate(UNIFIED_IDENTITY_OID, GNSS.as_bytes());
    let chain = format!("{leaf}{agent}");
    let claim = extract_sensor_id_from_cert(&chain).unwrap();
    assert_eq!(claim.sensor_id, "/dev/gps0");
    let chain = format!("garbage\n{leaf}-----BEGIN CERTIFICATE-----\n!!!\n-----END CERTIFICATE-----\n{agent}");
    assert_eq!(extract_sensor_id_from_cert(&chain).unwrap().sensor_id, "/dev/gps0");
    assert!(extract_sensor_id_from_cert(&leaf).is_none());
    assert!(extract_sensor_id_from_cert("").is_none());
}

#[test]
fn claim_is_found_in_a_forwarded_header() {
    let agent = certificate(UNIFIED_IDENTITY_OID, MOBILE.as_bytes());
    let header = format!("By=spiffe://edge;Hash=abc;Chain=\"{}\";Subject=\"CN=agent\"", encoded(&agent));
    let claim = claim_in_header(&header).unwrap();
    assert_eq!(claim.sensor_id, "12d1:1433");
    let header = format!("Cert=\"{}\"", encoded(&agent));
    assert_eq!(claim_in_header(&header).unwrap().sensor_id, "12d1:1433");
    assert!(claim_in_header("By=spiffe://edge").is_none());
}

#[test]
fn first_extension_with_a_claim_decides() {
    let exts = vec![
        CertExtension { oid: "2.5.29.19".to_string(), value: MOBILE.as_bytes().to_vec() },
        CertExtension { oid: LEGACY_OID.to_string(), value: b"{".to_vec() },
        CertExtension { oid: UNIFIED_IDENTITY_OID.to_string(), value: GNSS.as_bytes().to_vec() },
        CertExtension { oid: UNIFIED_IDENTITY_OID.to_string(), value: MOBILE.as_bytes().to_vec() },
    ];
    assert_eq!(extract_sensor_id_from_extensions(&exts).unwrap().sensor_id, "/dev/gps0");
    assert!(extract_sensor_id_from_extensions(&Vec::new()).is_none());
}

#[test]
fn claims_are_read_from_json_values() {
    let object = |members: Vec<(&str, Json)>| {
        Json::Object(members.into_iter().map(|(k, v)| (k.to_string(), v)).collect())
    };
    let t = |s: &str| Json::Text(s.to_string());
    let doc = object(vec![(
        "grc.geolocation",
        object(vec![
            ("gnss", object(vec![("sensor_id", t("g"))])),
            ("mobile", object(vec![("sensor_id", t("m")), ("sim_imsi", Json::Null)])),
        ]),
    )]);
    let claim = claim_from(&doc).unwrap();
    assert_eq!(claim.sensor_type, SensorType::Mobile);
    assert_eq!(claim.sensor_id, "m");
    assert_eq!(claim.imsi, "");

    let doc = object(vec![(
        "grc.geolocation",
        object(vec![
            ("mobile", object(vec![("sensor_id", Json::Number("1".to_string()))])),
            ("sensor_id", t("flat")),
            ("type", t("gnss")),
        ]),
    )]);
    let claim = claim_from(&doc).unwrap();
    assert_eq!(claim.sensor_type, SensorType::Gnss);
    assert_eq!(claim.sensor_id, "flat");

    assert!(claim_from(&object(vec![("grc.geolocation", Json::Null)])).is_none());
    assert!(claim_from(&object(vec![("geolocation", object(vec![("sensor_id", t("x"))]))])).is_none());
    assert!(claim_from(&Json::Array(Vec::new())).is_none());
    assert!(Json::Object(Vec::new()).is_object());
    assert!(!Json::Null.is_object());
}

#[test]
fn modes_are_read_by_name() {
    assert_eq!(parse_mode("trust"), Some(VerificationMode::Trust));
    assert_eq!(parse_mode("runtime"), Some(VerificationMode::Runtime));
    assert_eq!(parse_mode("strict"), Some(VerificationMode::Strict));
    assert_eq!(parse_mode("Strict"), None);
    assert_eq!(parse_mode(""), None);
}

#[test]
fn request_without_claim_is_refused() {
    let cache = VerificationCache::new();
    let mut metrics = FilterMetrics::new();
    for header in [None, Some("By=spiffe://edge"), Some("Cert=\"nothing\"")] {
        let (d, claim) = on_http_request_headers(
            &config(VerificationMode::Trust),
            &cache,
            &mut metrics,
            header,
            0,
        );
        assert!(claim.is_none());
        match d {
            RequestDecision::Deny(e) => {
                assert_eq!(e.code, 403);
                assert_eq!(e.message, "Geo Claim Missing");
            }
            other => panic!("unexpected: {other:?}"),
        }
    }
    assert_eq!(metrics.request_total, 0);
    assert_eq!(metrics.sidecar_call_total, 0);
}

#[test]
fn gnss_claim_is_let_through_in_every_mode() {
    for mode in [VerificationMode::Trust, VerificationMode::Runtime, VerificationMode::Strict] {
        let cache = VerificationCache::new();
        let mut metrics = FilterMetrics::new();
        let d = decide(&config(mode), &cache, &mut metrics, &Some(gnss_claim()), 0);
        assert!(matches!(d, RequestDecision::Continue));
        assert_eq!(metrics.request_total, 1);
        assert_eq!(metrics.sidecar_call_total, 0);
    }
}

#[test]
fn mobile_claim_is_let_through_in_trust_mode() {
    let cache = VerificationCache::new();
    let mut metrics = FilterMetrics::new();
    let d =
        decide(&config(VerificationMode::Trust), &cache, &mut metrics, &Some(mobile_claim()), 0);
    assert!(matches!(d, RequestDecision::Continue));
    assert_eq!(metrics.request_total, 1);
}

#[test]
fn mobile_claim_is_verified_in_runtime_mode() {
    let cache = VerificationCache::new();
    let mut metrics = FilterMetrics::new();
    let d = decide(
        &config(VerificationMode::Runtime),
        &cache,
        &mut metrics,
        &Some(mobile_claim()),
        0,
    );
    match d {
        RequestDecision::Verify { url, body } => {
            assert_eq!(url, "http://localhost:5000/verify");
            assert_eq!(
                body,
                "{\"sensor_id\":\"12d1:1433\",\"sensor_type\":\"mobile\",\"imei\":\"356938035643809\",\"imsi\":\"214070000000001\",\"msisdn\":\"+34600000000\",\"lat\":40.4168,\"lon\":-3.7038,\"accuracy\":15,\"skip_cache\":false}"
            );
        }
        other => panic!("unexpected: {other:?}"),
    }
    assert_eq!(metrics.request_total, 1);
    assert_eq!(metrics.sidecar_call_total, 1);
}

#[test]
fn mobile_claim_is_verified_afresh_in_strict_mode() {
    let mut cache = VerificationCache::new();
    cache.store("12d1:1433", 0, true);
    let mut metrics = FilterMetrics::new();
    let d =
        decide(&config(VerificationMode::Strict), &cache, &mut metrics, &Some(mobile_claim()), 1);
    match d {
        RequestDecision::Verify { body, .. } => assert!(body.ends_with("\"skip_cache\":true}")),
        other => panic!("unexpected: {other:?}"),
    }
    assert_eq!(metrics.sidecar_call_total, 1);
}

#[test]
fn cached_answer_decides_in_runtime_mode() {
    let mut cache = VerificationCache::new();
    let mut metrics = FilterMetrics::new();
    let c = config(VerificationMode::Runtime);
    cache.store("12d1:1433", 1_000, true);
    let d = decide(&c, &cache, &mut metrics, &Some(mobile_claim()), 1_000 + CACHE_TTL_MS - 1);
    assert!(matches!(d, RequestDecision::Continue));
    let d = decide(&c, &cache, &mut metrics, &Some(mobile_claim()), 1_000 + CACHE_TTL_MS);
    assert!(matches!(d, RequestDecision::Verify { .. }));
    cache.store("12d1:1433", 1_000, false);
    let d = decide(&c, &cache, &mut metrics, &Some(mobile_claim()), 2_000);
    match d {
        RequestDecision::Deny(e) => {
            assert_eq!(e.code, 403);
            assert_eq!(e.message, "Sensor verification failed (cached)");
        }
        other => panic!("unexpected: {other:?}"),
    }
    cache.store("another", 1_000, true);
    let d = decide(&c, &cache, &mut metrics, &Some(mobile_claim()), 2_000);
    assert!(matches!(d, RequestDecision::Verify { .. }));
    assert_eq!(metrics.request_total, 4);
    assert_eq!(metrics.sidecar_call_total, 2);
}

#[test]
fn cache_forgets_after_fifteen_seconds() {
    assert_eq!(CACHE_TTL_MS, 15_000);
    let mut cache = VerificationCache::new();
    assert_eq!(cache.lookup("s", 0), None);
    cache.store("s", 100, true);
    assert_eq!(cache.lookup("s", 100), Some(true));
    assert_eq!(cache.lookup("s", 15_099), Some(true));
    assert_eq!(cache.lookup("s", 15_100), None);
    assert_eq!(cache.lookup("s", 50), Some(true));
    assert_eq!(cache.lookup("t", 100), None);
    cache.store("t", 200, false);
    assert_eq!(cache.lookup("t", 200), Some(false));
    assert_eq!(cache.lookup("s", 200), None);
}

#[test]
fn absent_numbers_are_null_in_the_body() {
    assert_eq!(
        verify_request_body(&gnss_claim(), true),
        "{\"sensor_id\":\"/dev/gps0\",\"sensor_type\":\"gnss\",\"imei\":\"\",\"imsi\":\"\",\"msisdn\":\"\",\"lat\":null,\"lon\":null,\"accuracy\":null,\"skip_cache\":true}"
    );
}

fn answer(status: u16, body: &str) -> SidecarReply {
    SidecarReply::Answer { status, body: body.to_string() }
}

fn verdict(reply: &SidecarReply) -> Result<(), (u16, String)> {
    let mut cache = VerificationCache::new();
    let mut metrics = FilterMetrics::new();
    let r = on_http_call_response(&mut cache, &mut metrics, "s", reply, 0);
    assert_eq!(metrics.verification_success, u64::from(r.is_ok()));
    assert_eq!(metrics.verification_failure, u64::from(r.is_err()));
    r.map_err(|e| (e.code, e.message))
}

#[test]
fn verified_sensor_is_let_through() {
    assert_eq!(verdict(&answer(200, "{\"verification_result\":true}")), Ok(()));
    assert_eq!(
        verdict(&answer(200, "{\"verification_result\":true,\"error\":null,\"distance\":3}")),
        Ok(())
    );
    assert_eq!(verdict(&answer(399, "{\"verification_result\":true}")), Ok(()));
}

#[test]
fn anything_in_doubt_is_refused() {
    let denied = |code: u16, message: &str| Err((code, message.to_string()));
    assert_eq!(verdict(&SidecarReply::Unreachable), denied(503, "Verification service unavailable"));
    for status in [400u16, 403, 404, 500, 502, 503, 599, u16::MAX] {
        assert_eq!(
            verdict(&answer(status, "{\"verification_result\":true}")),
            denied(403, "Verification service error")
        );
    }
    for body in ["", "not json", "true", "[{\"verification_result\":true}]", "\"true\""] {
        assert_eq!(
            verdict(&answer(200, body)),
            denied(503, "Verification service response invalid"),
            "{body}"
        );
    }
    for body in [
        "{\"verification_result\":true,\"error\":\"quota\"}",
        "{\"verification_result\":true,\"error\":false}",
        "{\"error\":{}}",
    ] {
        assert_eq!(verdict(&answer(200, body)), denied(403, "Verification service error"), "{body}");
    }
    for body in [
        "{}",
        "{\"verification_result\":false}",
        "{\"verification_result\":null}",
        "{\"verification_result\":\"true\"}",
        "{\"verification_result\":1}",
        "{\"Verification_Result\":true}",
    ] {
        assert_eq!(verdict(&answer(200, body)), denied(403, "Sensor verification failed"), "{body}");
    }
}

#[test]
fn sidecar_answers_are_judged_from_their_json() {
    let ok = Json::Object(vec![("verification_result".to_string(), Json::Bool(true))]);
    assert!(judge(Some(200), Some(&ok)).is_ok());
    assert_eq!(judge(Some(500), Some(&ok)).unwrap_err().code, 403);
    assert_eq!(judge(None, Some(&ok)).unwrap_err().code, 503);
    assert_eq!(judge(Some(200), None).unwrap_err().code, 503);
    assert_eq!(judge(Some(200), Some(&Json::Bool(true))).unwrap_err().code, 503);
}

#[test]
fn answers_about_the_sensor_are_kept() {
    let mut cache = VerificationCache::new();
    let mut metrics = FilterMetrics::new();
    let r = on_http_call_response(
        &mut cache,
        &mut metrics,
        "s",
        &answer(200, "{\"verification_result\":false}"),
        10,
    );
    assert!(r.is_err());
    assert_eq!(cache.lookup("s", 10), Some(false));
    let r = on_http_call_response(
        &mut cache,
        &mut metrics,
        "s",
        &answer(200, "{\"verification_result\":true}"),
        20,
    );
    assert!(r.is_ok());
    assert_eq!(cache.lookup("s", 20), Some(true));
    for reply in [
        SidecarReply::Unreachable,
        answer(500, "{\"verification_result\":false}"),
        answer(200, "nothing"),
        answer(200, "{\"verification_result\":false,\"error\":\"x\"}"),
    ] {
        let r = on_http_call_response(&mut cache, &mut metrics, "s", &reply, 30);
        assert!(r.is_err());
        assert_eq!(cache.lookup("s", 30), Some(true));
    }
    assert_eq!(metrics.verification_success, 1);
    assert_eq!(metrics.verification_failure, 5);
    assert_eq!(metrics.request_total, 0);
}

#[test]
fn latency_is_the_time_from_call_to_answer() {
    use_latency(100, 350, 250);
    use_latency(100, 100, 0);
    use_latency(350, 100, 0);
    use_latency(0, u64::MAX, u64::MAX);
}

fn use_latency(called: u64, answered: u64, expected: u64) {
    assert_eq!(keylime_agent::edge_filter::sidecar_latency_ms(called, answered), expected);
}
