use keylime_agent::registrar::{
    Attempt, RegistrarClient, RegistrarClientBuilder, RegistrarClientBuilderError,
    RegistrarClientError, Response, RetryConfig, Settled, VersionProbe, UNKNOWN_API_VERSION,
};

fn versions(list: &[&str]) -> Vec<String> {
    list.iter().map(|s| s.to_string()).collect()
}

fn client(current: Option<&str>, supported: &[&str]) -> RegistrarClient {
    let probe = match current {
        Some(v) => VersionProbe::Answered {
            current_version: v.to_string(),
            supported_versions: versions(supported),
        },
        None => VersionProbe::NoVersion,
    };
    RegistrarClientBuilder::new()
        .registrar_address("1.2.3.4".to_string())
        .registrar_port(8891)
        .build(probe)
        .expect("failed to build Registrar Client")
}

/// Runs an exchange as a caller does: ask for the next attempt, make it,
/// hand the outcome back.
fn exchange<T>(
    client: &mut RegistrarClient,
    enabled: &Vec<String>,
    registrar: impl Fn(&str) -> Result<T, RegistrarClientError>,
) -> (Result<T, RegistrarClientError>, Vec<String>) {
    let mut tried = Vec::new();
    let mut step = 0;
    loop {
        match client.next_attempt(enabled, step) {
            Attempt::GiveUp(e) => return (Err(e), tried),
            Attempt::Try { version, step: at } => {
                tried.push(version.clone());
                let outcome = registrar(&version);
                match client.settle(at, &version, outcome) {
                    Settled::Finished(r) => return (r, tried),
                    Settled::Continue(next) => step = next,
                }
            }
        }
    }
}

/// A registrar that serves the given versions and answers 404 to the rest.
fn serving(served: &'static [&'static str]) -> impl Fn(&str) -> Result<Vec<u8>, RegistrarClientError> {
    move |v: &str| {
        if served.contains(&v) {
            Ok(Vec::new())
        } else {
            Err(RegistrarClientError::Registration {
                addr: format!("http://1.2.3.4:8891/v{v}/agents/uuid"),
                code: 404,
            })
        }
    }
}

#[test]
fn test_register_agent_ok() {
    let mut registrar_client = client(Some("1.2"), &["1.2"]);
    let post = serving(&["1.2"]);
    let response = registrar_client.register_agent(&versions(&["1.2"]), |v: &String| post(v));
    assert!(response.is_ok(), "error: {response:?}");
}

#[test]
fn test_register_agent_with_old_registrar() {
    let mut registrar_client = client(None, &[]);
    assert_eq!(registrar_client.api_version(), UNKNOWN_API_VERSION);
    let post = serving(&["1.2"]);
    let response =
        registrar_client.register_agent(&versions(&["1.2", "3.4"]), |v: &String| post(v));
    assert!(response.is_ok(), "error: {response:?}");
    assert_eq!(registrar_client.api_version(), "1.2");
}

#[test]
fn test_register_agent_different_api() {
    let mut registrar_client = client(Some("3.4"), &["3.4"]);
    let post = serving(&["1.2", "3.4"]);
    let response =
        registrar_client.register_agent(&versions(&["1.2", "3.4"]), |v: &String| post(v));
    assert!(response.is_ok(), "error: {response:?}");
}

#[test]
fn test_register_agent_ok_without_ekcert() {
    let mut registrar_client = client(Some("1.2"), &["1.2"]);
    let post = serving(&["1.2"]);
    let response = registrar_client.register_agent(&versions(&["1.2"]), |v: &String| post(v));
    assert!(response.is_ok(), "error: {response:?}");
}

#[test]
fn test_register_agent_err() {
    let mut registrar_client = client(None, &[]);
    let post = serving(&[]);
    let response = registrar_client.register_agent(&versions(&["1.2"]), |v: &String| post(v));
    assert!(response.is_err());
    match response {
        Err(RegistrarClientError::AllAPIVersionsRejected(tried)) => assert_eq!(tried, "1.2"),
        other => panic!("unexpected: {other:?}"),
    }
}

#[test]
fn test_register_agent_unsupported_api() {
    let mut registrar_client = client(Some("3.4"), &["3.4"]);
    let post = serving(&["3.4"]);
    let response = registrar_client.register_agent(&versions(&["1.2"]), |v: &String| post(v));
    assert!(response.is_err());
    match response {
        Err(RegistrarClientError::IncompatibleAPI { agent_enabled, registrar_supported }) => {
            assert_eq!(agent_enabled, "1.2");
            assert_eq!(registrar_supported, "3.4");
        }
        other => panic!("unexpected: {other:?}"),
    }
}

/// A registrar that activates under the given versions.
fn activating(served: &'static [&'static str]) -> impl Fn(&str) -> Result<(), RegistrarClientError> {
    move |v: &str| {
        if served.contains(&v) {
            Ok(())
        } else {
            Err(RegistrarClientError::Activation {
                addr: format!("http://1.2.3.4:8891/v{v}/agents/uuid"),
                code: 404,
            })
        }
    }
}

#[test]
fn test_activate_agent_ok() {
    let mut registrar_client = client(Some("1.2"), &["3.4"]);
    let put = activating(&["1.2"]);
    let response = registrar_client.activate_agent(&versions(&["1.2"]), |v: &String| put(v));
    assert!(response.is_ok(), "error: {response:?}");
}

#[test]
fn test_activate_agent_old_registrar() {
    let mut registrar_client = client(None, &[]);
    let put = activating(&["1.2"]);
    let response =
        registrar_client.activate_agent(&versions(&["1.2", "3.4"]), |v: &String| put(v));
    assert!(response.is_ok(), "error: {response:?}");
    assert_eq!(registrar_client.api_version(), "1.2");
}

#[test]
fn test_activate_agent_different_api() {
    let mut registrar_client = client(Some("1.2"), &["1.2"]);
    let put = activating(&["1.2"]);
    let response =
        registrar_client.activate_agent(&versions(&["1.2", "3.4"]), |v: &String| put(v));
    assert!(response.is_ok(), "error: {response:?}");
}

#[test]
fn test_activate_agent_unsupported_api() {
    let mut registrar_client = client(Some("3.4"), &["3.4"]);
    let put = activating(&["3.4"]);
    let response = registrar_client.activate_agent(&versions(&["1.2"]), |v: &String| put(v));
    assert!(response.is_err());
    assert!(matches!(response, Err(RegistrarClientError::IncompatibleAPI { .. })));
}

#[test]
fn test_activate_agent_err() {
    let mut registrar_client = client(None, &[]);
    let put = activating(&[]);
    let response = registrar_client.activate_agent(&versions(&["1.2"]), |v: &String| put(v));
    assert!(response.is_err());
}

#[test]
fn test_build_missing_required() {
    let required = ["registrar_address", "registrar_port"];
    for to_skip in required.iter() {
        let to_add: Vec<&str> = required.iter().filter(|&x| x != to_skip).copied().collect();
        let mut builder = RegistrarClientBuilder::new();
        if to_add.contains(&"registrar_address") {
            builder = builder.registrar_address("1.2.3.5".to_string());
        }
        if to_add.contains(&"registrar_port") {
            builder = builder.registrar_port(8891);
        }
        let result = builder.build(VersionProbe::NoVersion);
        assert!(result.is_err());
    }
}

#[test]
fn build_names_what_is_missing() {
    let mut b = RegistrarClientBuilder::new();
    assert!(matches!(
        b.build(VersionProbe::NoVersion),
        Err(RegistrarClientBuilderError::RegistrarIPNotSet)
    ));
    assert!(matches!(
        b.get_registrar_api_version(),
        Err(RegistrarClientBuilderError::RegistrarIPNotSet)
    ));
    let mut b = RegistrarClientBuilder::new().registrar_address("host".to_string());
    assert!(matches!(
        b.build(VersionProbe::NoVersion),
        Err(RegistrarClientBuilderError::RegistrarPortNotSet)
    ));
    assert!(matches!(
        b.get_registrar_api_version(),
        Err(RegistrarClientBuilderError::RegistrarPortNotSet)
    ));
    let mut b = RegistrarClientBuilder::new().registrar_port(1);
    assert!(matches!(
        b.build(VersionProbe::NoVersion),
        Err(RegistrarClientBuilderError::RegistrarIPNotSet)
    ));
}

#[test]
fn unreadable_answer_is_the_error_of_the_build() {
    let mut b = RegistrarClientBuilder::new()
        .registrar_address("host".to_string())
        .registrar_port(1);
    let r = b.build(VersionProbe::Unreadable(RegistrarClientBuilderError::Reqwest(
        "expected value at line 1".to_string(),
    )));
    match r {
        Err(RegistrarClientBuilderError::Reqwest(e)) => assert_eq!(e, "expected value at line 1"),
        other => panic!("unexpected: {other:?}"),
    }
}

#[test]
fn unreachable_registrar_gives_a_client_of_unknown_version() {
    let mut b = RegistrarClientBuilder::new()
        .registrar_address("host".to_string())
        .registrar_port(1);
    let c = b.build(VersionProbe::Unreachable).expect("a client is built");
    assert_eq!(c.api_version(), UNKNOWN_API_VERSION);
    assert_eq!(c.api_version(), "unknown");
    assert_eq!(c.agent_url("2.0", "u"), "http://host:1/v2.0/agents/u");
    let enabled = versions(&["1.2", "2.0"]);
    match c.next_attempt(&enabled, 0) {
        Attempt::Try { version, .. } => assert_eq!(version, "2.0"),
        other => panic!("unexpected: {other:?}"),
    }
    let mut b = RegistrarClientBuilder::new()
        .registrar_address("host".to_string())
        .registrar_port(1);
    let d = b.build(VersionProbe::NoVersion).expect("a client is built");
    assert_eq!(d.api_version(), c.api_version());
}

#[test]
fn version_endpoint_is_asked_at_the_registrar() {
    let b = RegistrarClientBuilder::new()
        .registrar_address("registrar.example".to_string())
        .registrar_port(8891)
        .retry_config(Some(RetryConfig {
            max_retries: 3,
            initial_delay_ms: 100,
            max_delay_ms: None,
        }));
    assert_eq!(b.get_registrar_api_version().unwrap(), "http://registrar.example:8891/version");
    let b = RegistrarClientBuilder::new()
        .registrar_address("::1".to_string())
        .registrar_port(0);
    assert_eq!(b.get_registrar_api_version().unwrap(), "http://[::1]:0/version");
    let b = RegistrarClientBuilder::new()
        .registrar_address("10.0.0.1".to_string())
        .registrar_port(u32::MAX);
    assert_eq!(b.get_registrar_api_version().unwrap(), "http://10.0.0.1:4294967295/version");
}

#[test]
fn agent_record_is_addressed_under_the_version() {
    let c = client(Some("2.1"), &["2.1"]);
    assert_eq!(c.agent_url("2.1", "uuid"), "http://1.2.3.4:8891/v2.1/agents/uuid");
    assert_eq!(c.api_version(), "2.1");
}

#[test]
fn shared_version_registers_at_once() {
    let mut c = client(Some("3.0"), &["2.1\t", " 2.0"]);
    let enabled = versions(&["1.0", "2.0 ", " 2.1 "]);
    let (response, tried) = exchange(&mut c, &enabled, |v| {
        if ["2.1", "2.0"].contains(&v.trim()) {
            Ok(v.to_string())
        } else {
            Err(RegistrarClientError::Reqwest("refused".to_string()))
        }
    });
    assert_eq!(response.unwrap(), " 2.1 ");
    assert_eq!(tried, [" 2.1 "]);
    assert_eq!(c.api_version(), "2.1");
}

#[test]
fn newest_supported_version_is_tried_first() {
    let mut c = client(Some("9.9"), &["1.0", "2.0", "3.0"]);
    let enabled = versions(&["1.0", "2.0", "4.0"]);
    let (response, tried) = exchange(&mut c, &enabled, |v| Ok::<String, RegistrarClientError>(v.to_string()));
    assert_eq!(response.unwrap(), "2.0");
    assert_eq!(tried, ["2.0"]);
}

#[test]
fn rejected_active_version_is_followed_by_the_scan() {
    let mut c = client(Some("9.9"), &["3.4"]);
    let enabled = versions(&["3.4", "9.9"]);
    let (response, tried) = exchange(&mut c, &enabled, |v| {
        if v == "3.4" {
            Ok(())
        } else {
            Err(RegistrarClientError::Reqwest("timeout".to_string()))
        }
    });
    assert!(response.is_ok());
    assert_eq!(tried, ["9.9", "3.4"]);
    assert_eq!(c.api_version(), "3.4");
}

#[test]
fn version_mismatch_lets_the_scan_go_on() {
    let mut c = client(Some("9.9"), &["1.0", "2.0"]);
    let enabled = versions(&["1.0", "2.0"]);
    let (response, tried) = exchange(&mut c, &enabled, |v| {
        if v == "1.0" {
            Ok(())
        } else {
            Err(RegistrarClientError::IncompatibleAPI {
                agent_enabled: v.to_string(),
                registrar_supported: String::new(),
            })
        }
    });
    assert!(response.is_ok());
    assert_eq!(tried, ["2.0", "1.0"]);
    assert_eq!(c.api_version(), "1.0");
}

#[test]
fn other_failures_end_the_scan_of_a_known_registrar() {
    let mut c = client(Some("9.9"), &["1.0", "2.0"]);
    let enabled = versions(&["1.0", "2.0"]);
    let (response, tried) = exchange(&mut c, &enabled, |v| {
        if v == "1.0" {
            Ok(())
        } else {
            Err(RegistrarClientError::Reqwest("connection reset".to_string()))
        }
    });
    assert_eq!(tried, ["2.0"]);
    match response {
        Err(RegistrarClientError::Reqwest(e)) => assert_eq!(e, "connection reset"),
        other => panic!("unexpected: {other:?}"),
    }
    assert_eq!(c.api_version(), "9.9");
}

#[test]
fn every_rejection_of_a_known_registrar_ends_in_incompatible() {
    let mut c = client(Some("9.9"), &["1.0", "2.0"]);
    let enabled = versions(&["1.0", "2.0", "3.0"]);
    let (response, tried) = exchange(&mut c, &enabled, |v| {
        Err::<(), RegistrarClientError>(RegistrarClientError::IncompatibleAPI {
            agent_enabled: v.to_string(),
            registrar_supported: String::new(),
        })
    });
    assert_eq!(tried, ["2.0", "1.0"]);
    match response {
        Err(RegistrarClientError::IncompatibleAPI { agent_enabled, registrar_supported }) => {
            assert_eq!(agent_enabled, "1.0, 2.0, 3.0");
            assert_eq!(registrar_supported, "1.0, 2.0");
        }
        other => panic!("unexpected: {other:?}"),
    }
}

#[test]
fn unknown_registrar_is_tried_with_every_version() {
    let mut c = client(None, &[]);
    let enabled = versions(&["1.0", "2.0", "3.0"]);
    let (response, tried) = exchange(&mut c, &enabled, |_| {
        Err::<(), RegistrarClientError>(RegistrarClientError::Reqwest("no".to_string()))
    });
    assert_eq!(tried, ["3.0", "2.0", "1.0"]);
    match response {
        Err(RegistrarClientError::AllAPIVersionsRejected(tried)) => {
            assert_eq!(tried, "1.0, 2.0, 3.0")
        }
        other => panic!("unexpected: {other:?}"),
    }
    assert_eq!(c.api_version(), "unknown");
}

#[test]
fn version_that_worked_is_tried_first_the_next_time() {
    let mut c = client(None, &[]);
    let enabled = versions(&["1.0", "2.0", "3.0"]);
    let (_, tried) = exchange(&mut c, &enabled, serving(&["2.0"]));
    assert_eq!(tried, ["3.0", "2.0"]);
    let (response, tried) = exchange(&mut c, &enabled, serving(&["2.0"]));
    assert!(response.is_ok());
    assert_eq!(tried, ["2.0"]);
}

#[test]
fn nothing_enabled_means_nothing_is_tried() {
    let mut c = client(Some("1.0"), &["1.0"]);
    let (response, tried) = exchange(&mut c, &Vec::new(), serving(&["1.0"]));
    assert!(tried.is_empty());
    match response {
        Err(RegistrarClientError::IncompatibleAPI { agent_enabled, registrar_supported }) => {
            assert_eq!(agent_enabled, "");
            assert_eq!(registrar_supported, "1.0");
        }
        other => panic!("unexpected: {other:?}"),
    }
}

#[test]
fn incompatible_error_carries_both_lists() {
    let c = client(Some("1.0"), &["1.0"]);
    match c.incompatible("a, b".to_string(), "c".to_string()) {
        RegistrarClientError::IncompatibleAPI { agent_enabled, registrar_supported } => {
            assert_eq!(agent_enabled, "a, b");
            assert_eq!(registrar_supported, "c");
        }
        other => panic!("unexpected: {other:?}"),
    }
}

#[test]
fn errors_are_put_in_words() {
    assert_eq!(
        RegistrarClientError::Activation { addr: "http://h:1/v1/agents/u".to_string(), code: 404 }
            .message(),
        "Failed to activate agent: received 404 from http://h:1/v1/agents/u"
    );
    assert_eq!(
        RegistrarClientError::Registration { addr: "A".to_string(), code: 65535 }.message(),
        "Failed to register agent: received 65535 from A"
    );
    assert_eq!(
        RegistrarClientError::AllAPIVersionsRejected("1.2, 3.4".to_string()).message(),
        "None of the tried API versions were enabled: tried '1.2, 3.4'"
    );
    assert_eq!(
        RegistrarClientError::IncompatibleAPI {
            agent_enabled: "1.2".to_string(),
            registrar_supported: "3.4".to_string()
        }
        .message(),
        "Registrar and agent API versions are incompatible: agent enabled APIs '1.2', registrar supported APIs '3.4'"
    );
    assert_eq!(
        RegistrarClientError::Inconsistent("3.4".to_string()).message(),
        "Inconsistent information from registrar: current API version = '3.4', but no list of supported API versions was provided"
    );
    assert_eq!(
        RegistrarClientError::NoCode("X".to_string()).message(),
        "cannot get error code for type X"
    );
    assert_eq!(RegistrarClientError::Reqwest("e".to_string()).message(), "Reqwest error: e");
    assert_eq!(RegistrarClientError::Serde("e".to_string()).message(), "Serde error: e");
    assert_eq!(
        RegistrarClientError::Middleware("e".to_string()).message(),
        "Middleware error: e"
    );
    assert_eq!(
        RegistrarClientBuilderError::RegistrarIPNotSet.message(),
        "Registrar IP or hostname not set"
    );
    assert_eq!(
        RegistrarClientBuilderError::RegistrarNoVersion.message(),
        "Registrar does not support the /version endpoint"
    );
    assert_eq!(
        RegistrarClientBuilderError::RegistrarPortNotSet.message(),
        "Registrar port not set"
    );
    assert_eq!(
        RegistrarClientBuilderError::Reqwest("e".to_string()).message(),
        "Reqwest error: e"
    );
    assert_eq!(
        RegistrarClientBuilderError::Middleware("e".to_string()).message(),
        "Middleware error: e"
    );
}

#[test]
fn retry_delay_doubles_up_to_the_largest() {
    let r = RetryConfig { max_retries: 5, initial_delay_ms: 100, max_delay_ms: Some(1000) };
    assert_eq!(r.delay_ms(0), 100);
    assert_eq!(r.delay_ms(1), 200);
    assert_eq!(r.delay_ms(2), 400);
    assert_eq!(r.delay_ms(3), 800);
    assert_eq!(r.delay_ms(4), 1000);
    assert_eq!(r.delay_ms(64), 1000);
    assert_eq!(r.delay_ms(u32::MAX), 1000);
    let r = RetryConfig { max_retries: 5, initial_delay_ms: 100, max_delay_ms: None };
    assert_eq!(r.delay_ms(10), 102_400);
    assert_eq!(r.delay_ms(63), u64::MAX);
    let r = RetryConfig { max_retries: 5, initial_delay_ms: 0, max_delay_ms: None };
    assert_eq!(r.delay_ms(1000), 0);
    let r = RetryConfig { max_retries: 5, initial_delay_ms: 1, max_delay_ms: None };
    assert_eq!(r.delay_ms(63), 1 << 63);
    assert_eq!(r.delay_ms(64), u64::MAX);
    let r = RetryConfig { max_retries: 5, initial_delay_ms: 500, max_delay_ms: Some(100) };
    assert_eq!(r.delay_ms(0), 100);
}

#[test]
fn requests_are_repeated_on_anything_but_200() {
    let r = RetryConfig { max_retries: 2, initial_delay_ms: 100, max_delay_ms: None };
    assert!(r.should_retry(0, None));
    assert!(r.should_retry(1, Some(500)));
    assert!(r.should_retry(1, Some(201)));
    assert!(r.should_retry(1, Some(404)));
    assert!(!r.should_retry(1, Some(200)));
    assert!(!r.should_retry(2, None));
    assert!(!r.should_retry(3, Some(500)));
}

#[test]
fn response_envelope_holds_code_status_and_results() {
    let r = Response { code: 200, status: "OK".to_string(), results: vec![1u8, 2] };
    assert_eq!(r.code, 200);
    assert_eq!(r.status, "OK");
    assert_eq!(r.results, [1, 2]);
}

#[test]
fn whole_exchange_makes_the_attempts_in_order() {
    let tried = std::cell::RefCell::new(Vec::new());
    let mut c = client(None, &[]);
    let enabled = versions(&["1.0", "2.0", "3.0"]);
    let r = c.exchange(&enabled, |v: &String| {
        tried.borrow_mut().push(v.clone());
        if v == "2.0" {
            Ok(7u8)
        } else {
            Err(RegistrarClientError::Reqwest("no".to_string()))
        }
    });
    assert_eq!(r.unwrap(), 7);
    assert_eq!(*tried.borrow(), ["3.0", "2.0"]);
    assert_eq!(c.api_version(), "2.0");

    let r = c.exchange(&enabled, |v: &String| {
        tried.borrow_mut().push(v.clone());
        Err::<u8, RegistrarClientError>(RegistrarClientError::Reqwest("no".to_string()))
    });
    assert!(matches!(r, Err(RegistrarClientError::AllAPIVersionsRejected(_))));
    assert_eq!(*tried.borrow(), ["3.0", "2.0", "2.0", "3.0", "2.0", "1.0"]);
    assert_eq!(c.api_version(), "2.0");
}
