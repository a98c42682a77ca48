use hbbs_policy::{
    connection_type, request, AuthorizationOutcome, AuthorizationRequest, BodyValue, ConfigError,
    ConfigStep, PolicyClient, PolicyDecision, PolicyMode, PolicyReply, PolicySettings,
};
use serde_json::Value;

fn body_json(request: &AuthorizationRequest) -> Value {
    let mut map = serde_json::Map::new();
    for field in request.body_fields() {
        let value = match field.value {
            BodyValue::Text(text) => Value::String(text),
            BodyValue::Flag(flag) => Value::Bool(flag),
        };
        map.insert(field.name.to_owned(), value);
    }
    Value::Object(map)
}

fn settings(mode: &str, token_file: Option<&str>) -> PolicySettings {
    PolicySettings {
        mode: Some(mode.to_owned()),
        endpoint: None,
        instance_id: Some("test-hbbs".to_owned()),
        timeout_ms: Some("100".to_owned()),
        service_token_file: token_file.map(|f| f.to_owned()),
    }
}

fn client(mode: PolicyMode) -> PolicyClient {
    let name = match mode {
        PolicyMode::Off => "off",
        PolicyMode::Observe => "observe",
        PolicyMode::Enforce => "enforce",
    };
    match PolicyClient::from_settings(settings(name, Some("/run/secrets/token"))).unwrap() {
        ConfigStep::Ready(client) => client,
        ConfigStep::ReadServiceToken(pending) => {
            pending.with_service_token("service-secret\n".to_owned()).unwrap()
        }
    }
}

fn test_request() -> AuthorizationRequest {
    request(
        "relay",
        "user-token".to_owned(),
        "requester-uuid".to_owned(),
        "127.0.0.1".to_owned(),
        "target-id".to_owned(),
        "default".to_owned(),
        true,
    )
}

/// The reply that the backend's JSON body gives, as the HTTP layer reads it.
fn reply_from_body(body: &str) -> PolicyReply {
    let value: Value = serde_json::from_str(body).unwrap();
    let field = |name: &str| value[name].as_str().unwrap().to_owned();
    PolicyReply::Decision(PolicyDecision {
        decision_id: field("decision_id"),
        decision: field("decision"),
        reason_code: field("reason_code"),
    })
}

fn authorize(client: &PolicyClient, reply: &PolicyReply) -> bool {
    match client.begin(test_request()) {
        None => true,
        Some(_) => client.decide(reply).is_permitted(),
    }
}

#[test]
fn parses_modes_strictly() {
    assert_eq!(PolicyMode::parse("off").unwrap(), PolicyMode::Off);
    assert_eq!(PolicyMode::parse("OBSERVE").unwrap(), PolicyMode::Observe);
    assert_eq!(PolicyMode::parse("enforce").unwrap(), PolicyMode::Enforce);
    assert!(PolicyMode::parse("permissive").is_err());
}

#[test]
fn maps_connection_types() {
    assert_eq!(connection_type(0), "remote_desktop");
    assert_eq!(connection_type(1), "file_transfer");
    assert_eq!(connection_type(2), "port_forward");
    assert_eq!(connection_type(3), "rdp");
    assert_eq!(connection_type(4), "view_camera");
    assert_eq!(connection_type(99), "remote_desktop");
}

#[test]
fn names_relay_correlation_without_claiming_device_identity() {
    let value = body_json(&request(
        "relay",
        "token".to_owned(),
        "relay-uuid".to_owned(),
        "127.0.0.1".to_owned(),
        "target".to_owned(),
        "remote_desktop".to_owned(),
        true,
    ));
    assert_eq!(value["relay_request_uuid"], "relay-uuid");
    assert!(value.get("requester_uuid").is_none());
}

#[test]
fn observe_logs_deny_but_allows() {
    let reply = reply_from_body(
        r#"{"decision_id":"decision-1","decision":"deny","reason_code":"default_deny"}"#,
    );
    let observe = client(PolicyMode::Observe);
    assert!(authorize(&observe, &reply));
    assert_eq!(observe.decide(&reply), AuthorizationOutcome::WouldDeny);
}

#[test]
fn enforce_blocks_deny_and_backend_failure() {
    let reply = reply_from_body(
        r#"{"decision_id":"decision-2","decision":"deny","reason_code":"explicit_deny"}"#,
    );
    let enforce = client(PolicyMode::Enforce);
    assert!(!authorize(&enforce, &reply));
    let failure = PolicyReply::Unavailable("request failed: connection refused".to_owned());
    assert!(!authorize(&enforce, &failure));
}

#[test]
fn timeout_is_fail_open_only_in_observe() {
    let timeout = PolicyReply::Unavailable("request failed: operation timed out".to_owned());
    assert!(authorize(&client(PolicyMode::Observe), &timeout));
    assert!(!authorize(&client(PolicyMode::Enforce), &timeout));
}

#[test]
fn mode_parsing_trims_and_ignores_case() {
    assert_eq!(PolicyMode::parse("").unwrap(), PolicyMode::Off);
    assert_eq!(PolicyMode::parse("  \t").unwrap(), PolicyMode::Off);
    assert_eq!(PolicyMode::parse(" Enforce\n").unwrap(), PolicyMode::Enforce);
    assert_eq!(PolicyMode::parse("\u{3000}oBsErVe\u{a0}").unwrap(), PolicyMode::Observe);
    match PolicyMode::parse("  Permissive ") {
        Err(ConfigError::InvalidMode(value)) => assert_eq!(value, "permissive"),
        other => panic!("unexpected {:?}", other),
    }
    match PolicyMode::parse("ÉNFORCE") {
        Err(ConfigError::InvalidMode(value)) => assert_eq!(value, "Énforce"),
        other => panic!("unexpected {:?}", other),
    }
}

#[test]
fn off_mode_needs_no_token_and_uses_defaults() {
    let step = PolicyClient::from_settings(PolicySettings {
        mode: None,
        endpoint: None,
        instance_id: None,
        timeout_ms: None,
        service_token_file: None,
    })
    .unwrap();
    let client = match step {
        ConfigStep::Ready(client) => client,
        ConfigStep::ReadServiceToken(_) => panic!("off mode reads no token"),
    };
    assert_eq!(client.mode(), PolicyMode::Off);
    assert!(client.is_break_glass());
    assert_eq!(
        client.endpoint(),
        "http://127.0.0.1:8081/internal/v1/connection-authorizations"
    );
    assert_eq!(client.instance_id(), "hbbs-1");
    assert_eq!(client.timeout_ms(), 300);
    assert_eq!(client.service_token(), "");
}

#[test]
fn configuration_errors_come_in_order() {
    assert!(matches!(
        PolicyClient::from_settings(settings("strict", None)),
        Err(ConfigError::InvalidMode(_))
    ));
    let mut s = settings("enforce", None);
    s.timeout_ms = Some("soon".to_owned());
    assert!(matches!(
        PolicyClient::from_settings(s),
        Err(ConfigError::TimeoutNotInteger)
    ));
    let mut s = settings("enforce", None);
    s.timeout_ms = Some("0".to_owned());
    assert!(matches!(
        PolicyClient::from_settings(s),
        Err(ConfigError::TimeoutNotPositive)
    ));
    assert!(matches!(
        PolicyClient::from_settings(settings("observe", None)),
        Err(ConfigError::TokenFileRequired)
    ));
    assert!(matches!(
        PolicyClient::from_settings(settings("observe", Some("  "))),
        Err(ConfigError::TokenFileRequired)
    ));
    let pending = match PolicyClient::from_settings(settings("enforce", Some(" /tmp/t "))) {
        Ok(ConfigStep::ReadServiceToken(pending)) => pending,
        _ => panic!("enforce mode reads its token"),
    };
    assert_eq!(pending.service_token_file(), " /tmp/t ");
    assert!(matches!(
        pending.with_service_token(" \n\t".to_owned()),
        Err(ConfigError::EmptyServiceToken)
    ));
}

#[test]
fn timeout_parsing_follows_unsigned_decimal() {
    let timeout = |text: &str| {
        let mut s = settings("off", None);
        s.timeout_ms = Some(text.to_owned());
        match PolicyClient::from_settings(s) {
            Ok(ConfigStep::Ready(client)) => Ok(client.timeout_ms()),
            Ok(_) => unreachable!(),
            Err(e) => Err(e),
        }
    };
    assert_eq!(timeout("+250").unwrap(), 250);
    assert_eq!(timeout("18446744073709551615").unwrap(), u64::MAX);
    assert!(matches!(timeout("18446744073709551616"), Err(ConfigError::TimeoutNotInteger)));
    assert!(matches!(timeout("+"), Err(ConfigError::TimeoutNotInteger)));
    assert!(matches!(timeout("-1"), Err(ConfigError::TimeoutNotInteger)));
    assert!(matches!(timeout(" 300"), Err(ConfigError::TimeoutNotInteger)));
    assert!(matches!(timeout(""), Err(ConfigError::TimeoutNotInteger)));
    assert!(matches!(timeout("00"), Err(ConfigError::TimeoutNotPositive)));
}

#[test]
fn service_token_is_trimmed() {
    let c = client(PolicyMode::Enforce);
    assert_eq!(c.service_token(), "service-secret");
    assert_eq!(c.instance_id(), "test-hbbs");
    assert_eq!(c.timeout_ms(), 100);
}

#[test]
fn begin_stamps_id_and_instance() {
    let c = client(PolicyMode::Observe);
    let prepared = c.begin(test_request()).unwrap();
    assert_eq!(prepared.request_id.len(), 36);
    let id: Vec<char> = prepared.request_id.chars().collect();
    assert_eq!(id[8], '-');
    assert_eq!(id[14], '4');
    assert!(matches!(id[19], '8' | '9' | 'a' | 'b'));
    assert_eq!(prepared.hbbs_instance, "test-hbbs");
    assert_eq!(prepared.access_token, "user-token");
    assert_eq!(prepared.relay_request_uuid, "requester-uuid");
    let other = c.begin(test_request()).unwrap();
    assert_ne!(prepared.request_id, other.request_id);
    assert!(client(PolicyMode::Off).begin(test_request()).is_none());
}

#[test]
fn request_starts_without_identity() {
    let r = test_request();
    assert_eq!(r.request_id, "");
    assert_eq!(r.requester_rustdesk_id, "");
    assert_eq!(r.hbbs_instance, "");
    assert_eq!(r.request_kind, "relay");
    assert!(r.relay_requested);
}

#[test]
fn body_lists_members_in_order_and_skips_empty_ids() {
    let mut r = request(
        "punch_hole",
        "tok".to_owned(),
        String::new(),
        "10.0.0.1".to_owned(),
        "peer".to_owned(),
        "rdp".to_owned(),
        false,
    );
    let names: Vec<&str> = r.body_fields().iter().map(|f| f.name).collect();
    assert_eq!(
        names,
        vec![
            "request_id",
            "request_kind",
            "access_token",
            "requester_ip",
            "target_rustdesk_id",
            "connection_type",
            "relay_requested",
            "hbbs_instance"
        ]
    );
    r.requester_rustdesk_id = "me".to_owned();
    let value = body_json(&r);
    assert_eq!(value["requester_rustdesk_id"], "me");
    assert_eq!(value["request_kind"], "punch_hole");
    assert_eq!(value["relay_requested"], false);
    assert!(value.get("relay_request_uuid").is_none());
    assert_eq!(r.body_fields().len(), 9);
}

#[test]
fn decisions_per_mode() {
    let allow = reply_from_body(r#"{"decision_id":"d","decision":"allow","reason_code":"ok"}"#);
    let other = reply_from_body(r#"{"decision_id":"d","decision":"Allow","reason_code":"x"}"#);
    let failed = PolicyReply::Unavailable("backend returned HTTP 500".to_owned());
    let off = client(PolicyMode::Off);
    let observe = client(PolicyMode::Observe);
    let enforce = client(PolicyMode::Enforce);
    assert_eq!(off.decide(&other), AuthorizationOutcome::Bypassed);
    assert_eq!(observe.decide(&allow), AuthorizationOutcome::Allowed);
    assert_eq!(enforce.decide(&allow), AuthorizationOutcome::Allowed);
    assert_eq!(enforce.decide(&other), AuthorizationOutcome::Denied);
    assert_eq!(observe.decide(&failed), AuthorizationOutcome::UnavailableObserved);
    assert_eq!(enforce.decide(&failed), AuthorizationOutcome::UnavailableFailedClosed);
    assert!(AuthorizationOutcome::Bypassed.is_permitted());
    assert!(AuthorizationOutcome::WouldDeny.is_permitted());
    assert!(!AuthorizationOutcome::Denied.is_permitted());
    assert!(!AuthorizationOutcome::UnavailableFailedClosed.is_permitted());
}

#[test]
fn success_statuses() {
    assert!(!hbbs_policy::status_is_success(199));
    assert!(hbbs_policy::status_is_success(200));
    assert!(hbbs_policy::status_is_success(299));
    assert!(!hbbs_policy::status_is_success(300));
    assert!(!hbbs_policy::status_is_success(500));
}
