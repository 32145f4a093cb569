use tdl_core::auth::AuthError;
use tdl_core::auth::DeviceCode;
use tdl_core::auth::PollStep;
use tdl_core::auth::RawDeviceAuth;
use tdl_core::auth::RawTokenResponse;
use tdl_core::auth::TidalClient;
use tdl_core::auth::TokenPoll;
use tdl_core::auth::UserInfo;
use tdl_core::auth::bearer_header_value;
use tdl_core::auth::classify_token_response;
use tdl_core::auth::device_auth_payload;
use tdl_core::auth::device_code_from_raw;
use tdl_core::auth::poll_step;
use tdl_core::auth::token_request_payload;
use tdl_core::config::Config;

fn granted_raw() -> RawTokenResponse {
    RawTokenResponse {
        error_kind: None,
        access_token: Some("tok-123".to_string()),
        expires_in: Some(604800),
        country_code: Some("US".to_string()),
        user_id: Some(42),
        refresh_token: Some("ref-456".to_string()),
    }
}

fn refusal_raw(kind: &str) -> RawTokenResponse {
    RawTokenResponse {
        error_kind: Some(kind.to_string()),
        access_token: None,
        expires_in: None,
        country_code: None,
        user_id: None,
        refresh_token: None,
    }
}

#[test]
fn handshake_grant_populates_all_fields() {
    let poll = classify_token_response(granted_raw());
    match poll {
        TokenPoll::Granted(u) => {
            assert_eq!(u.access_token, "tok-123");
            assert_eq!(u.expires_in, "604800");
            assert_eq!(u.country_code, "US");
            assert_eq!(u.user_id, "42");
            assert_eq!(u.refresh_token, "ref-456");
            assert!(!u.access_token.is_empty());
            assert!(!u.expires_in.is_empty());
            assert!(!u.country_code.is_empty());
            assert!(!u.user_id.is_empty());
            assert!(!u.refresh_token.is_empty());
        }
        other => panic!("expected a grant, got {:?}", other),
    }
}

#[test]
fn handshake_grant_finishes_the_poll_loop() {
    let poll = classify_token_response(granted_raw());
    let step = poll_step(10, 300, 2, poll);
    match step {
        PollStep::Finished(Ok(u)) => assert_eq!(u.access_token, "tok-123"),
        other => panic!("expected success, got {:?}", other),
    }
}

#[test]
fn handshake_empty_token_is_not_a_grant() {
    let mut raw = granted_raw();
    raw.access_token = Some(String::new());
    let poll = classify_token_response(raw);
    assert!(matches!(poll, TokenPoll::Malformed));
}

#[test]
fn handshake_pending_retries_at_the_cadence() {
    let poll = classify_token_response(refusal_raw("authorization_pending"));
    assert!(matches!(poll, TokenPoll::Pending));
    let step = poll_step(10, 300, 2, poll);
    match step {
        PollStep::Retry { wait } => assert_eq!(wait, 2),
        other => panic!("expected a retry, got {:?}", other),
    }
}

#[test]
fn handshake_rate_limit_retries() {
    let poll = classify_token_response(refusal_raw("slow_down"));
    assert!(matches!(poll, TokenPoll::RateLimited));
    assert!(matches!(poll_step(0, 300, 5, poll), PollStep::Retry { wait: 5 }));
}

#[test]
fn handshake_denied_is_terminal() {
    let poll = classify_token_response(refusal_raw("access_denied"));
    assert!(matches!(poll, TokenPoll::Denied));
    assert!(matches!(
        poll_step(0, 300, 2, poll),
        PollStep::Finished(Err(AuthError::Denied))
    ));
}

#[test]
fn handshake_expired_is_terminal() {
    let poll = classify_token_response(refusal_raw("expired_token"));
    assert!(matches!(poll, TokenPoll::Expired));
    assert!(matches!(
        poll_step(0, 300, 2, poll),
        PollStep::Finished(Err(AuthError::Expired))
    ));
}

#[test]
fn handshake_unknown_refusal_is_malformed() {
    let poll = classify_token_response(refusal_raw("something_else"));
    assert!(matches!(poll, TokenPoll::Malformed));
    assert!(matches!(
        poll_step(0, 300, 2, poll),
        PollStep::Finished(Err(AuthError::MalformedResponse))
    ));
}

#[test]
fn handshake_timeout_yields_no_credentials() {
    let poll = classify_token_response(refusal_raw("authorization_pending"));
    let step = poll_step(300, 300, 2, poll);
    match step {
        PollStep::Finished(Err(AuthError::Timeout)) => {}
        other => panic!("expected a timeout, got {:?}", other),
    }
}

#[test]
fn device_code_requires_every_field() {
    let full = RawDeviceAuth {
        device_code: Some("dev-1".to_string()),
        user_code: Some("ABCDE".to_string()),
        expires_in: Some(300),
        interval: Some(2),
    };
    let d = device_code_from_raw(full).expect("complete response must validate");
    assert_eq!(d.device_code, "dev-1");
    assert_eq!(d.user_code, "ABCDE");
    assert_eq!(d.expires_in, 300);
    assert_eq!(d.interval, 2);

    let missing = RawDeviceAuth {
        device_code: Some("dev-1".to_string()),
        user_code: None,
        expires_in: Some(300),
        interval: Some(2),
    };
    assert!(matches!(
        device_code_from_raw(missing),
        Err(AuthError::MalformedResponse)
    ));
}

#[test]
fn fresh_client_has_empty_token() {
    let c = TidalClient::new(None);
    assert!(!c.have_userinfo);
    assert!(c.user_info.access_token.is_empty());
}

#[test]
fn restored_client_keeps_credentials() {
    let u = UserInfo {
        access_token: "tok".to_string(),
        expires_in: "300".to_string(),
        country_code: "DE".to_string(),
        user_id: "7".to_string(),
        refresh_token: "ref".to_string(),
    };
    let c = TidalClient::new(Some((u, Config::new())));
    assert!(c.have_userinfo);
    assert_eq!(c.user_info.access_token, "tok");
    assert_eq!(c.config.download_path, "./");
}

#[test]
fn store_credentials_adopts_the_grant() {
    let mut c = TidalClient::new(None);
    let poll = classify_token_response(granted_raw());
    match poll {
        TokenPoll::Granted(u) => c.store_credentials(u),
        other => panic!("expected a grant, got {:?}", other),
    }
    assert!(c.have_userinfo);
    assert_eq!(c.user_info.country_code, "US");
}

#[test]
fn bearer_header_prefixes_the_token() {
    assert_eq!(bearer_header_value("tok-123"), "Bearer tok-123");
}

#[test]
fn device_auth_payload_is_form_encoded() {
    let body = device_auth_payload("zU4XHVVkc2tDPo4t").expect("pairs must encode");
    assert_eq!(body, "client_id=zU4XHVVkc2tDPo4t&scope=r_usr%2Bw_usr%2Bw_sub");
}

#[test]
fn token_request_payload_is_form_encoded() {
    let body = token_request_payload("id1", "dev-9").expect("pairs must encode");
    assert_eq!(
        body,
        "client_id=id1&device_code=dev-9&grant_type=urn%3Aietf%3Aparams%3Aoauth%3Agrant-type%3Adevice_code&scope=r_usr%2Bw_usr%2Bw_sub"
    );
}

#[test]
fn device_auth_fields_are_collected_from_text() {
    let payload =
        "{\"deviceCode\":\"dev-1\",\"userCode\":\"ABCDE\",\"expiresIn\":300,\"interval\":2,\"verificationUri\":\"link.tidal.com\"}";
    let d = device_code_from_raw(tdl_core::auth::collect_device_auth(payload))
        .expect("complete response must validate");
    assert_eq!(d.device_code, "dev-1");
    assert_eq!(d.user_code, "ABCDE");
    assert_eq!(d.expires_in, 300);
    assert_eq!(d.interval, 2);
    assert!(matches!(
        device_code_from_raw(tdl_core::auth::collect_device_auth("{\"deviceCode\":\"dev-1\"}")),
        Err(AuthError::MalformedResponse)
    ));
}

#[test]
fn token_response_fields_are_collected_from_text() {
    let payload = "{\"access_token\":\"tok-9\",\"expires_in\":604800,\"refresh_token\":\"ref-9\",\"user\":{\"countryCode\":\"DE\",\"userId\":77}}";
    let poll = classify_token_response(tdl_core::auth::collect_token_response(payload));
    match poll {
        TokenPoll::Granted(u) => {
            assert_eq!(u.access_token, "tok-9");
            assert_eq!(u.expires_in, "604800");
            assert_eq!(u.country_code, "DE");
            assert_eq!(u.user_id, "77");
            assert_eq!(u.refresh_token, "ref-9");
        }
        other => panic!("expected a grant, got {:?}", other),
    }

    let pending = "{\"status\":400,\"error\":\"authorization_pending\"}";
    let poll = classify_token_response(tdl_core::auth::collect_token_response(pending));
    assert!(matches!(poll, TokenPoll::Pending));
}

#[test]
fn default_device_code_is_blank() {
    let d = DeviceCode::default();
    assert!(d.device_code.is_empty());
    assert_eq!(d.interval, 0);
}
