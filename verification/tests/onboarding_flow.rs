use edge_sync::onboarding::{
    make_edge_state, poll_token_decision, PollDecision, TokenResult, TokenStatus, WifiConfig,
};

#[test]
fn test_full_grant_completes() {
    let result = TokenResult::Full {
        access_token: "access".to_string(),
        refresh_token: "refresh".to_string(),
        expires_in: 86400,
    };
    match poll_token_decision(&result) {
        PollDecision::Complete { access_token, refresh_token, expires_in } => {
            assert_eq!(access_token, "access");
            assert_eq!(refresh_token, "refresh");
            assert_eq!(expires_in, 86400);
        },
        _ => panic!("Expected Complete"),
    }
}

#[test]
fn test_access_token_alone_is_skipped() {
    let result = TokenResult::AccessToken {
        access_token: "access".to_string(),
        expires_in: 86400,
    };
    assert!(matches!(poll_token_decision(&result), PollDecision::Retry));
}

#[test]
fn test_pending_and_slow_down_retry() {
    for status in [TokenStatus::AuthorizationPending, TokenStatus::SlowDown] {
        let result = TokenResult::Error { error: status };
        assert!(matches!(poll_token_decision(&result), PollDecision::Retry));
    }
}

#[test]
fn test_terminal_statuses_abort() {
    for status in
        [TokenStatus::ExpiredToken, TokenStatus::AccessDenied, TokenStatus::InvalidGrant]
    {
        let result = TokenResult::Error { error: status };
        assert!(matches!(poll_token_decision(&result), PollDecision::Abort));
    }
}

#[test]
fn test_make_edge_state_sets_expiry() {
    let wifi = WifiConfig { ssid: "net".to_string(), password: "pw".to_string() };
    let state =
        make_edge_state(&wifi, "a".to_string(), "r".to_string(), 1_700_000_000, 3600).unwrap();
    assert_eq!(state.wifi_ssid, "net");
    assert_eq!(state.wifi_password, "pw");
    assert_eq!(state.auth0_access_token, "a");
    assert_eq!(state.auth0_refresh_token, "r");
    assert_eq!(state.auth0_expires_at, 1_700_003_600);
}

#[test]
fn test_make_edge_state_overflow_is_none() {
    let wifi = WifiConfig { ssid: "net".to_string(), password: "pw".to_string() };
    assert!(make_edge_state(&wifi, "a".to_string(), "r".to_string(), i64::MAX, 1).is_none());
}
