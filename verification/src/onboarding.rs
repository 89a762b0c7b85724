use vstd::prelude::*;

verus! {

/// How the hub acquires its first credentials.
#[derive(Clone, Copy, PartialEq, Eq, Structural, Debug)]
pub enum OnboardingStrategy {
    Ble,
    Local,
}

/// Where the hub's measurement stream comes from.
#[derive(Clone, Copy, PartialEq, Eq, Structural, Debug)]
pub enum PeripheralSyncMode {
    Ble,
    Random,
}

/// Settings of the hub's token endpoint.
#[derive(Clone, Debug)]
pub struct Auth0Config {
    pub domain: String,
    pub client_id: String,
    pub client_secret: String,
    pub scope: String,
    pub audience: String,
}

/// Credentials of the network the hub hands to nodes.
#[derive(Clone, Debug)]
pub struct WifiConfig {
    pub ssid: String,
    pub password: String,
}

/// The hub's whole configuration, as its shell loads it.
#[derive(Debug)]
pub struct AppConfig {
    pub database_url: String,
    pub onboarding_strategy: OnboardingStrategy,
    pub peripheral_sync_mode: PeripheralSyncMode,
    pub auth0: Auth0Config,
    pub wifi: WifiConfig,
}

/// What the device-code endpoint answers when onboarding starts.
#[derive(Debug)]
pub struct DeviceCodeResponse {
    pub device_code: String,
    pub user_code: String,
    pub verification_uri: String,
    pub verification_uri_complete: String,
    pub expires_in: u32,
    pub interval: u64,
}

/// Status words the token endpoint answers while a grant is pending
/// or refused.
#[derive(Clone, Copy, PartialEq, Eq, Structural, Debug)]
pub enum TokenStatus {
    AuthorizationPending,
    SlowDown,
    ExpiredToken,
    AccessDenied,
    InvalidGrant,
}

/// One answer of the token endpoint: a full grant, an access token
/// alone, or a status.
#[derive(Debug)]
pub enum TokenResult {
    Full { access_token: String, refresh_token: String, expires_in: u64 },
    AccessToken { access_token: String, expires_in: u64 },
    Error { error: TokenStatus },
}

/// What the onboarding loop does next after one poll of the token
/// endpoint.
#[derive(Debug)]
pub enum PollDecision {
    /// A full grant arrived: onboarding is done with these tokens.
    Complete { access_token: String, refresh_token: String, expires_in: u64 },
    /// Poll again after the fixed pause.
    Retry,
    /// The grant is gone for good: onboarding fails.
    Abort,
}

/// The state the hub persists once onboarded: network credentials and
/// the tokens, with the expiry instant in Unix seconds.
#[derive(Debug)]
pub struct EdgeState {
    pub wifi_ssid: String,
    pub wifi_password: String,
    pub auth0_access_token: String,
    pub auth0_refresh_token: String,
    pub auth0_expires_at: i64,
}

/// Decides the onboarding loop's next step from one token answer: a
/// full grant completes, an access token without a refresh token is
/// skipped, a pending or slow-down status retries, and an expired,
/// denied or invalid grant aborts.
pub fn poll_token_decision(result: &TokenResult) -> (r: PollDecision)
    ensures
        match result {
            TokenResult::Full { access_token, refresh_token, expires_in } => r matches
                PollDecision::Complete { access_token: a, refresh_token: t, expires_in: e } && a@
                == access_token@ && t@ == refresh_token@ && e == expires_in,
            TokenResult::AccessToken { .. } => r is Retry,
            TokenResult::Error { error } => match error {
                TokenStatus::AuthorizationPending | TokenStatus::SlowDown => r is Retry,
                TokenStatus::ExpiredToken | TokenStatus::AccessDenied
                    | TokenStatus::InvalidGrant => r is Abort,
            },
        },
{
    match result {
        TokenResult::Full { access_token, refresh_token, expires_in } => PollDecision::Complete {
            access_token: access_token.clone(),
            refresh_token: refresh_token.clone(),
            expires_in: *expires_in,
        },
        TokenResult::AccessToken { .. } => PollDecision::Retry,
        TokenResult::Error { error } => match error {
            TokenStatus::AuthorizationPending | TokenStatus::SlowDown => PollDecision::Retry,
            TokenStatus::ExpiredToken | TokenStatus::AccessDenied | TokenStatus::InvalidGrant => {
                PollDecision::Abort
            },
        },
    }
}

/// Builds the persisted hub state from the network credentials, a
/// completed grant and the clock: the tokens expire `expires_in`
/// seconds from now.  `None` when that instant overflows the clock.
pub fn make_edge_state(
    wifi: &WifiConfig,
    access_token: String,
    refresh_token: String,
    now_secs: i64,
    expires_in: u64,
) -> (r: Option<EdgeState>)
    ensures
        r is Some <==> now_secs + expires_in <= i64::MAX,
        r matches Some(s) ==> s.wifi_ssid@ == wifi.ssid@ && s.wifi_password@ == wifi.password@
            && s.auth0_access_token@ == access_token@ && s.auth0_refresh_token@ == refresh_token@
            && s.auth0_expires_at == now_secs + expires_in,
{
    match now_secs.checked_add_unsigned(expires_in) {
        None => None,
        Some(expires_at) => Some(
            EdgeState {
                wifi_ssid: wifi.ssid.clone(),
                wifi_password: wifi.password.clone(),
                auth0_access_token: access_token,
                auth0_refresh_token: refresh_token,
                auth0_expires_at: expires_at,
            },
        ),
    }
}

} // verus!
