//! The device-code authorization handshake.
//!
//! The handshake is a polling state machine: a device code is requested
//! once, the user authorizes it out-of-band, and the token endpoint is
//! polled at the handshake-provided cadence until it grants credentials,
//! reports a terminal failure, or the timeout elapses.  The functions here
//! take the already-extracted fields of each wire response and decide the
//! next step; the surrounding application performs the requests and the
//! waiting.

use vstd::prelude::*;
use vstd::string::StringExecFns;

use crate::config::AudioQuality;
use crate::config::Config;
use crate::config::CoverSize;
use crate::json::json_string_field;
use crate::json::json_string_field2;
use crate::json::json_u64_field;
use crate::json::json_u64_field2;
use crate::json::string_field_of;
use crate::json::string_field2_of;
use crate::json::u64_field_of;
use crate::json::u64_field2_of;
use crate::strutil::dec_digits;
use crate::strutil::opt_str_view;
use crate::strutil::str_eq;
use crate::strutil::u64_to_string;

verus! {

/// Failures of the handshake, per the error taxonomy of the pipeline.
#[derive(Debug, Clone, PartialEq, Eq, Structural)]
pub enum AuthError {
    EndpointUnreachable,
    MalformedResponse,
    Denied,
    Expired,
    Timeout,
}

/// The credentials a successful handshake produces.  Every field is
/// populated exactly when the handshake reached its authorized state.
#[derive(Debug, Clone)]
pub struct UserInfo {
    pub access_token: String,
    pub expires_in: String,
    pub country_code: String,
    pub user_id: String,
    pub refresh_token: String,
}

/// What the device-authorization endpoint hands back: the code the device
/// polls with, the code the user types, and the polling cadence.
#[derive(Debug, Clone)]
pub struct DeviceCode {
    pub device_code: String,
    pub expires_in: usize,
    pub interval: usize,
    pub user_code: String,
}

/// The client of the catalog service: device code, credentials and
/// preferences.  `have_userinfo` says whether credentials were restored
/// or granted; until then the access token stays empty.
#[derive(Debug, Clone)]
pub struct TidalClient {
    pub device_code: DeviceCode,
    pub user_info: UserInfo,
    pub config: Config,
    pub have_userinfo: bool,
}

impl Default for UserInfo {
    /// Empty credentials: the state before the handshake finishes.
    fn default() -> (r: UserInfo)
        ensures
            r.access_token@ =~= Seq::<char>::empty(),
            r.expires_in@ =~= Seq::<char>::empty(),
            r.country_code@ =~= Seq::<char>::empty(),
            r.user_id@ =~= Seq::<char>::empty(),
            r.refresh_token@ =~= Seq::<char>::empty(),
    {
        UserInfo {
            access_token: String::new(),
            expires_in: String::new(),
            country_code: String::new(),
            user_id: String::new(),
            refresh_token: String::new(),
        }
    }
}

impl Default for DeviceCode {
    /// An empty device code: the state before the handshake begins.
    fn default() -> (r: DeviceCode)
        ensures
            r.device_code@ =~= Seq::<char>::empty(),
            r.expires_in == 0,
            r.interval == 0,
            r.user_code@ =~= Seq::<char>::empty(),
    {
        DeviceCode {
            device_code: String::new(),
            expires_in: 0,
            interval: 0,
            user_code: String::new(),
        }
    }
}

/// All five credential fields are populated.
pub open spec fn credentials_complete(u: UserInfo) -> bool {
    u.access_token@.len() > 0 && u.expires_in@.len() > 0 && u.country_code@.len() > 0
        && u.user_id@.len() > 0 && u.refresh_token@.len() > 0
}

impl TidalClient {
    /// A client from restored credentials and preferences, or a fresh one
    /// with every credential field empty and the default preferences,
    /// whose access token stays empty until the handshake authorizes it.
    pub fn new(user_info: Option<(UserInfo, Config)>) -> (r: TidalClient)
        ensures
            match user_info {
                Some(uc) => {
                    &&& r.user_info == uc.0
                    &&& r.config == uc.1
                    &&& r.have_userinfo == true
                },
                None => {
                    &&& r.user_info.access_token@ =~= Seq::<char>::empty()
                    &&& r.user_info.expires_in@ =~= Seq::<char>::empty()
                    &&& r.user_info.country_code@ =~= Seq::<char>::empty()
                    &&& r.user_info.user_id@ =~= Seq::<char>::empty()
                    &&& r.user_info.refresh_token@ =~= Seq::<char>::empty()
                    &&& r.have_userinfo == false
                    &&& r.config.download_path@ == "./"@
                    &&& r.config.audio_quality == AudioQuality::High
                    &&& r.config.save_cover == true
                    &&& r.config.cover_size == CoverSize::Big
                    &&& r.config.exist_check == true
                },
            },
            r.device_code.device_code@ =~= Seq::<char>::empty(),
            r.device_code.user_code@ =~= Seq::<char>::empty(),
            r.device_code.expires_in == 0,
            r.device_code.interval == 0,
    {
        match user_info {
            Some(user_info) => TidalClient {
                device_code: DeviceCode::default(),
                user_info: user_info.0,
                have_userinfo: true,
                config: user_info.1,
            },
            None => TidalClient {
                device_code: DeviceCode::default(),
                user_info: UserInfo::default(),
                have_userinfo: false,
                config: Config::new(),
            },
        }
    }

    /// Adopts the credentials a finished handshake granted.  This is the
    /// only writer of the credential fields after construction.
    pub fn store_credentials(&mut self, creds: UserInfo)
        requires
            credentials_complete(creds),
        ensures
            final(self).user_info == creds,
            final(self).have_userinfo == true,
            final(self).config == old(self).config,
            final(self).device_code == old(self).device_code,
    {
        self.user_info = creds;
        self.have_userinfo = true;
    }
}

/// The raw fields of a device-authorization response, each present or not.
#[derive(Debug, Clone)]
pub struct RawDeviceAuth {
    pub device_code: Option<String>,
    pub user_code: Option<String>,
    pub expires_in: Option<u64>,
    pub interval: Option<u64>,
}

/// Whether a device-authorization response holds every required field,
/// with the durations small enough to hold.
pub open spec fn device_auth_complete(raw: RawDeviceAuth) -> bool {
    &&& raw.device_code is Some
    &&& raw.user_code is Some
    &&& raw.expires_in matches Some(e) && e <= usize::MAX
    &&& raw.interval matches Some(i) && i <= usize::MAX
}

/// Validates a device-authorization response.  Succeeds exactly when every
/// required field is present; the handshake then enters its waiting state.
pub fn device_code_from_raw(raw: RawDeviceAuth) -> (r: Result<DeviceCode, AuthError>)
    ensures
        r is Ok <==> device_auth_complete(raw),
        r matches Ok(d) ==> {
            &&& d.device_code == raw.device_code->0
            &&& d.user_code == raw.user_code->0
            &&& d.expires_in == raw.expires_in->0
            &&& d.interval == raw.interval->0
        },
        r matches Err(e) ==> e == AuthError::MalformedResponse,
{
    let device_code = match raw.device_code {
        Some(d) => d,
        None => {
            return Err(AuthError::MalformedResponse);
        },
    };
    let user_code = match raw.user_code {
        Some(u) => u,
        None => {
            return Err(AuthError::MalformedResponse);
        },
    };
    let expires_in: usize = match raw.expires_in {
        Some(e) if e <= usize::MAX as u64 => e as usize,
        _ => {
            return Err(AuthError::MalformedResponse);
        },
    };
    let interval: usize = match raw.interval {
        Some(i) if i <= usize::MAX as u64 => i as usize,
        _ => {
            return Err(AuthError::MalformedResponse);
        },
    };
    Ok(DeviceCode { device_code, expires_in, interval, user_code })
}

/// The raw fields of one token-endpoint response, each present or not.
/// A grant carries the credential fields; anything else carries an error
/// kind.
#[derive(Debug, Clone)]
pub struct RawTokenResponse {
    pub error_kind: Option<String>,
    pub access_token: Option<String>,
    pub expires_in: Option<u64>,
    pub country_code: Option<String>,
    pub user_id: Option<u64>,
    pub refresh_token: Option<String>,
}

/// Reads the fields of one device-authorization response out of its
/// document text, each under its wire name.
pub fn collect_device_auth(payload: &str) -> (r: RawDeviceAuth)
    ensures
        opt_str_view(r.device_code) == string_field_of(payload@, "deviceCode"@),
        opt_str_view(r.user_code) == string_field_of(payload@, "userCode"@),
        r.expires_in == u64_field_of(payload@, "expiresIn"@),
        r.interval == u64_field_of(payload@, "interval"@),
{
    RawDeviceAuth {
        device_code: json_string_field(payload, "deviceCode"),
        user_code: json_string_field(payload, "userCode"),
        expires_in: json_u64_field(payload, "expiresIn"),
        interval: json_u64_field(payload, "interval"),
    }
}

/// Reads the fields of one token-endpoint response out of its document
/// text: the credential fields and the error kind, each under its wire
/// name (the user's country and id sit one object deep).
pub fn collect_token_response(payload: &str) -> (r: RawTokenResponse)
    ensures
        opt_str_view(r.error_kind) == string_field_of(payload@, "error"@),
        opt_str_view(r.access_token) == string_field_of(payload@, "access_token"@),
        r.expires_in == u64_field_of(payload@, "expires_in"@),
        opt_str_view(r.country_code) == string_field2_of(payload@, "user"@, "countryCode"@),
        r.user_id == u64_field2_of(payload@, "user"@, "userId"@),
        opt_str_view(r.refresh_token) == string_field_of(payload@, "refresh_token"@),
{
    RawTokenResponse {
        error_kind: json_string_field(payload, "error"),
        access_token: json_string_field(payload, "access_token"),
        expires_in: json_u64_field(payload, "expires_in"),
        country_code: json_string_field2(payload, "user", "countryCode"),
        user_id: json_u64_field2(payload, "user", "userId"),
        refresh_token: json_string_field(payload, "refresh_token"),
    }
}

/// Whether a token response grants credentials: all five fields present,
/// the textual ones non-empty.
pub open spec fn token_grants(raw: RawTokenResponse) -> bool {
    &&& raw.access_token matches Some(t) && t@.len() > 0
    &&& raw.expires_in is Some
    &&& raw.country_code matches Some(c) && c@.len() > 0
    &&& raw.user_id is Some
    &&& raw.refresh_token matches Some(t) && t@.len() > 0
}

/// What one poll of the token endpoint means for the handshake.
#[derive(Debug, Clone)]
pub enum TokenPoll {
    /// The user authorized the device: credentials were granted.
    Granted(UserInfo),
    /// The user has not acted yet; poll again after the cadence.
    Pending,
    /// The endpoint asks for a slower cadence; poll again.
    RateLimited,
    /// The user denied the request; terminal.
    Denied,
    /// The device code expired before the user acted; terminal.
    Expired,
    /// The response fits no known shape; terminal.
    Malformed,
}

/// The non-grant classification of a token response, by its error kind.
pub open spec fn spec_classify_refusal(raw: RawTokenResponse) -> TokenPoll {
    if raw.error_kind matches Some(e) && e@ == "authorization_pending"@ {
        TokenPoll::Pending
    } else if raw.error_kind matches Some(e) && e@ == "slow_down"@ {
        TokenPoll::RateLimited
    } else if raw.error_kind matches Some(e) && e@ == "access_denied"@ {
        TokenPoll::Denied
    } else if raw.error_kind matches Some(e) && e@ == "expired_token"@ {
        TokenPoll::Expired
    } else {
        TokenPoll::Malformed
    }
}

/// Classifies one token-endpoint response: a grant exactly when every
/// credential field is populated, otherwise by the reported error kind.
/// The numeric durations are rendered in decimal, so a granted credential
/// record is always fully populated.
pub fn classify_token_response(raw: RawTokenResponse) -> (r: TokenPoll)
    ensures
        r is Granted <==> token_grants(raw),
        r matches TokenPoll::Granted(u) ==> {
            &&& u.access_token == raw.access_token->0
            &&& u.expires_in@ == dec_digits(raw.expires_in->0 as int)
            &&& u.country_code == raw.country_code->0
            &&& u.user_id@ == dec_digits(raw.user_id->0 as int)
            &&& u.refresh_token == raw.refresh_token->0
            &&& credentials_complete(u)
        },
        !token_grants(raw) ==> r == spec_classify_refusal(raw),
{
    if let (Some(access_token), Some(expires_in), Some(country_code), Some(user_id), Some(
        refresh_token,
    )) = (
        raw.access_token,
        raw.expires_in,
        raw.country_code,
        raw.user_id,
        raw.refresh_token,
    ) {
        if access_token.as_str().is_empty() || country_code.as_str().is_empty()
            || refresh_token.as_str().is_empty() {
            // fall through to the refusal classification below
        } else {
            return TokenPoll::Granted(
                UserInfo {
                    access_token,
                    expires_in: u64_to_string(expires_in),
                    country_code,
                    user_id: u64_to_string(user_id),
                    refresh_token,
                },
            );
        }
    }
    let kind: Option<&String> = match &raw.error_kind {
        Some(e) => Some(e),
        None => None,
    };
    match kind {
        Some(e) => {
            if str_eq(e.as_str(), "authorization_pending") {
                TokenPoll::Pending
            } else if str_eq(e.as_str(), "slow_down") {
                TokenPoll::RateLimited
            } else if str_eq(e.as_str(), "access_denied") {
                TokenPoll::Denied
            } else if str_eq(e.as_str(), "expired_token") {
                TokenPoll::Expired
            } else {
                TokenPoll::Malformed
            }
        },
        None => TokenPoll::Malformed,
    }
}

/// What the polling loop does next: wait and poll again, or stop with the
/// handshake's outcome.
#[derive(Debug)]
pub enum PollStep {
    /// Sleep `wait` seconds, then poll the token endpoint once more.
    Retry { wait: u64 },
    /// The handshake is over, successfully or not.
    Finished(Result<UserInfo, AuthError>),
}

/// One transition of the polling state machine.  A grant or a terminal
/// refusal stops the loop at once; a pending or rate-limited response
/// retries at the given cadence until `elapsed` reaches `timeout`, which
/// stops the loop with `Timeout` and no credentials at all.
pub fn poll_step(elapsed: u64, timeout: u64, interval: u64, poll: TokenPoll) -> (r: PollStep)
    ensures
        poll matches TokenPoll::Granted(u) ==> r == PollStep::Finished(Ok::<
            UserInfo,
            AuthError,
        >(u)),
        poll is Denied ==> r == PollStep::Finished(Err::<UserInfo, AuthError>(AuthError::Denied)),
        poll is Expired ==> r == PollStep::Finished(
            Err::<UserInfo, AuthError>(AuthError::Expired),
        ),
        poll is Malformed ==> r == PollStep::Finished(
            Err::<UserInfo, AuthError>(AuthError::MalformedResponse),
        ),
        (poll is Pending || poll is RateLimited) && elapsed >= timeout ==> r
            == PollStep::Finished(Err::<UserInfo, AuthError>(AuthError::Timeout)),
        (poll is Pending || poll is RateLimited) && elapsed < timeout ==> r == (PollStep::Retry {
            wait: interval,
        }),
{
    match poll {
        TokenPoll::Granted(u) => PollStep::Finished(Ok(u)),
        TokenPoll::Denied => PollStep::Finished(Err(AuthError::Denied)),
        TokenPoll::Expired => PollStep::Finished(Err(AuthError::Expired)),
        TokenPoll::Malformed => PollStep::Finished(Err(AuthError::MalformedResponse)),
        TokenPoll::Pending | TokenPoll::RateLimited => {
            if elapsed >= timeout {
                PollStep::Finished(Err(AuthError::Timeout))
            } else {
                PollStep::Retry { wait: interval }
            }
        },
    }
}

/// Law: a handshake can only finish successfully with fully-populated
/// credentials, and a handshake that times out finishes with the timeout
/// error and no credentials.  Both hold for every response the token
/// endpoint may give.
pub proof fn lemma_handshake_outcome(
    elapsed: u64,
    timeout: u64,
    interval: u64,
    poll: TokenPoll,
    r: PollStep,
)
    requires
        poll matches TokenPoll::Granted(u) ==> credentials_complete(u),
        poll matches TokenPoll::Granted(u) ==> r == PollStep::Finished(
            Ok::<UserInfo, AuthError>(u),
        ),
        (r matches PollStep::Finished(out) && out is Ok) ==> poll is Granted,
        (poll is Pending || poll is RateLimited) && elapsed >= timeout ==> r
            == PollStep::Finished(Err::<UserInfo, AuthError>(AuthError::Timeout)),
    ensures
        r matches PollStep::Finished(out) ==> (out matches Ok(u) ==> credentials_complete(u)),
        (poll is Pending || poll is RateLimited) && elapsed >= timeout ==> (r matches
            PollStep::Finished(out) && out == Err::<UserInfo, AuthError>(AuthError::Timeout)),
{
    match r {
        PollStep::Finished(Ok(u)) => {
            assert(poll is Granted);
            match poll {
                TokenPoll::Granted(u2) => {
                    assert(r == PollStep::Finished(Ok::<UserInfo, AuthError>(u2)));
                    assert(u == u2);
                },
                _ => {},
            }
        },
        _ => {},
    }
}

/// The value of the authorization header for a bearer token.
pub fn bearer_header_value(token: &str) -> (r: String)
    ensures
        r@ == "Bearer "@ + token@,
{
    String::from_str("Bearer ").concat(token)
}

/// The views of key/value pairs, for the form-encoding contract.
pub open spec fn pair_views(ps: Seq<(String, String)>) -> Seq<(Seq<char>, Seq<char>)> {
    ps.map_values(|p: (String, String)| (p.0@, p.1@))
}

/// What `serde_urlencoded` produces for a given list of key/value pairs.
/// The encoding depends on the pairs alone.
pub uninterp spec fn form_encoded(pairs: Seq<(Seq<char>, Seq<char>)>) -> Option<Seq<char>>;

/// Relies on `serde_urlencoded::to_string`: form-encodes key/value pairs
/// as `k1=v1&k2=v2`, percent-escaping as needed.
#[verifier::external_body]
fn urlencode_pairs(pairs: &Vec<(String, String)>) -> (r: Option<String>)
    ensures
        r is Some <==> form_encoded(pair_views(pairs@)) is Some,
        r matches Some(s) ==> form_encoded(pair_views(pairs@)) == Some(s@),
{
    serde_urlencoded::to_string(pairs).ok()
}

/// The pairs of the device-authorization request.
pub open spec fn device_auth_pairs(client_id: Seq<char>) -> Seq<(Seq<char>, Seq<char>)> {
    seq![("client_id"@, client_id), ("scope"@, "r_usr+w_usr+w_sub"@)]
}

/// The form-encoded body of the device-authorization request.
pub fn device_auth_payload(client_id: &str) -> (r: Option<String>)
    ensures
        r is Some <==> form_encoded(device_auth_pairs(client_id@)) is Some,
        r matches Some(s) ==> form_encoded(device_auth_pairs(client_id@)) == Some(s@),
{
    let mut pairs: Vec<(String, String)> = Vec::new();
    pairs.push((String::from_str("client_id"), String::from_str(client_id)));
    pairs.push((String::from_str("scope"), String::from_str("r_usr+w_usr+w_sub")));
    proof {
        assert(pair_views(pairs@) =~= device_auth_pairs(client_id@));
    }
    urlencode_pairs(&pairs)
}

/// The pairs of the token-exchange request for a device code.
pub open spec fn token_request_pairs(client_id: Seq<char>, device_code: Seq<char>) -> Seq<
    (Seq<char>, Seq<char>),
> {
    seq![
        ("client_id"@, client_id),
        ("device_code"@, device_code),
        ("grant_type"@, "urn:ietf:params:oauth:grant-type:device_code"@),
        ("scope"@, "r_usr+w_usr+w_sub"@),
    ]
}

/// The form-encoded body of the token-exchange request.
pub fn token_request_payload(client_id: &str, device_code: &str) -> (r: Option<String>)
    ensures
        r is Some <==> form_encoded(token_request_pairs(client_id@, device_code@)) is Some,
        r matches Some(s) ==> form_encoded(token_request_pairs(client_id@, device_code@)) == Some(
            s@,
        ),
{
    let mut pairs: Vec<(String, String)> = Vec::new();
    pairs.push((String::from_str("client_id"), String::from_str(client_id)));
    pairs.push((String::from_str("device_code"), String::from_str(device_code)));
    pairs.push(
        (
            String::from_str("grant_type"),
            String::from_str("urn:ietf:params:oauth:grant-type:device_code"),
        ),
    );
    pairs.push((String::from_str("scope"), String::from_str("r_usr+w_usr+w_sub")));
    proof {
        assert(pair_views(pairs@) =~= token_request_pairs(client_id@, device_code@));
    }
    urlencode_pairs(&pairs)
}

} // verus!
