//! The license protocol: client configuration, per-operation options, the
//! request payloads built from them, and the interpretation of the server's
//! responses into typed results and errors.

use crate::device::{hex_digit, platform_name, DeviceInfo, Platform};
use crate::errors::{ActivationError, DeactivationError, LycentoError, ValidationError};
use vstd::prelude::*;

verus! {

/// Timeout used when the configuration names none, in milliseconds.
pub const DEFAULT_TIMEOUT_MS: u64 = 10000;

/// Configuration for the client.
#[derive(Debug, Clone)]
pub struct LycentoConfig {
    /// Base URL of the API.
    pub base_url: String,
    /// Optional API key for authentication.
    pub api_key: Option<String>,
    /// Request timeout in milliseconds.
    pub timeout: Option<u64>,
}

impl LycentoConfig {
    /// Create a new configuration.
    pub fn new(base_url: &str) -> (r: Self)
        ensures
            r.base_url@ == base_url@,
            r.api_key is None,
            r.timeout is None,
    {
        LycentoConfig { base_url: String::from_str(base_url), api_key: None, timeout: None }
    }

    /// Set the API key.
    pub fn with_api_key(self, api_key: &str) -> (r: Self)
        ensures
            r.base_url == self.base_url,
            r.api_key is Some && r.api_key->Some_0@ == api_key@,
            r.timeout == self.timeout,
    {
        LycentoConfig { api_key: Some(String::from_str(api_key)), ..self }
    }

    /// Set the timeout in milliseconds.
    pub fn with_timeout(self, timeout: u64) -> (r: Self)
        ensures
            r.base_url == self.base_url,
            r.api_key == self.api_key,
            r.timeout == Some(timeout),
    {
        LycentoConfig { timeout: Some(timeout), ..self }
    }
}

/// `s` without its trailing slashes.
pub open spec fn trim_trailing_slashes(s: Seq<char>) -> Seq<char>
    decreases s.len(),
{
    if s.len() > 0 && s.last() == '/' {
        trim_trailing_slashes(s.drop_last())
    } else {
        s
    }
}

/// Relies on `str::trim_end_matches` with the pattern `'/'`: the string
/// with every trailing slash removed.
#[verifier::external_body]
fn trim_slashes(s: &str) -> (r: String)
    ensures
        r@ == trim_trailing_slashes(s@),
{
    s.trim_end_matches('/').to_string()
}

/// What a client is built from: the configuration with its defaults applied.
#[derive(Debug, Clone)]
pub struct ClientSettings {
    /// Base URL without trailing slashes.
    pub base_url: String,
    /// Credential sent as a bearer token, if any.
    pub api_key: Option<String>,
    /// Request timeout in milliseconds.
    pub timeout_ms: u64,
}

impl ClientSettings {
    /// Apply the defaults to a configuration: the base URL loses its trailing
    /// slashes and a missing timeout becomes ten seconds.
    pub fn from_config(config: LycentoConfig) -> (r: Self)
        ensures
            r.base_url@ == trim_trailing_slashes(config.base_url@),
            r.api_key == config.api_key,
            r.timeout_ms == match config.timeout {
                Some(t) => t,
                None => DEFAULT_TIMEOUT_MS,
            },
    {
        let timeout_ms = match config.timeout {
            Some(t) => t,
            None => DEFAULT_TIMEOUT_MS,
        };
        ClientSettings {
            base_url: trim_slashes(config.base_url.as_str()),
            api_key: config.api_key,
            timeout_ms,
        }
    }

    /// The full URL of an endpoint path.
    pub fn endpoint_url(&self, path: &str) -> (r: String)
        ensures
            r@ == self.base_url@ + path@,
    {
        let mut url = self.base_url.clone();
        url.append(path);
        url
    }

    /// The `Authorization` header value: `Bearer <key>` when an API key is
    /// configured, none otherwise.
    pub fn authorization_header(&self) -> (r: Option<String>)
        ensures
            self.api_key is None ==> r is None,
            self.api_key is Some ==> r is Some && r->Some_0@ == "Bearer "@
                + self.api_key->Some_0@,
    {
        match &self.api_key {
            Some(key) => {
                let mut value = String::from_str("Bearer ");
                value.append(key.as_str());
                Some(value)
            },
            None => None,
        }
    }
}

/// Path of the activate operation.
pub const ACTIVATE_PATH: &'static str = "/api/v1/licenses/activate";

/// Path of the validate operation.
pub const VALIDATE_PATH: &'static str = "/api/v1/licenses/validate";

/// Path of the deactivate operation.
pub const DEACTIVATE_PATH: &'static str = "/api/v1/licenses/deactivate";

/// Path of the info operation; the license key goes in the query.
pub const INFO_PATH: &'static str = "/api/v1/licenses/info";

/// Options for license activation.
#[derive(Debug, Clone)]
pub struct ActivateOptions {
    /// The license key to activate.
    pub license_key: String,
    /// Optional custom device ID.
    pub device_id: Option<String>,
    /// Optional custom device name.
    pub device_name: Option<String>,
    /// Optional custom platform.
    pub device_platform: Option<String>,
    /// Optional IP address.
    pub ip_address: Option<String>,
}

impl ActivateOptions {
    /// Create new activation options.
    pub fn new(license_key: &str) -> (r: Self)
        ensures
            r.license_key@ == license_key@,
            r.device_id is None,
            r.device_name is None,
            r.device_platform is None,
            r.ip_address is None,
    {
        ActivateOptions {
            license_key: String::from_str(license_key),
            device_id: None,
            device_name: None,
            device_platform: None,
            ip_address: None,
        }
    }

    /// Set a custom device ID.
    pub fn with_device_id(self, device_id: &str) -> (r: Self)
        ensures
            r.device_id is Some && r.device_id->Some_0@ == device_id@,
            r.license_key == self.license_key,
            r.device_name == self.device_name,
            r.device_platform == self.device_platform,
            r.ip_address == self.ip_address,
    {
        ActivateOptions { device_id: Some(String::from_str(device_id)), ..self }
    }

    /// Set a custom device name.
    pub fn with_device_name(self, device_name: &str) -> (r: Self)
        ensures
            r.device_name is Some && r.device_name->Some_0@ == device_name@,
            r.license_key == self.license_key,
            r.device_id == self.device_id,
            r.device_platform == self.device_platform,
            r.ip_address == self.ip_address,
    {
        ActivateOptions { device_name: Some(String::from_str(device_name)), ..self }
    }

    /// Set a custom platform.
    pub fn with_platform(self, platform: Platform) -> (r: Self)
        ensures
            r.device_platform is Some && r.device_platform->Some_0@ == platform_name(platform),
            r.license_key == self.license_key,
            r.device_id == self.device_id,
            r.device_name == self.device_name,
            r.ip_address == self.ip_address,
    {
        ActivateOptions { device_platform: Some(String::from_str(platform.as_str())), ..self }
    }

    /// Set IP address.
    pub fn with_ip_address(self, ip_address: &str) -> (r: Self)
        ensures
            r.ip_address is Some && r.ip_address->Some_0@ == ip_address@,
            r.license_key == self.license_key,
            r.device_id == self.device_id,
            r.device_name == self.device_name,
            r.device_platform == self.device_platform,
    {
        ActivateOptions { ip_address: Some(String::from_str(ip_address)), ..self }
    }
}

/// Options for license validation.
#[derive(Debug, Clone)]
pub struct ValidateOptions {
    /// The license key to validate.
    pub license_key: String,
    /// Optional device ID to check.
    pub device_id: Option<String>,
}

impl ValidateOptions {
    /// Create new validation options.
    pub fn new(license_key: &str) -> (r: Self)
        ensures
            r.license_key@ == license_key@,
            r.device_id is None,
    {
        ValidateOptions { license_key: String::from_str(license_key), device_id: None }
    }

    /// Set device ID for validation.
    pub fn with_device_id(self, device_id: &str) -> (r: Self)
        ensures
            r.license_key == self.license_key,
            r.device_id is Some && r.device_id->Some_0@ == device_id@,
    {
        ValidateOptions { device_id: Some(String::from_str(device_id)), ..self }
    }
}

/// Options for license deactivation.
#[derive(Debug, Clone)]
pub struct DeactivateOptions {
    /// The license key to deactivate.
    pub license_key: String,
    /// The device ID to deactivate.
    pub device_id: String,
}

impl DeactivateOptions {
    /// Create new deactivation options.
    pub fn new(license_key: &str, device_id: &str) -> (r: Self)
        ensures
            r.license_key@ == license_key@,
            r.device_id@ == device_id@,
    {
        DeactivateOptions {
            license_key: String::from_str(license_key),
            device_id: String::from_str(device_id),
        }
    }
}

/// The value of an optional override, or the default.
pub open spec fn or_default(v: Option<String>, default: Seq<char>) -> Seq<char> {
    match v {
        Some(s) => s@,
        None => default,
    }
}

fn take_or(v: Option<String>, default: &str) -> (r: String)
    ensures
        r@ == or_default(v, default@),
{
    match v {
        Some(s) => s,
        None => String::from_str(default),
    }
}

/// The body of an activate request, every device field resolved.
#[derive(Debug, Clone)]
pub struct ActivatePayload {
    pub license_key: String,
    pub device_id: String,
    pub device_name: String,
    pub device_platform: String,
    pub ip_address: Option<String>,
}

/// Resolve the activation options against the device: each device field that
/// the options leave unset comes from `device`.
pub fn activate_payload(options: ActivateOptions, device: &DeviceInfo) -> (r: ActivatePayload)
    ensures
        r.license_key == options.license_key,
        r.device_id@ == or_default(options.device_id, device.device_id@),
        r.device_name@ == or_default(options.device_name, device.device_name@),
        r.device_platform@ == or_default(options.device_platform, platform_name(device.platform)),
        r.ip_address == options.ip_address,
{
    ActivatePayload {
        license_key: options.license_key,
        device_id: take_or(options.device_id, device.device_id.as_str()),
        device_name: take_or(options.device_name, device.device_name.as_str()),
        device_platform: take_or(options.device_platform, device.platform.as_str()),
        ip_address: options.ip_address,
    }
}

/// The body of a validate request.
#[derive(Debug, Clone)]
pub struct ValidatePayload {
    pub license_key: String,
    pub device_id: String,
}

/// Resolve the validation options: the device ID defaults to `device_id`.
pub fn validate_payload(options: ValidateOptions, device_id: &str) -> (r: ValidatePayload)
    ensures
        r.license_key == options.license_key,
        r.device_id@ == or_default(options.device_id, device_id@),
{
    ValidatePayload {
        license_key: options.license_key,
        device_id: take_or(options.device_id, device_id),
    }
}

/// License information structure.
#[derive(Debug, Clone)]
pub struct LicenseInfo {
    /// License key.
    pub key: String,
    /// License status (active, expired, revoked, etc.).
    pub status: String,
    /// License type (perpetual, subscription, etc.).
    pub license_type: String,
    /// Expiration date (none for perpetual).
    pub expires_at: Option<String>,
    /// Maximum allowed devices.
    pub max_devices: u32,
    /// Number of active devices (for info endpoint).
    pub active_devices: Option<u32>,
}

/// Activation details.
#[derive(Debug, Clone)]
pub struct ActivationDetails {
    /// Activation ID.
    pub id: u32,
    /// Device ID.
    pub device_id: String,
    /// Device name.
    pub device_name: String,
    /// Device platform.
    pub device_platform: String,
    /// When the license was activated.
    pub activated_at: String,
    /// Last validation time (for validation response).
    pub last_validated_at: Option<String>,
}

/// Deactivation details.
#[derive(Debug, Clone)]
pub struct DeactivationDetails {
    /// Activation ID.
    pub id: u32,
    /// Device ID.
    pub device_id: String,
    /// When the license was deactivated.
    pub deactivated_at: String,
}

/// An activation record.
#[derive(Debug, Clone)]
pub struct ActivationRecord {
    /// Activation ID.
    pub id: u32,
    /// Device ID.
    pub device_id: String,
    /// Device name.
    pub device_name: String,
    /// Device platform.
    pub device_platform: String,
    /// When activated.
    pub activated_at: String,
    /// When deactivated (none if still active).
    pub deactivated_at: Option<String>,
    /// Whether currently active.
    pub is_active: bool,
}

/// Response from license activation.
#[derive(Debug, Clone)]
pub struct ActivateResponse {
    /// Whether activation was successful.
    pub success: bool,
    /// License information.
    pub license: LicenseInfo,
    /// Activation details.
    pub activation: ActivationDetails,
}

/// Response from license validation.
#[derive(Debug, Clone)]
pub struct ValidateResponse {
    /// Whether the license is valid.
    pub valid: bool,
    /// License information.
    pub license: LicenseInfo,
    /// Activation details (if device-specific validation).
    pub activation: Option<ActivationDetails>,
}

/// Response from license deactivation.
#[derive(Debug, Clone)]
pub struct DeactivateResponse {
    /// Whether deactivation was successful.
    pub success: bool,
    /// Response message.
    pub message: String,
    /// Deactivation details.
    pub activation: DeactivationDetails,
}

/// License information with all activations.
#[derive(Debug, Clone)]
pub struct LicenseInfoResponse {
    /// License details.
    pub license: LicenseInfo,
    /// All activations (active and inactive).
    pub activations: Vec<ActivationRecord>,
}

/// The top-level fields of a JSON response body that the protocol reads:
/// `error` and `message` where they are strings, `success` where it is a
/// boolean, and whether an `error` key is there at all, whatever its value.
#[derive(Debug, Clone)]
pub struct ResponseBody {
    pub error: Option<String>,
    pub has_error_key: bool,
    pub message: Option<String>,
    pub success: Option<bool>,
}

/// A 2xx status.
pub open spec fn is_success_status(status: u16) -> bool {
    200 <= status <= 299
}

/// Decimal digits of a number, most significant first.
pub open spec fn decimal_of(n: nat) -> Seq<char>
    decreases n,
{
    if n < 10 {
        seq![hex_digit(n as u8)]
    } else {
        decimal_of(n / 10).push(hex_digit((n % 10) as u8))
    }
}

/// The server's explanation in a body: its `error` key where there is one
/// (`Unknown error` where that is not a string), else its `message`, else
/// `Unknown error`.
pub open spec fn server_error_text(body: ResponseBody) -> Seq<char> {
    match body.error {
        Some(e) => e@,
        None => if body.has_error_key {
            "Unknown error"@
        } else {
            match body.message {
                Some(m) => m@,
                None => "Unknown error"@,
            }
        },
    }
}

/// What `reqwest::StatusCode` displays for a status code: the code and its
/// canonical reason phrase.
pub uninterp spec fn status_display_of(code: u16) -> Seq<char>;

/// Relies on `reqwest::StatusCode::from_u16`, which accepts exactly the codes
/// 100 to 999, and on the `Display` of the status it gives.
#[verifier::external_body]
fn status_display(code: u16) -> (r: Option<String>)
    ensures
        r is Some <==> 100 <= code <= 999,
        r is Some ==> r->Some_0@ == status_display_of(code),
{
    match reqwest::StatusCode::from_u16(code) {
        Ok(status) => Some(status.to_string()),
        Err(_) => None,
    }
}

/// How a status is written in a server-error message: as the HTTP status
/// displays, or in decimal for a code outside 100 to 999.
pub open spec fn status_label(status: u16) -> Seq<char> {
    if 100 <= status <= 999 {
        status_display_of(status)
    } else {
        decimal_of(status as nat)
    }
}

/// The message of a generic server error, given how its status is written.
pub open spec fn server_error_message(status_text: Seq<char>, body: ResponseBody) -> Seq<char> {
    "Server error: "@ + status_text + " - "@ + server_error_text(body)
}

/// The message of the error that a non-2xx status gives.
pub open spec fn status_error_message(status: u16, body: ResponseBody) -> Seq<char> {
    if status == 404 {
        "License not found"@
    } else if status == 422 {
        server_error_text(body)
    } else if status == 429 {
        "Rate limit exceeded - please try again later"@
    } else {
        server_error_message(status_label(status), body)
    }
}

/// The failure that a body with a 2xx status signals: its `error` text, or
/// the operation's default message where `success` is false.
pub open spec fn logical_failure(body: ResponseBody, default_message: Seq<char>) -> Option<
    Seq<char>,
> {
    match body.error {
        Some(e) => Some(e@),
        None => if body.success == Some(false) {
            Some(default_message)
        } else {
            None
        },
    }
}

/// The failure that a response signals, checked in order: a body that is not
/// JSON (its parse error), a non-2xx status, a failure inside a 2xx body.
pub open spec fn response_failure(
    status: u16,
    body: Result<ResponseBody, String>,
    default_message: Seq<char>,
) -> Option<Seq<char>> {
    match body {
        Err(e) => Some(e@),
        Ok(b) => if !is_success_status(status) {
            Some(status_error_message(status, b))
        } else {
            logical_failure(b, default_message)
        },
    }
}

/// The outcome of an operation: the failure the response signals, else the
/// typed body, else the message of the error that deserializing it gave.
pub open spec fn outcome_of<T>(
    status: u16,
    body: Result<ResponseBody, String>,
    parsed: Result<T, String>,
    default_message: Seq<char>,
) -> Result<T, Seq<char>> {
    match response_failure(status, body, default_message) {
        Some(m) => Err(m),
        None => match parsed {
            Ok(v) => Ok(v),
            Err(e) => Err(e@),
        },
    }
}

fn digit_str(d: u16) -> (r: &'static str)
    requires
        d < 10,
    ensures
        r@ == seq![hex_digit(d as u8)],
{
    proof {
        reveal_strlit("0");
        reveal_strlit("1");
        reveal_strlit("2");
        reveal_strlit("3");
        reveal_strlit("4");
        reveal_strlit("5");
        reveal_strlit("6");
        reveal_strlit("7");
        reveal_strlit("8");
        reveal_strlit("9");
    }
    if d == 0 {
        "0"
    } else if d == 1 {
        "1"
    } else if d == 2 {
        "2"
    } else if d == 3 {
        "3"
    } else if d == 4 {
        "4"
    } else if d == 5 {
        "5"
    } else if d == 6 {
        "6"
    } else if d == 7 {
        "7"
    } else if d == 8 {
        "8"
    } else {
        "9"
    }
}

fn decimal_string(n: u16) -> (r: String)
    ensures
        r@ == decimal_of(n as nat),
    decreases n,
{
    if n < 10 {
        String::from_str(digit_str(n))
    } else {
        let mut s = decimal_string(n / 10);
        s.append(digit_str(n % 10));
        s
    }
}

fn server_error_string(body: &ResponseBody) -> (r: String)
    ensures
        r@ == server_error_text(*body),
{
    match &body.error {
        Some(e) => e.clone(),
        None => if body.has_error_key {
            String::from_str("Unknown error")
        } else {
            match &body.message {
                Some(m) => m.clone(),
                None => String::from_str("Unknown error"),
            }
        },
    }
}

/// The generic server error for a body, given how its status is written.
pub fn server_error(status_text: &str, body: &ResponseBody) -> (r: LycentoError)
    ensures
        r.msg() == server_error_message(status_text@, *body),
{
    let mut m = String::from_str("Server error: ");
    m.append(status_text);
    m.append(" - ");
    let text = server_error_string(body);
    m.append(text.as_str());
    LycentoError::Custom(m)
}

/// The error for a response with a non-2xx status.
pub fn handle_error_response(status: u16, body: &ResponseBody) -> (r: LycentoError)
    ensures
        r.msg() == status_error_message(status, *body),
{
    if status == 404 {
        LycentoError::new("License not found")
    } else if status == 422 {
        LycentoError::Custom(server_error_string(body))
    } else if status == 429 {
        LycentoError::new("Rate limit exceeded - please try again later")
    } else {
        let label = match status_display(status) {
            Some(text) => text,
            None => decimal_string(status),
        };
        server_error(label.as_str(), body)
    }
}

/// The error for a transport failure: a fixed message where the request
/// could not reach the server (connection, timeout, request building), else
/// the transport's own description.
pub fn handle_network_error(unreachable: bool, detail: &str) -> (r: LycentoError)
    ensures
        unreachable ==> r.msg() == "Network error - please check your connection"@,
        !unreachable ==> r.msg() == detail@,
{
    if unreachable {
        LycentoError::new("Network error - please check your connection")
    } else {
        LycentoError::new(detail)
    }
}

/// Check the status and the JSON body of a response: the body where the
/// status is 2xx, else the error the status gives.
pub fn handle_response(status: u16, body: Result<ResponseBody, String>) -> (r: Result<
    ResponseBody,
    LycentoError,
>)
    ensures
        match body {
            Err(e) => r is Err && r->Err_0.msg() == e@,
            Ok(b) => if is_success_status(status) {
                r == Ok::<ResponseBody, LycentoError>(b)
            } else {
                r is Err && r->Err_0.msg() == status_error_message(status, b)
            },
        },
{
    match body {
        Err(e) => Err(LycentoError::Custom(e)),
        Ok(b) => if 200 <= status && status <= 299 {
            Ok(b)
        } else {
            Err(handle_error_response(status, &b))
        },
    }
}

fn failure_of(status: u16, body: Result<ResponseBody, String>, default_message: &str) -> (r: Option<String>)
    ensures
        match response_failure(status, body, default_message@) {
            Some(m) => r is Some && r->Some_0@ == m,
            None => r is None,
        },
{
    match handle_response(status, body) {
        Err(e) => match e {
            LycentoError::Custom(m) => Some(m),
        },
        Ok(b) => match b.error {
            Some(e) => Some(e),
            None => match b.success {
                Some(false) => Some(String::from_str(default_message)),
                _ => None,
            },
        },
    }
}

fn resolve<T>(
    status: u16,
    body: Result<ResponseBody, String>,
    parsed: Result<T, String>,
    default_message: &str,
) -> (r: Result<T, String>)
    ensures
        match outcome_of(status, body, parsed, default_message@) {
            Ok(v) => r == Ok::<T, String>(v),
            Err(m) => r is Err && r->Err_0@ == m,
        },
{
    match failure_of(status, body, default_message) {
        Some(m) => Err(m),
        None => parsed,
    }
}

/// `r` is the result of an activation whose response had the given status,
/// body fields and typed body.
pub open spec fn activation_result(
    status: u16,
    body: Result<ResponseBody, String>,
    parsed: Result<ActivateResponse, String>,
    r: Result<ActivateResponse, ActivationError>,
) -> bool {
    match outcome_of(status, body, parsed, "Activation failed"@) {
        Ok(v) => r == Ok::<ActivateResponse, ActivationError>(v),
        Err(m) => r is Err && r->Err_0.msg() == m,
    }
}

/// `r` is the result of a validation whose response had the given status,
/// body fields and typed body.
pub open spec fn validation_result(
    status: u16,
    body: Result<ResponseBody, String>,
    parsed: Result<ValidateResponse, String>,
    r: Result<ValidateResponse, ValidationError>,
) -> bool {
    match outcome_of(status, body, parsed, "Validation failed"@) {
        Ok(v) => r == Ok::<ValidateResponse, ValidationError>(v),
        Err(m) => r is Err && r->Err_0.msg() == m,
    }
}

/// `r` is the result of a deactivation whose response had the given status,
/// body fields and typed body.
pub open spec fn deactivation_result(
    status: u16,
    body: Result<ResponseBody, String>,
    parsed: Result<DeactivateResponse, String>,
    r: Result<DeactivateResponse, DeactivationError>,
) -> bool {
    match outcome_of(status, body, parsed, "Deactivation failed"@) {
        Ok(v) => r == Ok::<DeactivateResponse, DeactivationError>(v),
        Err(m) => r is Err && r->Err_0.msg() == m,
    }
}

/// `r` is the result of an info request whose response had the given status,
/// body fields and typed body.
pub open spec fn info_result(
    status: u16,
    body: Result<ResponseBody, String>,
    parsed: Result<LicenseInfoResponse, String>,
    r: Result<LicenseInfoResponse, LycentoError>,
) -> bool {
    match outcome_of(status, body, parsed, "Info request failed"@) {
        Ok(v) => r == Ok::<LicenseInfoResponse, LycentoError>(v),
        Err(m) => r is Err && r->Err_0.msg() == m,
    }
}

/// Interpret the response to an activate request. `body` holds the fields
/// read from the JSON body, or the parse error where it is not JSON;
/// `parsed` is the body deserialized into the success shape, or the error
/// that gave.
pub fn activation_outcome(
    status: u16,
    body: Result<ResponseBody, String>,
    parsed: Result<ActivateResponse, String>,
) -> (r: Result<ActivateResponse, ActivationError>)
    ensures
        activation_result(status, body, parsed, r),
{
    match resolve(status, body, parsed, "Activation failed") {
        Ok(v) => Ok(v),
        Err(m) => Err(ActivationError::Custom(m)),
    }
}

/// Interpret the response to a validate request, as `activation_outcome`
/// does.
pub fn validation_outcome(
    status: u16,
    body: Result<ResponseBody, String>,
    parsed: Result<ValidateResponse, String>,
) -> (r: Result<ValidateResponse, ValidationError>)
    ensures
        validation_result(status, body, parsed, r),
{
    match resolve(status, body, parsed, "Validation failed") {
        Ok(v) => Ok(v),
        Err(m) => Err(ValidationError::Custom(m)),
    }
}

/// Interpret the response to a deactivate request, as `activation_outcome`
/// does.
pub fn deactivation_outcome(
    status: u16,
    body: Result<ResponseBody, String>,
    parsed: Result<DeactivateResponse, String>,
) -> (r: Result<DeactivateResponse, DeactivationError>)
    ensures
        deactivation_result(status, body, parsed, r),
{
    match resolve(status, body, parsed, "Deactivation failed") {
        Ok(v) => Ok(v),
        Err(m) => Err(DeactivationError::Custom(m)),
    }
}

/// Interpret the response to an info request, as `activation_outcome` does.
pub fn info_outcome(
    status: u16,
    body: Result<ResponseBody, String>,
    parsed: Result<LicenseInfoResponse, String>,
) -> (r: Result<LicenseInfoResponse, LycentoError>)
    ensures
        info_result(status, body, parsed, r),
{
    match resolve(status, body, parsed, "Info request failed") {
        Ok(v) => Ok(v),
        Err(m) => Err(LycentoError::Custom(m)),
    }
}

/// The `valid` flag of a validation, with every error read as not valid.
pub open spec fn validity(result: Result<ValidateResponse, ValidationError>) -> bool {
    match result {
        Ok(v) => v.valid,
        Err(_) => false,
    }
}

/// The number of active devices, zero where the server gave none.
pub open spec fn active_count(license: LicenseInfo) -> u32 {
    match license.active_devices {
        Some(n) => n,
        None => 0,
    }
}

/// Whether a validation result says the license is valid. Every error counts
/// as not valid: "invalid" and "could not check" read the same.
pub fn is_valid_result(result: &Result<ValidateResponse, ValidationError>) -> (r: bool)
    ensures
        r == validity(*result),
{
    match result {
        Ok(v) => v.valid,
        Err(_) => false,
    }
}

/// The number of active devices in an info result; an error is passed on.
pub fn active_device_count(info: Result<LicenseInfoResponse, LycentoError>) -> (r: Result<
    u32,
    LycentoError,
>)
    ensures
        match info {
            Ok(i) => r == Ok::<u32, LycentoError>(active_count(i.license)),
            Err(e) => r == Err::<u32, LycentoError>(e),
        },
{
    match info {
        Ok(i) => Ok(
            match i.license.active_devices {
                Some(n) => n,
                None => 0,
            },
        ),
        Err(e) => Err(e),
    }
}

/// Whether the license in an info result has room for another device: its
/// active devices are fewer than its maximum. An error is passed on.
pub fn can_activate_another(info: Result<LicenseInfoResponse, LycentoError>) -> (r: Result<
    bool,
    LycentoError,
>)
    ensures
        match info {
            Ok(i) => r == Ok::<bool, LycentoError>(active_count(i.license) < i.license.max_devices),
            Err(e) => r == Err::<bool, LycentoError>(e),
        },
{
    match info {
        Ok(i) => {
            let active = match i.license.active_devices {
                Some(n) => n,
                None => 0,
            };
            Ok(active < i.license.max_devices)
        },
        Err(e) => Err(e),
    }
}

/// The status code decides the error before the body does: whatever the
/// body holds, any operation answered with 404 fails with `License not
/// found`, with 429 fails with the rate-limit message, and with 422 fails
/// with the server's own `error` text (else its `message`).
pub proof fn lemma_status_decides_error<T>(
    body: ResponseBody,
    parsed: Result<T, String>,
    default_message: Seq<char>,
)
    ensures
        outcome_of(404, Ok(body), parsed, default_message) == Err::<T, Seq<char>>(
            "License not found"@,
        ),
        outcome_of(429, Ok(body), parsed, default_message) == Err::<T, Seq<char>>(
            "Rate limit exceeded - please try again later"@,
        ),
        outcome_of(422, Ok(body), parsed, default_message) == Err::<T, Seq<char>>(
            server_error_text(body),
        ),
        body.error is Some ==> outcome_of(422, Ok(body), parsed, default_message) == Err::<
            T,
            Seq<char>,
        >(body.error->Some_0@),
{
}

/// A 2xx response whose body reports `success: false` is a failure of the
/// operation, carrying the body's `error` text where it has one and the
/// operation's default message otherwise; it never yields the typed body.
pub proof fn lemma_embedded_failure_wins<T>(
    status: u16,
    body: ResponseBody,
    parsed: Result<T, String>,
    default_message: Seq<char>,
)
    requires
        is_success_status(status),
        body.success == Some(false),
    ensures
        outcome_of(status, Ok(body), parsed, default_message) == Err::<T, Seq<char>>(
            match body.error {
                Some(e) => e@,
                None => default_message,
            },
        ),
{
}

/// A validation answered with 404 reads as not valid, whatever the body: the
/// quick validity check never fails, it says `false`.
pub proof fn lemma_not_found_is_invalid(
    body: ResponseBody,
    parsed: Result<ValidateResponse, String>,
    r: Result<ValidateResponse, ValidationError>,
)
    requires
        validation_result(404, Ok(body), parsed, r),
    ensures
        !validity(r),
{
}

} // verus!
