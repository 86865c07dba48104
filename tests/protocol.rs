use lycento_sdk::{
    activate_payload, activation_outcome, active_device_count, can_activate_another,
    deactivation_outcome, handle_error_response, handle_network_error, handle_response,
    info_outcome, server_error, is_valid_result, validate_payload, validation_outcome, ActivateOptions,
    ActivateResponse, ActivationDetails, ActivationError, ActivationRecord, ClientSettings,
    DeactivateOptions, DeactivateResponse, DeactivationDetails, DeactivationError, DeviceInfo,
    LicenseInfo, LicenseInfoResponse, LycentoConfig, LycentoError, NetworkError, Platform,
    ResponseBody, ValidateOptions, ValidateResponse, ValidationError, ACTIVATE_PATH,
    INFO_PATH,
};

fn body(error: Option<&str>, message: Option<&str>, success: Option<bool>) -> ResponseBody {
    ResponseBody {
        error: error.map(|s| s.to_string()),
        has_error_key: error.is_some(),
        message: message.map(|s| s.to_string()),
        success,
    }
}

fn license(max_devices: u32, active_devices: Option<u32>) -> LicenseInfo {
    LicenseInfo {
        key: "KEY-1".to_string(),
        status: "active".to_string(),
        license_type: "perpetual".to_string(),
        expires_at: None,
        max_devices,
        active_devices,
    }
}

fn activate_response() -> ActivateResponse {
    ActivateResponse {
        success: true,
        license: license(3, None),
        activation: ActivationDetails {
            id: 7,
            device_id: "abc".to_string(),
            device_name: "box".to_string(),
            device_platform: "linux".to_string(),
            activated_at: "2024-01-01T00:00:00Z".to_string(),
            last_validated_at: None,
        },
    }
}

fn validate_response(valid: bool) -> ValidateResponse {
    ValidateResponse { valid, license: license(3, None), activation: None }
}

fn info(max_devices: u32, active_devices: Option<u32>) -> LicenseInfoResponse {
    LicenseInfoResponse {
        license: license(max_devices, active_devices),
        activations: vec![ActivationRecord {
            id: 1,
            device_id: "abc".to_string(),
            device_name: "box".to_string(),
            device_platform: "linux".to_string(),
            activated_at: "2024-01-01T00:00:00Z".to_string(),
            deactivated_at: None,
            is_active: true,
        }],
    }
}

#[test]
fn embedded_failure_in_2xx_is_activation_error() {
    let r = activation_outcome(
        200,
        Ok(body(Some("device limit reached"), None, Some(false))),
        Ok(activate_response()),
    );
    match r {
        Err(e) => assert!(e.message().contains("device limit reached")),
        Ok(_) => panic!("expected an activation error"),
    }
}

#[test]
fn success_false_without_error_uses_default_message() {
    let r = activation_outcome(201, Ok(body(None, None, Some(false))), Ok(activate_response()));
    assert_eq!(r.unwrap_err().message(), "Activation failed");
    let d = deactivation_outcome(200, Ok(body(None, None, Some(false))), Err("x".to_string()));
    assert_eq!(d.unwrap_err().message(), "Deactivation failed");
}

#[test]
fn not_found_for_every_operation() {
    let b = || Ok(body(Some("anything"), Some("else"), Some(true)));
    assert_eq!(
        activation_outcome(404, b(), Ok(activate_response())).unwrap_err().message(),
        "License not found"
    );
    assert_eq!(
        validation_outcome(404, b(), Ok(validate_response(true))).unwrap_err().message(),
        "License not found"
    );
    assert_eq!(
        deactivation_outcome(404, b(), Err("bad".to_string())).unwrap_err().message(),
        "License not found"
    );
    assert_eq!(info_outcome(404, b(), Ok(info(2, Some(1)))).unwrap_err().message(), "License not found");
}

#[test]
fn rate_limit_and_unprocessable() {
    let r = handle_error_response(429, &body(Some("slow down"), None, None));
    assert_eq!(r.message(), "Rate limit exceeded - please try again later");
    let r = handle_error_response(422, &body(Some("invalid license key format"), Some("m"), None));
    assert_eq!(r.message(), "invalid license key format");
    let r = handle_error_response(422, &body(None, Some("only message"), None));
    assert_eq!(r.message(), "only message");
}

#[test]
fn other_status_is_server_error() {
    let r = handle_error_response(500, &body(None, None, None));
    assert_eq!(r.message(), "Server error: 500 Internal Server Error - Unknown error");
    let r = handle_error_response(503, &body(Some("maintenance"), None, None));
    assert_eq!(r.message(), "Server error: 503 Service Unavailable - maintenance");
    let r = handle_error_response(599, &body(None, Some("odd"), None));
    assert_eq!(r.message(), "Server error: 599 <unknown status code> - odd");
    let r = handle_error_response(7, &body(None, Some("odd"), None));
    assert_eq!(r.message(), "Server error: 7 - odd");
    let r = server_error("418 I'm a teapot", &body(Some("short"), None, None));
    assert_eq!(r.message(), "Server error: 418 I'm a teapot - short");
}

#[test]
fn non_string_error_key_hides_message() {
    let b = ResponseBody {
        error: None,
        has_error_key: true,
        message: Some("not used".to_string()),
        success: None,
    };
    assert_eq!(handle_error_response(422, &b).message(), "Unknown error");
    assert_eq!(server_error("500 Internal Server Error", &b).message(), "Server error: 500 Internal Server Error - Unknown error");
}

#[test]
fn unparsable_body_fails_whatever_the_status() {
    let r = validation_outcome(200, Err("expected value at line 1".to_string()), Ok(validate_response(true)));
    assert_eq!(r.unwrap_err().message(), "expected value at line 1");
    let r = handle_response(404, Err("eof".to_string()));
    assert_eq!(r.unwrap_err().message(), "eof");
}

#[test]
fn success_body_is_deserialized_shape() {
    let r = activation_outcome(200, Ok(body(None, None, Some(true))), Ok(activate_response()));
    let v = r.unwrap();
    assert!(v.success);
    assert_eq!(v.activation.id, 7);
    assert_eq!(v.license.expires_at, None);
    let r = activation_outcome(200, Ok(body(None, None, None)), Err("missing field `license`".to_string()));
    assert_eq!(r.unwrap_err().message(), "missing field `license`");
    let r = handle_response(204, Ok(body(None, Some("ok"), None))).unwrap();
    assert_eq!(r.message, Some("ok".to_string()));
}

#[test]
fn validation_error_field_in_2xx_fails() {
    let r = validation_outcome(200, Ok(body(Some("revoked"), None, None)), Ok(validate_response(true)));
    assert_eq!(r.unwrap_err().message(), "revoked");
}

#[test]
fn is_valid_on_not_found_is_false() {
    let r = validation_outcome(404, Ok(body(Some("nope"), None, None)), Err("x".to_string()));
    assert!(!is_valid_result(&r));
    let ok = validation_outcome(200, Ok(body(None, None, None)), Ok(validate_response(true)));
    assert!(is_valid_result(&ok));
    let invalid = validation_outcome(200, Ok(body(None, None, None)), Ok(validate_response(false)));
    assert!(!is_valid_result(&invalid));
}

#[test]
fn can_activate_another_compares_counts() {
    assert_eq!(can_activate_another(Ok(info(2, Some(2)))).unwrap(), false);
    assert_eq!(can_activate_another(Ok(info(2, Some(1)))).unwrap(), true);
    assert_eq!(can_activate_another(Ok(info(1, None))).unwrap(), true);
    assert_eq!(can_activate_another(Ok(info(0, None))).unwrap(), false);
}

#[test]
fn can_activate_another_propagates_error() {
    let err = handle_network_error(true, "connection refused");
    let r = can_activate_another(Err(err));
    assert_eq!(r.unwrap_err().message(), "Network error - please check your connection");
}

#[test]
fn active_device_count_defaults_to_zero() {
    assert_eq!(active_device_count(Ok(info(5, Some(3)))).unwrap(), 3);
    assert_eq!(active_device_count(Ok(info(5, None))).unwrap(), 0);
    let r = active_device_count(Err(LycentoError::new("boom")));
    assert_eq!(r.unwrap_err().message(), "boom");
}

#[test]
fn network_error_messages() {
    assert_eq!(handle_network_error(false, "builder error").message(), "builder error");
}

#[test]
fn config_and_settings() {
    let c = LycentoConfig::new("https://api.example.com///");
    assert_eq!(c.api_key, None);
    assert_eq!(c.timeout, None);
    let s = ClientSettings::from_config(c.clone());
    assert_eq!(s.base_url, "https://api.example.com");
    assert_eq!(s.timeout_ms, 10000);
    assert_eq!(s.authorization_header(), None);
    let c = c.with_api_key("key-123").with_timeout(2500);
    let s = ClientSettings::from_config(c);
    assert_eq!(s.timeout_ms, 2500);
    assert_eq!(s.authorization_header(), Some("Bearer key-123".to_string()));
    assert_eq!(
        s.endpoint_url(ACTIVATE_PATH),
        "https://api.example.com/api/v1/licenses/activate"
    );
    assert_eq!(s.endpoint_url(INFO_PATH), "https://api.example.com/api/v1/licenses/info");
}

#[test]
fn activate_payload_fills_defaults_from_device() {
    let device = DeviceInfo {
        device_id: "0123456789abcdef0123456789abcdef".to_string(),
        device_name: "box".to_string(),
        platform: Platform::Linux,
        platform_version: "6.1".to_string(),
        architecture: "x86_64".to_string(),
    };
    let p = activate_payload(ActivateOptions::new("KEY"), &device);
    assert_eq!(p.license_key, "KEY");
    assert_eq!(p.device_id, "0123456789abcdef0123456789abcdef");
    assert_eq!(p.device_name, "box");
    assert_eq!(p.device_platform, "linux");
    assert_eq!(p.ip_address, None);
    let o = ActivateOptions::new("KEY")
        .with_device_id("custom")
        .with_device_name("named")
        .with_platform(Platform::Ios)
        .with_ip_address("10.0.0.1");
    let p = activate_payload(o, &device);
    assert_eq!(p.device_id, "custom");
    assert_eq!(p.device_name, "named");
    assert_eq!(p.device_platform, "ios");
    assert_eq!(p.ip_address, Some("10.0.0.1".to_string()));
}

#[test]
fn validate_payload_defaults_device_id() {
    let p = validate_payload(ValidateOptions::new("KEY"), "dev-1");
    assert_eq!(p.device_id, "dev-1");
    let p = validate_payload(ValidateOptions::new("KEY").with_device_id("dev-2"), "dev-1");
    assert_eq!(p.device_id, "dev-2");
    let d = DeactivateOptions::new("KEY", "dev-3");
    assert_eq!(d.license_key, "KEY");
    assert_eq!(d.device_id, "dev-3");
}

#[test]
fn deactivation_success() {
    let resp = DeactivateResponse {
        success: true,
        message: "Deactivated".to_string(),
        activation: DeactivationDetails {
            id: 4,
            device_id: "abc".to_string(),
            deactivated_at: "2024-02-02T00:00:00Z".to_string(),
        },
    };
    let r = deactivation_outcome(200, Ok(body(None, Some("Deactivated"), Some(true))), Ok(resp));
    assert_eq!(r.unwrap().activation.id, 4);
}

#[test]
fn error_types_carry_messages() {
    assert_eq!(ActivationError::new("a").message(), "a");
    assert_eq!(ValidationError::new("v").message(), "v");
    assert_eq!(DeactivationError::new("d").message(), "d");
    assert_eq!(NetworkError::new("n").message(), "n");
    assert_eq!(ActivationError::from_base(LycentoError::new("base")).message(), "base");
    assert_eq!(ValidationError::from_base(LycentoError::new("base")).message(), "base");
    assert_eq!(DeactivationError::from_base(LycentoError::new("base")).message(), "base");
}

#[test]
fn base_errors_convert_into_operation_errors() {
    let a: ActivationError = LycentoError::new("down").into();
    assert_eq!(a.message(), "down");
    let v: ValidationError = LycentoError::new("down").into();
    assert_eq!(v.message(), "down");
    let d: DeactivationError = LycentoError::new("down").into();
    assert_eq!(d.message(), "down");
    assert_eq!(Platform::default(), Platform::Unknown);
}
