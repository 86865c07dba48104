//! Client library for a remote software-licensing service: device identity
//! derivation, request construction and response interpretation for the
//! activate, validate, deactivate and info operations.

pub mod client;
pub mod device;
pub mod errors;

pub use crate::client::{
    activate_payload, activation_outcome, active_device_count, can_activate_another,
    deactivation_outcome, handle_error_response, handle_network_error, handle_response,
    server_error,
    info_outcome, is_valid_result, validate_payload, validation_outcome, ActivateOptions,
    ActivatePayload, ActivateResponse, ActivationDetails, ActivationRecord, ClientSettings,
    DeactivateOptions, DeactivateResponse, DeactivationDetails, LicenseInfo,
    LicenseInfoResponse, LycentoConfig, ResponseBody, ValidateOptions, ValidatePayload,
    ValidateResponse, ACTIVATE_PATH, DEACTIVATE_PATH, DEFAULT_TIMEOUT_MS, INFO_PATH,
    VALIDATE_PATH,
};
pub use crate::device::{
    get_architecture, get_device_id,
    get_device_info, get_device_name, get_platform, get_platform_version, hash_string,
    platform_from_lowered, simple_hash, DeviceInfo, Platform,
};
pub use crate::errors::{
    ActivationError, DeactivationError, LycentoError, NetworkError, ValidationError,
};
