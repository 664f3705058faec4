//! Client-side logic for a license-authentication service: host
//! normalisation, local validation of authentication and registration
//! requests, and construction of the JSON payloads that are posted.

mod client;
mod http;
mod json;

pub use client::{
    AuthResponse, AuthenticateOptions, LicenseAuthClient, PostRequest, Prepared, RegisterOptions,
    MISSING_CREDENTIALS, MISSING_LICENSE, MISSING_PASSWORD, MISSING_USERNAME,
    REQUEST_TIMEOUT_SECS,
};
pub use client::{
    authenticate_payload, credentials_missing, is_local_failure, is_local_reply, is_post_of,
    normalized_host, register_payload, register_rejection, with_optional,
};
pub use json::{no_fields, object_fields};
