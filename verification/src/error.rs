//! The error taxonomy of the relay core, and its mapping onto HTTP
//! status codes and envelope error names.

use vstd::prelude::*;

verus! {

/// Every failure the core can report.
///
/// Request-scoped errors are mapped to a `4xx` status at the pipeline
/// boundary; `InvalidConfiguration` is raised only during startup
/// validation; `Store` wraps an underlying storage failure;
/// `InternalUnsupportedOperation` marks a mutating call on the
/// single-tenant directory, a deployment wiring fault rather than a
/// request error.
#[derive(Debug, Clone, PartialEq, Eq)]
pub enum Error {
    /// The request signature is absent, malformed, or does not verify.
    Unauthorized,
    /// The request body does not parse into the expected structure, or
    /// names no known provider kind.
    BadRequest,
    /// No client is registered under the requested pair of tenant and
    /// client id.
    ClientNotFound,
    /// No tenant exists under the requested id.
    InvalidTenantId(String),
    /// The requested provider kind is not usable for this tenant; holds
    /// the kind's name.
    ProviderNotAvailable(String),
    /// Credential material is present but cannot be decoded.
    InvalidCredential,
    /// A required request field is empty; holds the field's name.
    EmptyField(String),
    /// An APNs auth-mode discriminator string matches neither mode.
    InvalidApnsType(String),
    /// No APNs credential set is configured at all.
    NoApnsConfigured,
    /// The startup configuration breaks a validation rule.
    InvalidConfiguration(String),
    /// An underlying storage failure; holds a description.
    Store(String),
    /// A mutating directory call reached the single-tenant directory.
    InternalUnsupportedOperation,
}

impl Error {
    /// The HTTP status code that the response envelope carries for this
    /// error.
    pub open spec fn spec_status_code(&self) -> u16 {
        match self {
            Error::Unauthorized => 401,
            Error::BadRequest => 400,
            Error::ClientNotFound => 404,
            Error::InvalidTenantId(_) => 404,
            Error::ProviderNotAvailable(_) => 400,
            Error::InvalidCredential => 400,
            Error::EmptyField(_) => 400,
            Error::InvalidApnsType(_) => 400,
            Error::NoApnsConfigured => 400,
            Error::InvalidConfiguration(_) => 500,
            Error::Store(_) => 500,
            Error::InternalUnsupportedOperation => 500,
        }
    }

    pub fn status_code(&self) -> (r: u16)
        ensures
            r == self.spec_status_code(),
    {
        match self {
            Error::Unauthorized => 401,
            Error::BadRequest => 400,
            Error::ClientNotFound => 404,
            Error::InvalidTenantId(_) => 404,
            Error::ProviderNotAvailable(_) => 400,
            Error::InvalidCredential => 400,
            Error::EmptyField(_) => 400,
            Error::InvalidApnsType(_) => 400,
            Error::NoApnsConfigured => 400,
            Error::InvalidConfiguration(_) => 500,
            Error::Store(_) => 500,
            Error::InternalUnsupportedOperation => 500,
        }
    }

    /// The stable name under which the error appears in a response
    /// envelope.
    pub open spec fn spec_name(&self) -> Seq<char> {
        match self {
            Error::Unauthorized => "unauthorized"@,
            Error::BadRequest => "bad_request"@,
            Error::ClientNotFound => "client_not_found"@,
            Error::InvalidTenantId(_) => "invalid_tenant_id"@,
            Error::ProviderNotAvailable(_) => "provider_not_available"@,
            Error::InvalidCredential => "invalid_credential"@,
            Error::EmptyField(_) => "empty_field"@,
            Error::InvalidApnsType(_) => "invalid_apns_type"@,
            Error::NoApnsConfigured => "no_apns_configured"@,
            Error::InvalidConfiguration(_) => "invalid_configuration"@,
            Error::Store(_) => "store_error"@,
            Error::InternalUnsupportedOperation => "internal_unsupported_operation"@,
        }
    }

    pub fn name(&self) -> (r: String)
        ensures
            r@ == self.spec_name(),
    {
        match self {
            Error::Unauthorized => "unauthorized".to_owned(),
            Error::BadRequest => "bad_request".to_owned(),
            Error::ClientNotFound => "client_not_found".to_owned(),
            Error::InvalidTenantId(_) => "invalid_tenant_id".to_owned(),
            Error::ProviderNotAvailable(_) => "provider_not_available".to_owned(),
            Error::InvalidCredential => "invalid_credential".to_owned(),
            Error::EmptyField(_) => "empty_field".to_owned(),
            Error::InvalidApnsType(_) => "invalid_apns_type".to_owned(),
            Error::NoApnsConfigured => "no_apns_configured".to_owned(),
            Error::InvalidConfiguration(_) => "invalid_configuration".to_owned(),
            Error::Store(_) => "store_error".to_owned(),
            Error::InternalUnsupportedOperation => "internal_unsupported_operation".to_owned(),
        }
    }
}

} // verus!
