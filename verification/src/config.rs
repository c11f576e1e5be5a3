//! Process configuration: recognized options, startup validation, and
//! the capability set of single-tenant mode.

use vstd::prelude::*;
use crate::error::Error;
use crate::providers::ProviderKind;
use crate::strutil::str_eq;
use crate::tenant::{ApnsType, Tenant};

verus! {

/// The process-wide configuration. In single-tenant mode the APNs and
/// FCM fields below describe the one virtual tenant's credentials.
#[derive(Debug, PartialEq, Eq)]
pub struct Config {
    pub port: u16,
    pub public_url: String,
    pub log_level: String,
    pub log_level_otel: String,
    pub disable_header: bool,
    pub relay_url: String,
    pub validate_signatures: bool,
    pub database_url: String,
    pub tenant_database_url: Option<String>,
    pub default_tenant_id: String,
    /// Internal flag to disable logging; cannot be set by the user.
    pub is_test: bool,
    /// Whether the no-op provider may be offered in single-tenant mode;
    /// off in production deployments.
    pub allow_noop_provider: bool,
    // CORS
    pub cors_allowed_origins: Vec<String>,
    // TELEMETRY
    pub otel_exporter_otlp_endpoint: Option<String>,
    pub telemetry_prometheus_port: Option<u16>,
    // APNS
    pub apns_type: Option<ApnsType>,
    pub apns_topic: Option<String>,
    pub apns_certificate: Option<String>,
    pub apns_certificate_password: Option<String>,
    pub apns_pkcs8_pem: Option<String>,
    pub apns_key_id: Option<String>,
    pub apns_team_id: Option<String>,
    // FCM
    pub fcm_api_key: Option<String>,
}

impl Config {
    /// The virtual tenant that single-tenant mode serves: the same
    /// credential fields, read through the same decision table as a
    /// stored tenant row.
    pub open spec fn spec_single_tenant(&self) -> Tenant {
        Tenant {
            id: self.default_tenant_id,
            fcm_api_key: self.fcm_api_key,
            apns_type: self.apns_type,
            apns_topic: self.apns_topic,
            apns_certificate: self.apns_certificate,
            apns_certificate_password: self.apns_certificate_password,
            apns_pkcs8_pem: self.apns_pkcs8_pem,
            apns_key_id: self.apns_key_id,
            apns_team_id: self.apns_team_id,
            created_at: 0,
            updated_at: 0,
        }
    }

    /// The no-op kind is offered only when explicitly allowed and no
    /// tenant database is configured.
    pub open spec fn spec_noop_allowed(&self) -> bool {
        self.allow_noop_provider && self.tenant_database_url is None
    }

    /// The kinds that single-tenant mode can serve from this
    /// configuration.
    pub open spec fn spec_supported_providers(&self) -> Seq<ProviderKind> {
        self.spec_single_tenant().spec_providers(self.spec_noop_allowed())
    }

    /// Reads this configuration's APNs fields through the decision
    /// table: `Ok` of the configured mode when its field set is
    /// complete, `InvalidConfiguration` when a mode is named but its
    /// set is partial, `NoApnsConfigured` when no mode is named.
    pub fn get_apns_type(&self) -> (r: Result<ApnsType, Error>)
        ensures
            (r matches Ok(t) ==> self.spec_single_tenant().spec_apns_type() == Some(t)),
            self.apns_type is None ==> r == Err::<ApnsType, Error>(Error::NoApnsConfigured),
            (self.apns_type matches Some(t) ==> (if self.spec_single_tenant().spec_apns_type()
                == Some(t) {
                r == Ok::<ApnsType, Error>(t)
            } else {
                r matches Err(Error::InvalidConfiguration(_))
            })),
            r is Ok <==> self.spec_single_tenant().apns_supported(),
    {
        if let Some(apns_type) = &self.apns_type {
            match apns_type {
                ApnsType::Certificate => {
                    if self.apns_topic.is_some() && self.apns_certificate.is_some()
                        && self.apns_certificate_password.is_some() {
                        Ok(ApnsType::Certificate)
                    } else {
                        Err(Error::InvalidConfiguration(
                            "APNS_TYPE of Certificate requires specific variables, please check the documentation.".to_owned(),
                        ))
                    }
                },
                ApnsType::Token => {
                    if self.apns_topic.is_some() && self.apns_pkcs8_pem.is_some()
                        && self.apns_key_id.is_some() && self.apns_team_id.is_some() {
                        Ok(ApnsType::Token)
                    } else {
                        Err(Error::InvalidConfiguration(
                            "APNS_TYPE of Token requires specific variables, please check the documentation.".to_owned(),
                        ))
                    }
                },
            }
        } else {
            Err(Error::NoApnsConfigured)
        }
    }

    /// The kinds that single-tenant mode can serve, in stable order.
    pub fn single_tenant_supported_providers(&self) -> (v: Vec<ProviderKind>)
        ensures
            v@ == self.spec_supported_providers(),
    {
        let mut supported: Vec<ProviderKind> = Vec::new();
        if self.get_apns_type().is_ok() {
            supported.push(ProviderKind::Apns);
            supported.push(ProviderKind::ApnsSandbox);
        }
        if self.fcm_api_key.is_some() {
            supported.push(ProviderKind::Fcm);
        }
        if self.allow_noop_provider && self.tenant_database_url.is_none() {
            supported.push(ProviderKind::Noop);
        }
        proof {
            assert(supported@ =~= self.spec_supported_providers());
        }
        supported
    }

    /// Whether the process runs the multi-tenant directory: decided
    /// once at startup by the presence of a tenant database.
    pub fn uses_tenant_database(&self) -> (r: bool)
        ensures
            r == (self.tenant_database_url is Some),
    {
        self.tenant_database_url.is_some()
    }

    /// Whether the no-op provider may be served; see
    /// `spec_noop_allowed`.
    pub fn noop_allowed(&self) -> (r: bool)
        ensures
            r == self.spec_noop_allowed(),
    {
        self.allow_noop_provider && self.tenant_database_url.is_none()
    }

    /// The startup validation rules: exactly one of a tenant database
    /// or directly configured provider credentials; a tenant database
    /// distinct from the primary one; and APNs fields, when a mode is
    /// named, forming that mode's complete set.
    pub open spec fn spec_valid(&self) -> bool {
        &&& !(self.tenant_database_url is None && self.spec_supported_providers().len() == 0)
        &&& !(self.spec_supported_providers().len() > 0 && self.tenant_database_url is Some)
        &&& (self.tenant_database_url matches Some(u) ==> u@ != self.database_url@)
        &&& (self.apns_type matches Some(t) ==> self.spec_single_tenant().spec_apns_type()
            == Some(t))
    }

    /// Validates this configuration; serving traffic is allowed only on
    /// `Ok`.
    pub fn is_valid(&self) -> (r: Result<(), Error>)
        ensures
            r is Ok <==> self.spec_valid(),
            (r matches Err(e) ==> e matches Error::InvalidConfiguration(_)),
    {
        if self.tenant_database_url.is_none() && self.single_tenant_supported_providers().is_empty() {
            return Err(Error::InvalidConfiguration(
                "no tenant database url provided and no provider keys found".to_owned(),
            ));
        }

        if !self.single_tenant_supported_providers().is_empty()
            && self.tenant_database_url.is_some() {
            return Err(Error::InvalidConfiguration(
                "tenant database and providers keys found in config".to_owned(),
            ));
        }

        if let Some(tenant_database_url) = &self.tenant_database_url {
            if str_eq(tenant_database_url.as_str(), self.database_url.as_str()) {
                return Err(Error::InvalidConfiguration(
                    "`TENANT_DATABASE_URL` is equal to `DATABASE_URL`, this is not allowed".to_owned(),
                ));
            }
        }

        match self.get_apns_type() {
            Ok(_) => Ok(()),
            Err(e) => match e {
                Error::NoApnsConfigured => Ok(()),
                other => Err(other),
            },
        }
    }
}

pub fn default_port() -> (r: u16)
    ensures
        r == 3000,
{
    3000
}

pub fn default_log_level() -> (r: String)
    ensures
        r@ == "info,echo_server=info"@,
{
    "info,echo_server=info".to_owned()
}

pub fn default_log_level_otel() -> (r: String)
    ensures
        r@ == "info,echo_server=trace"@,
{
    "info,echo_server=trace".to_owned()
}

pub fn default_disable_header() -> (r: bool)
    ensures
        r == false,
{
    false
}

pub fn default_validate_signatures() -> (r: bool)
    ensures
        r == true,
{
    true
}

pub fn default_relay_url() -> (r: String)
    ensures
        r@ == "https://relay.walletconnect.com"@,
{
    "https://relay.walletconnect.com".to_owned()
}

pub fn default_tenant_id() -> (r: String)
    ensures
        r@ == "0000-0000-0000-0000"@,
{
    "0000-0000-0000-0000".to_owned()
}

pub fn default_is_test() -> (r: bool)
    ensures
        r == false,
{
    false
}

pub fn default_cors_allowed_origins() -> (r: Vec<String>)
    ensures
        r@.len() == 1,
        r@[0]@ == "*"@,
{
    let mut v: Vec<String> = Vec::new();
    v.push("*".to_owned());
    v
}

} // verus!
