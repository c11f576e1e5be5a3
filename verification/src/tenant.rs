//! Tenants, their APNs auth modes, the credential decision table, and
//! provider materialization.

use vstd::prelude::*;
use crate::b64::{base64_decode, base64_decoded};
use crate::config::Config;
use crate::error::Error;
use crate::providers::{
    ApnsAuth,
    ApnsEndpoint,
    ApnsProvider,
    FcmProvider,
    NoopProvider,
    Provider,
    ProviderKind,
};
use crate::strutil::{clone_opt_string, eq_lower, lower};

verus! {

/// The two mutually exclusive APNs auth modes.
#[derive(Debug, Clone, Copy, PartialEq, Eq, Structural, Hash)]
pub enum ApnsType {
    Certificate,
    Token,
}

impl ApnsType {
    /// The mode's stable name.
    pub open spec fn spec_str(&self) -> Seq<char> {
        match self {
            ApnsType::Certificate => "certificate"@,
            ApnsType::Token => "token"@,
        }
    }

    pub fn as_str(&self) -> (r: &'static str)
        ensures
            r@ == self.spec_str(),
    {
        match self {
            ApnsType::Certificate => "certificate",
            ApnsType::Token => "token",
        }
    }

    /// Parses an auth-mode discriminator, ignoring ASCII case; any
    /// other string fails with `InvalidApnsType` carrying that string.
    pub fn from_str(value: &str) -> (r: Result<ApnsType, Error>)
        ensures
            lower(value@) == "certificate"@ ==> r == Ok::<ApnsType, Error>(ApnsType::Certificate),
            lower(value@) == "token"@ ==> r == Ok::<ApnsType, Error>(ApnsType::Token),
            (r matches Ok(t) ==> lower(value@) == t.spec_str()),
            (r matches Err(e) ==> e matches Error::InvalidApnsType(v) && v@ == value@
                && lower(value@) != "certificate"@ && lower(value@) != "token"@),
    {
        proof {
            lemma_apns_type_names_distinct();
        }
        if eq_lower(value, "certificate") {
            Ok(ApnsType::Certificate)
        } else if eq_lower(value, "token") {
            Ok(ApnsType::Token)
        } else {
            Err(Error::InvalidApnsType(value.to_owned()))
        }
    }
}

proof fn lemma_apns_type_names_distinct()
    ensures
        "certificate"@ != "token"@,
{
    reveal_strlit("certificate");
    reveal_strlit("token");
    assert("certificate"@.len() == 11);
    assert("token"@.len() == 5);
}

/// One tenant's stored configuration: identity, the optional FCM key,
/// and the optional APNs credential fields. Partial APNs field sets are
/// treated as "APNs not configured", never as a read-time error.
#[derive(Debug, PartialEq, Eq)]
pub struct Tenant {
    pub id: String,
    pub fcm_api_key: Option<String>,
    pub apns_type: Option<ApnsType>,
    pub apns_topic: Option<String>,
    // Certificate based
    pub apns_certificate: Option<String>,
    pub apns_certificate_password: Option<String>,
    // Token based
    pub apns_pkcs8_pem: Option<String>,
    pub apns_key_id: Option<String>,
    pub apns_team_id: Option<String>,
    pub created_at: u64,
    pub updated_at: u64,
}

impl Clone for Tenant {
    fn clone(&self) -> (res: Self)
        ensures
            res == *self,
    {
        Tenant {
            id: self.id.clone(),
            fcm_api_key: clone_opt_string(&self.fcm_api_key),
            apns_type: self.apns_type,
            apns_topic: clone_opt_string(&self.apns_topic),
            apns_certificate: clone_opt_string(&self.apns_certificate),
            apns_certificate_password: clone_opt_string(&self.apns_certificate_password),
            apns_pkcs8_pem: clone_opt_string(&self.apns_pkcs8_pem),
            apns_key_id: clone_opt_string(&self.apns_key_id),
            apns_team_id: clone_opt_string(&self.apns_team_id),
            created_at: self.created_at,
            updated_at: self.updated_at,
        }
    }
}

/// Parameters for creating a tenant or overriding its id.
#[derive(Debug, PartialEq, Eq, Clone)]
pub struct TenantUpdateParams {
    pub id: String,
}

/// Parameters for rotating a tenant's FCM key.
#[derive(Debug, PartialEq, Eq, Clone)]
pub struct TenantFcmUpdateParams {
    pub fcm_api_key: String,
}

/// A complete credential set for exactly one APNs auth mode; applying
/// it switches the tenant to that mode and clears the other mode's
/// fields.
#[derive(Debug, PartialEq, Eq, Clone)]
pub enum TenantApnsUpdateAuth {
    Certificate { apns_certificate: String, apns_certificate_password: String },
    Token { apns_pkcs8_pem: String, apns_key_id: String, apns_team_id: String },
}

/// Parameters for rotating a tenant's APNs topic.
#[derive(Debug, PartialEq, Eq, Clone)]
pub struct TenantApnsUpdateParams {
    pub apns_topic: String,
}

impl Tenant {
    /// The certificate-mode row of the decision table: topic, blob and
    /// password must all be present.
    pub open spec fn certificate_set_complete(&self) -> bool {
        &&& self.apns_topic is Some
        &&& self.apns_certificate is Some
        &&& self.apns_certificate_password is Some
    }

    /// The token-mode row of the decision table: topic, key, key id and
    /// team id must all be present.
    pub open spec fn token_set_complete(&self) -> bool {
        &&& self.apns_topic is Some
        &&& self.apns_pkcs8_pem is Some
        &&& self.apns_key_id is Some
        &&& self.apns_team_id is Some
    }

    /// The decision table: the auth mode under which this tenant's APNs
    /// fields form one complete credential set, if any.
    pub open spec fn spec_apns_type(&self) -> Option<ApnsType> {
        match self.apns_type {
            Some(ApnsType::Certificate) => if self.certificate_set_complete() {
                Some(ApnsType::Certificate)
            } else {
                None
            },
            Some(ApnsType::Token) => if self.token_set_complete() {
                Some(ApnsType::Token)
            } else {
                None
            },
            None => None,
        }
    }

    pub open spec fn apns_supported(&self) -> bool {
        self.spec_apns_type() is Some
    }

    pub open spec fn fcm_supported(&self) -> bool {
        self.fcm_api_key is Some
    }

    /// Whether a requested kind is usable for this tenant; the no-op
    /// kind is gated by an explicit runtime flag.
    pub open spec fn supports(&self, kind: ProviderKind, allow_noop: bool) -> bool {
        match kind {
            ProviderKind::Apns => self.apns_supported(),
            ProviderKind::ApnsSandbox => self.apns_supported(),
            ProviderKind::Fcm => self.fcm_supported(),
            ProviderKind::Noop => allow_noop,
        }
    }

    /// The supported kind set, in its stable order.
    pub open spec fn spec_providers(&self, allow_noop: bool) -> Seq<ProviderKind> {
        (if self.apns_supported() {
            seq![ProviderKind::Apns, ProviderKind::ApnsSandbox]
        } else {
            Seq::<ProviderKind>::empty()
        }) + (if self.fcm_supported() {
            seq![ProviderKind::Fcm]
        } else {
            Seq::<ProviderKind>::empty()
        }) + (if allow_noop {
            seq![ProviderKind::Noop]
        } else {
            Seq::<ProviderKind>::empty()
        })
    }

    pub fn get_apns_type(&self) -> (r: Option<ApnsType>)
        ensures
            r == self.spec_apns_type(),
    {
        if let Some(apns_type) = &self.apns_type {
            match apns_type {
                ApnsType::Certificate => {
                    if self.apns_topic.is_some() && self.apns_certificate.is_some()
                        && self.apns_certificate_password.is_some() {
                        Some(ApnsType::Certificate)
                    } else {
                        None
                    }
                },
                ApnsType::Token => {
                    if self.apns_topic.is_some() && self.apns_pkcs8_pem.is_some()
                        && self.apns_key_id.is_some() && self.apns_team_id.is_some() {
                        Some(ApnsType::Token)
                    } else {
                        None
                    }
                },
            }
        } else {
            None
        }
    }

    /// Whether one requested kind is in the supported set.
    pub fn supports_kind(&self, kind: &ProviderKind, allow_noop: bool) -> (r: bool)
        ensures
            r == self.supports(*kind, allow_noop),
    {
        match kind {
            ProviderKind::Apns => self.get_apns_type().is_some(),
            ProviderKind::ApnsSandbox => self.get_apns_type().is_some(),
            ProviderKind::Fcm => self.fcm_api_key.is_some(),
            ProviderKind::Noop => allow_noop,
        }
    }

    /// The supported kind set as a list, in its stable order.
    pub fn providers(&self, allow_noop: bool) -> (v: Vec<ProviderKind>)
        ensures
            v@ == self.spec_providers(allow_noop),
    {
        let mut supported: Vec<ProviderKind> = Vec::new();
        if self.get_apns_type().is_some() {
            supported.push(ProviderKind::Apns);
            supported.push(ProviderKind::ApnsSandbox);
        }
        if self.fcm_api_key.is_some() {
            supported.push(ProviderKind::Fcm);
        }
        if allow_noop {
            supported.push(ProviderKind::Noop);
        }
        proof {
            assert(supported@ =~= self.spec_providers(allow_noop));
        }
        supported
    }

    /// The endpoint that a requested APNs kind is bound to.
    pub open spec fn endpoint_for(kind: ProviderKind) -> ApnsEndpoint {
        if kind is ApnsSandbox {
            ApnsEndpoint::Sandbox
        } else {
            ApnsEndpoint::Production
        }
    }

    /// The stored blob that materialization must base64-decode for this
    /// tenant's effective auth mode.
    pub open spec fn apns_blob(&self) -> Seq<char>
        recommends
            self.apns_supported(),
    {
        if self.spec_apns_type() == Some(ApnsType::Certificate) {
            self.apns_certificate.unwrap()@
        } else {
            self.apns_pkcs8_pem.unwrap()@
        }
    }

    /// `p` is the provider that materializing `kind` from this tenant's
    /// stored credentials must produce.
    pub open spec fn materializes(&self, kind: ProviderKind, p: Provider) -> bool {
        match kind {
            ProviderKind::Apns | ProviderKind::ApnsSandbox => {
                &&& p matches Provider::Apns(ap)
                &&& ap.endpoint == Self::endpoint_for(kind)
                &&& self.apns_topic matches Some(topic) && ap.topic@ == topic@
                &&& match self.spec_apns_type() {
                    Some(ApnsType::Certificate) => {
                        &&& ap.auth matches ApnsAuth::Certificate { certificate, password }
                        &&& Some(certificate@) == base64_decoded(self.apns_certificate.unwrap()@)
                        &&& self.apns_certificate_password matches Some(pw) && password@ == pw@
                    },
                    Some(ApnsType::Token) => {
                        &&& ap.auth matches ApnsAuth::Token { pkcs8_pem, key_id, team_id }
                        &&& Some(pkcs8_pem@) == base64_decoded(self.apns_pkcs8_pem.unwrap()@)
                        &&& self.apns_key_id matches Some(k) && key_id@ == k@
                        &&& self.apns_team_id matches Some(tm) && team_id@ == tm@
                    },
                    None => false,
                }
            },
            ProviderKind::Fcm => {
                &&& p matches Provider::Fcm(f)
                &&& self.fcm_api_key matches Some(k) && f.api_key@ == k@
            },
            ProviderKind::Noop => p matches Provider::Noop(_),
        }
    }

    /// The resolver's full outcome contract: an unsupported kind fails
    /// with `ProviderNotAvailable`; a supported APNs kind succeeds
    /// exactly when its stored blob decodes, and fails with
    /// `InvalidCredential` otherwise; a supported FCM or no-op kind
    /// always succeeds; every success is the materialized provider.
    pub open spec fn resolution_ok(
        &self,
        kind: ProviderKind,
        allow_noop: bool,
        r: Result<Provider, Error>,
    ) -> bool {
        &&& (r matches Ok(p) ==> self.supports(kind, allow_noop) && self.materializes(kind, p))
        &&& (!self.supports(kind, allow_noop) ==> (r matches Err(Error::ProviderNotAvailable(v))
            && v@ == kind.spec_str()))
        &&& (self.supports(kind, allow_noop) && (kind is Apns || kind is ApnsSandbox) ==> (
        if base64_decoded(self.apns_blob()) is Some {
            r is Ok
        } else {
            r == Err::<Provider, Error>(Error::InvalidCredential)
        }))
        &&& (self.supports(kind, allow_noop) && (kind is Fcm || kind is Noop) ==> r is Ok)
    }

    /// Materializes a ready provider for one requested kind, per the
    /// decision table and this tenant's stored credentials.
    pub fn provider(&self, provider: &ProviderKind, allow_noop: bool) -> (r: Result<
        Provider,
        Error,
    >)
        ensures
            self.resolution_ok(*provider, allow_noop, r),
    {
        if !self.supports_kind(provider, allow_noop) {
            return Err(Error::ProviderNotAvailable(provider.as_str().to_owned()));
        }
        match provider {
            ProviderKind::ApnsSandbox | ProviderKind::Apns => {
                let endpoint = match provider {
                    ProviderKind::ApnsSandbox => ApnsEndpoint::Sandbox,
                    _ => ApnsEndpoint::Production,
                };
                match self.get_apns_type() {
                    Some(ApnsType::Certificate) => {
                        match (&self.apns_certificate, &self.apns_certificate_password, &self.apns_topic) {
                            (Some(certificate), Some(password), Some(topic)) => {
                                match base64_decode(certificate.as_str()) {
                                    Ok(decoded) => Ok(Provider::Apns(ApnsProvider {
                                        endpoint,
                                        topic: topic.clone(),
                                        auth: ApnsAuth::Certificate {
                                            certificate: decoded,
                                            password: password.clone(),
                                        },
                                    })),
                                    Err(_) => Err(Error::InvalidCredential),
                                }
                            },
                            _ => Err(Error::ProviderNotAvailable(provider.as_str().to_owned())),
                        }
                    },
                    Some(ApnsType::Token) => {
                        match (&self.apns_topic, &self.apns_pkcs8_pem, &self.apns_key_id, &self.apns_team_id) {
                            (Some(topic), Some(pkcs8_pem), Some(key_id), Some(team_id)) => {
                                match base64_decode(pkcs8_pem.as_str()) {
                                    Ok(decoded) => Ok(Provider::Apns(ApnsProvider {
                                        endpoint,
                                        topic: topic.clone(),
                                        auth: ApnsAuth::Token {
                                            pkcs8_pem: decoded,
                                            key_id: key_id.clone(),
                                            team_id: team_id.clone(),
                                        },
                                    })),
                                    Err(_) => Err(Error::InvalidCredential),
                                }
                            },
                            _ => Err(Error::ProviderNotAvailable(provider.as_str().to_owned())),
                        }
                    },
                    None => Err(Error::ProviderNotAvailable(provider.as_str().to_owned())),
                }
            },
            ProviderKind::Fcm => {
                match &self.fcm_api_key {
                    Some(api_key) => Ok(Provider::Fcm(FcmProvider { api_key: api_key.clone() })),
                    None => Err(Error::ProviderNotAvailable(provider.as_str().to_owned())),
                }
            },
            ProviderKind::Noop => Ok(Provider::Noop(NoopProvider::new())),
        }
    }

    /// A freshly created tenant: the given id, no credentials.
    pub open spec fn spec_fresh(id: String, now: u64) -> Tenant {
        Tenant {
            id: id,
            fcm_api_key: None,
            apns_type: None,
            apns_topic: None,
            apns_certificate: None,
            apns_certificate_password: None,
            apns_pkcs8_pem: None,
            apns_key_id: None,
            apns_team_id: None,
            created_at: now,
            updated_at: now,
        }
    }

    /// This tenant after an id override.
    pub open spec fn spec_with_id(self, id: String, now: u64) -> Tenant {
        Tenant { id: id, updated_at: now, ..self }
    }

    /// This tenant after an FCM key rotation.
    pub open spec fn spec_with_fcm(self, key: String, now: u64) -> Tenant {
        Tenant { fcm_api_key: Some(key), updated_at: now, ..self }
    }

    /// This tenant after an APNs topic rotation.
    pub open spec fn spec_with_apns_topic(self, topic: String, now: u64) -> Tenant {
        Tenant { apns_topic: Some(topic), updated_at: now, ..self }
    }

    /// This tenant after an APNs auth rotation: the named mode's fields
    /// are set from the parameters and the other mode's fields are
    /// cleared, since the modes are mutually exclusive.
    pub open spec fn spec_with_apns_auth(self, params: TenantApnsUpdateAuth, now: u64) -> Tenant {
        match params {
            TenantApnsUpdateAuth::Certificate { apns_certificate, apns_certificate_password } => (
            Tenant {
                apns_type: Some(ApnsType::Certificate),
                apns_certificate: Some(apns_certificate),
                apns_certificate_password: Some(apns_certificate_password),
                apns_pkcs8_pem: None,
                apns_key_id: None,
                apns_team_id: None,
                updated_at: now,
                ..self
            }),
            TenantApnsUpdateAuth::Token { apns_pkcs8_pem, apns_key_id, apns_team_id } => (Tenant {
                apns_type: Some(ApnsType::Token),
                apns_pkcs8_pem: Some(apns_pkcs8_pem),
                apns_key_id: Some(apns_key_id),
                apns_team_id: Some(apns_team_id),
                apns_certificate: None,
                apns_certificate_password: None,
                updated_at: now,
                ..self
            }),
        }
    }
}

/// The single-tenant directory: one tenant, materialized once at
/// process start directly from the process configuration.
#[derive(Debug, PartialEq, Eq)]
pub struct DefaultTenantStore(pub Tenant);

impl DefaultTenantStore {
    pub fn new(config: &Config) -> (r: Result<DefaultTenantStore, Error>)
        ensures
            r == Ok::<DefaultTenantStore, Error>(DefaultTenantStore(config.spec_single_tenant())),
    {
        Ok(DefaultTenantStore(Tenant {
            id: config.default_tenant_id.clone(),
            fcm_api_key: clone_opt_string(&config.fcm_api_key),
            apns_type: config.apns_type,
            apns_topic: clone_opt_string(&config.apns_topic),
            apns_certificate: clone_opt_string(&config.apns_certificate),
            apns_certificate_password: clone_opt_string(&config.apns_certificate_password),
            apns_pkcs8_pem: clone_opt_string(&config.apns_pkcs8_pem),
            apns_key_id: clone_opt_string(&config.apns_key_id),
            apns_team_id: clone_opt_string(&config.apns_team_id),
            created_at: 0,
            updated_at: 0,
        }))
    }

    /// Returns the one configured tenant, whatever id is asked for.
    pub fn get_tenant(&self, _id: &str) -> (r: Result<Tenant, Error>)
        ensures
            r == Ok::<Tenant, Error>(self.0),
    {
        Ok(self.0.clone())
    }

    /// Unsupported in single-tenant mode: reaching this call means a
    /// multi-tenant administrative API was wired onto this directory.
    pub fn delete_tenant(&self, _id: &str) -> (r: Result<(), Error>)
        ensures
            r == Err::<(), Error>(Error::InternalUnsupportedOperation),
    {
        Err(Error::InternalUnsupportedOperation)
    }

    /// Unsupported in single-tenant mode; see `delete_tenant`.
    pub fn create_tenant(&self, _params: TenantUpdateParams) -> (r: Result<Tenant, Error>)
        ensures
            r == Err::<Tenant, Error>(Error::InternalUnsupportedOperation),
    {
        Err(Error::InternalUnsupportedOperation)
    }

    /// Unsupported in single-tenant mode; see `delete_tenant`.
    pub fn update_tenant(&self, _id: &str, _params: TenantUpdateParams) -> (r: Result<
        Tenant,
        Error,
    >)
        ensures
            r == Err::<Tenant, Error>(Error::InternalUnsupportedOperation),
    {
        Err(Error::InternalUnsupportedOperation)
    }

    /// Unsupported in single-tenant mode; see `delete_tenant`.
    pub fn update_tenant_fcm(&self, _id: &str, _params: TenantFcmUpdateParams) -> (r: Result<
        Tenant,
        Error,
    >)
        ensures
            r == Err::<Tenant, Error>(Error::InternalUnsupportedOperation),
    {
        Err(Error::InternalUnsupportedOperation)
    }

    /// Unsupported in single-tenant mode; see `delete_tenant`.
    pub fn update_tenant_apns(&self, _id: &str, _params: TenantApnsUpdateParams) -> (r: Result<
        Tenant,
        Error,
    >)
        ensures
            r == Err::<Tenant, Error>(Error::InternalUnsupportedOperation),
    {
        Err(Error::InternalUnsupportedOperation)
    }

    /// Unsupported in single-tenant mode; see `delete_tenant`.
    pub fn update_tenant_apns_auth(&self, _id: &str, _params: TenantApnsUpdateAuth) -> (r: Result<
        Tenant,
        Error,
    >)
        ensures
            r == Err::<Tenant, Error>(Error::InternalUnsupportedOperation),
    {
        Err(Error::InternalUnsupportedOperation)
    }
}

} // verus!
