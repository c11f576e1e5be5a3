use echo_server::config::{
    default_cors_allowed_origins,
    default_disable_header,
    default_is_test,
    default_log_level,
    default_log_level_otel,
    default_port,
    default_relay_url,
    default_tenant_id,
    default_validate_signatures,
    Config,
};
use echo_server::error::Error;
use echo_server::providers::ProviderKind;
use echo_server::tenant::ApnsType;

fn base_config() -> Config {
    Config {
        port: default_port(),
        public_url: "https://push.example.com".to_string(),
        log_level: default_log_level(),
        log_level_otel: default_log_level_otel(),
        disable_header: default_disable_header(),
        relay_url: default_relay_url(),
        validate_signatures: default_validate_signatures(),
        database_url: "postgres://db/main".to_string(),
        tenant_database_url: None,
        default_tenant_id: default_tenant_id(),
        is_test: default_is_test(),
        allow_noop_provider: false,
        cors_allowed_origins: default_cors_allowed_origins(),
        otel_exporter_otlp_endpoint: None,
        telemetry_prometheus_port: None,
        apns_type: None,
        apns_topic: None,
        apns_certificate: None,
        apns_certificate_password: None,
        apns_pkcs8_pem: None,
        apns_key_id: None,
        apns_team_id: None,
        fcm_api_key: None,
    }
}

#[test]
fn defaults_have_expected_values() {
    assert_eq!(default_port(), 3000);
    assert_eq!(default_log_level(), "info,echo_server=info");
    assert_eq!(default_log_level_otel(), "info,echo_server=trace");
    assert!(!default_disable_header());
    assert!(default_validate_signatures());
    assert_eq!(default_relay_url(), "https://relay.walletconnect.com");
    assert_eq!(default_tenant_id(), "0000-0000-0000-0000");
    assert!(!default_is_test());
    assert_eq!(default_cors_allowed_origins(), vec!["*".to_string()]);
}

#[test]
fn multi_tenant_config_is_valid() {
    let mut c = base_config();
    c.tenant_database_url = Some("postgres://db/tenants".to_string());
    assert!(c.is_valid().is_ok());
}

#[test]
fn single_tenant_fcm_config_is_valid() {
    let mut c = base_config();
    c.fcm_api_key = Some("K".to_string());
    assert!(c.is_valid().is_ok());
    assert_eq!(c.single_tenant_supported_providers(), vec![ProviderKind::Fcm]);
}

#[test]
fn config_without_database_or_credentials_is_invalid() {
    let c = base_config();
    assert!(matches!(c.is_valid(), Err(Error::InvalidConfiguration(_))));
}

#[test]
fn tenant_database_and_provider_keys_together_are_invalid() {
    // Both a tenant database and a directly configured FCM key: the
    // two directory variants would be ambiguously selectable.
    let mut c = base_config();
    c.tenant_database_url = Some("postgres://db/tenants".to_string());
    c.fcm_api_key = Some("K".to_string());
    assert!(matches!(c.is_valid(), Err(Error::InvalidConfiguration(_))));
}

#[test]
fn tenant_database_equal_to_primary_is_invalid() {
    let mut c = base_config();
    c.tenant_database_url = Some("postgres://db/main".to_string());
    assert!(matches!(c.is_valid(), Err(Error::InvalidConfiguration(_))));
}

#[test]
fn partial_apns_set_is_invalid_configuration() {
    let mut c = base_config();
    c.tenant_database_url = Some("postgres://db/tenants".to_string());
    c.apns_type = Some(ApnsType::Certificate);
    c.apns_topic = Some("com.example.app".to_string());
    // certificate and password missing
    assert!(matches!(c.get_apns_type(), Err(Error::InvalidConfiguration(_))));
    assert!(matches!(c.is_valid(), Err(Error::InvalidConfiguration(_))));
}

#[test]
fn complete_apns_certificate_config_is_supported() {
    let mut c = base_config();
    c.apns_type = Some(ApnsType::Certificate);
    c.apns_topic = Some("com.example.app".to_string());
    c.apns_certificate = Some("aGVsbG8=".to_string());
    c.apns_certificate_password = Some("password123".to_string());
    assert_eq!(c.get_apns_type(), Ok(ApnsType::Certificate));
    assert_eq!(
        c.single_tenant_supported_providers(),
        vec![ProviderKind::Apns, ProviderKind::ApnsSandbox]
    );
    assert!(c.is_valid().is_ok());
}

#[test]
fn no_apns_configured_reported_distinctly() {
    let c = base_config();
    assert!(matches!(c.get_apns_type(), Err(Error::NoApnsConfigured)));
}

#[test]
fn noop_provider_needs_flag_and_single_tenant_mode() {
    let mut c = base_config();
    c.fcm_api_key = Some("K".to_string());
    c.allow_noop_provider = true;
    assert_eq!(
        c.single_tenant_supported_providers(),
        vec![ProviderKind::Fcm, ProviderKind::Noop]
    );
    // With a tenant database the no-op kind is never offered.
    c.fcm_api_key = None;
    c.tenant_database_url = Some("postgres://db/tenants".to_string());
    assert_eq!(c.single_tenant_supported_providers(), vec![]);
}

#[test]
fn default_store_mirrors_config_credentials() {
    let mut c = base_config();
    c.fcm_api_key = Some("K".to_string());
    let store = echo_server::tenant::DefaultTenantStore::new(&c).expect("store creation failed");
    let t = store.get_tenant("anything").expect("lookup failed");
    assert_eq!(t.id, "0000-0000-0000-0000");
    assert_eq!(t.fcm_api_key.as_deref(), Some("K"));
}
