use echo_server::registry::TenantRegistry;
use echo_server::tenant::{
    ApnsType,
    TenantApnsUpdateAuth,
    TenantApnsUpdateParams,
    TenantFcmUpdateParams,
    TenantUpdateParams,
};

#[test]
fn test_tenant_creation() {
    let mut tenants = TenantRegistry::new();
    let res = tenants.create_tenant(TenantUpdateParams { id: "tenant-a".to_string() });
    assert!(res.is_ok())
}

#[test]
fn test_tenant_update() {
    let mut tenants = TenantRegistry::new();
    let tenant = tenants
        .create_tenant(TenantUpdateParams { id: "tenant-b".to_string() })
        .expect("creation failed");

    let res = tenants.update_tenant(&tenant.id, TenantUpdateParams { id: "tenant-c".to_string() });

    assert!(res.is_ok())
}

#[test]
fn test_tenant_fcm() {
    let mut tenants = TenantRegistry::new();
    let tenant = tenants
        .create_tenant(TenantUpdateParams { id: "tenant-d".to_string() })
        .expect("creation failed");

    let res = tenants.update_tenant_fcm(&tenant.id, TenantFcmUpdateParams {
        fcm_api_key: "test-api-key".to_string(),
    });

    assert!(res.is_ok())
}

#[test]
fn test_tenant_apns() {
    let mut tenants = TenantRegistry::new();
    let tenant = tenants
        .create_tenant(TenantUpdateParams { id: "tenant-e".to_string() })
        .expect("creation failed");

    let res = tenants.update_tenant_apns(&tenant.id, TenantApnsUpdateParams {
        apns_topic: "com.walletconect.exampleapp".to_string(),
    });

    assert!(res.is_ok())
}

#[test]
fn test_tenant_apns_certificate_auth() {
    let mut tenants = TenantRegistry::new();
    let tenant = tenants
        .create_tenant(TenantUpdateParams { id: "tenant-f".to_string() })
        .expect("creation failed");

    let res = tenants.update_tenant_apns_auth(&tenant.id, TenantApnsUpdateAuth::Certificate {
        apns_certificate: "example-certificate-string".to_string(),
        apns_certificate_password: "password123".to_string(),
    });

    assert!(res.is_ok())
}

#[test]
fn test_tenant_apns_token_auth() {
    let mut tenants = TenantRegistry::new();
    let tenant = tenants
        .create_tenant(TenantUpdateParams { id: "tenant-g".to_string() })
        .expect("creation failed");

    let res = tenants.update_tenant_apns_auth(&tenant.id, TenantApnsUpdateAuth::Token {
        apns_pkcs8_pem: "example-pem-string".to_string(),
        apns_key_id: "123".to_string(),
        apns_team_id: "456".to_string(),
    });

    assert!(res.is_ok())
}

#[test]
fn test_tenant_get_after_create() {
    let mut tenants = TenantRegistry::new();
    tenants.create_tenant(TenantUpdateParams { id: "tenant-h".to_string() }).expect(
        "creation failed",
    );
    let fetched = tenants.get_tenant("tenant-h").expect("lookup failed");
    assert_eq!(fetched.id, "tenant-h");
    assert!(fetched.fcm_api_key.is_none());
    assert!(fetched.apns_type.is_none());
}

#[test]
fn test_tenant_get_missing_id() {
    let tenants = TenantRegistry::new();
    let res = tenants.get_tenant("nobody");
    assert!(matches!(res, Err(echo_server::error::Error::InvalidTenantId(id)) if id == "nobody"));
}

#[test]
fn test_tenant_duplicate_creation_rejected() {
    let mut tenants = TenantRegistry::new();
    tenants.create_tenant(TenantUpdateParams { id: "tenant-i".to_string() }).expect(
        "creation failed",
    );
    let res = tenants.create_tenant(TenantUpdateParams { id: "tenant-i".to_string() });
    assert!(matches!(res, Err(echo_server::error::Error::Store(_))));
}

#[test]
fn test_tenant_apns_auth_switch_clears_other_mode() {
    let mut tenants = TenantRegistry::new();
    tenants.create_tenant(TenantUpdateParams { id: "tenant-j".to_string() }).expect(
        "creation failed",
    );
    tenants
        .update_tenant_apns_auth("tenant-j", TenantApnsUpdateAuth::Token {
            apns_pkcs8_pem: "example-pem-string".to_string(),
            apns_key_id: "123".to_string(),
            apns_team_id: "456".to_string(),
        })
        .expect("token auth failed");

    // Switching to certificate mode must clear every token-mode field.
    let updated = tenants
        .update_tenant_apns_auth("tenant-j", TenantApnsUpdateAuth::Certificate {
            apns_certificate: "example-certificate-string".to_string(),
            apns_certificate_password: "password123".to_string(),
        })
        .expect("certificate auth failed");

    assert_eq!(updated.apns_type, Some(ApnsType::Certificate));
    assert_eq!(updated.apns_certificate.as_deref(), Some("example-certificate-string"));
    assert_eq!(updated.apns_certificate_password.as_deref(), Some("password123"));
    assert!(updated.apns_pkcs8_pem.is_none());
    assert!(updated.apns_key_id.is_none());
    assert!(updated.apns_team_id.is_none());

    let fetched = tenants.get_tenant("tenant-j").expect("lookup failed");
    assert_eq!(fetched, updated);
}

#[test]
fn test_tenant_delete() {
    let mut tenants = TenantRegistry::new();
    tenants.create_tenant(TenantUpdateParams { id: "tenant-k".to_string() }).expect(
        "creation failed",
    );
    tenants.delete_tenant("tenant-k").expect("deletion failed");
    assert!(tenants.get_tenant("tenant-k").is_err());
}

#[test]
fn test_tenant_update_id_collision_rejected() {
    let mut tenants = TenantRegistry::new();
    tenants.create_tenant(TenantUpdateParams { id: "tenant-l".to_string() }).expect(
        "creation failed",
    );
    tenants.create_tenant(TenantUpdateParams { id: "tenant-m".to_string() }).expect(
        "creation failed",
    );
    let res = tenants.update_tenant("tenant-l", TenantUpdateParams { id: "tenant-m".to_string() });
    assert!(matches!(res, Err(echo_server::error::Error::Store(_))));
    // Both originals are still there.
    assert!(tenants.get_tenant("tenant-l").is_ok());
    assert!(tenants.get_tenant("tenant-m").is_ok());
}
