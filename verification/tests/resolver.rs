use echo_server::error::Error;
use echo_server::providers::{ApnsAuth, ApnsEndpoint, Provider, ProviderKind};
use echo_server::tenant::{ApnsType, Tenant};

fn bare_tenant(id: &str) -> Tenant {
    Tenant {
        id: id.to_string(),
        fcm_api_key: None,
        apns_type: None,
        apns_topic: None,
        apns_certificate: None,
        apns_certificate_password: None,
        apns_pkcs8_pem: None,
        apns_key_id: None,
        apns_team_id: None,
        created_at: 0,
        updated_at: 0,
    }
}

fn certificate_tenant() -> Tenant {
    let mut t = bare_tenant("cert-tenant");
    t.apns_type = Some(ApnsType::Certificate);
    t.apns_topic = Some("com.example.app".to_string());
    // "hello" in standard base64
    t.apns_certificate = Some("aGVsbG8=".to_string());
    t.apns_certificate_password = Some("password123".to_string());
    t
}

#[test]
fn resolve_apns_certificate_mode() {
    let t = certificate_tenant();
    assert_eq!(t.get_apns_type(), Some(ApnsType::Certificate));
    let p = t.provider(&ProviderKind::Apns, false).expect("resolution failed");
    match p {
        Provider::Apns(ap) => {
            assert_eq!(ap.endpoint, ApnsEndpoint::Production);
            assert_eq!(ap.topic, "com.example.app");
            match ap.auth {
                ApnsAuth::Certificate { certificate, password } => {
                    assert_eq!(certificate, b"hello".to_vec());
                    assert_eq!(password, "password123");
                },
                _ => panic!("expected certificate auth"),
            }
        },
        _ => panic!("expected an APNs provider"),
    }
}

#[test]
fn resolve_apns_sandbox_endpoint() {
    let t = certificate_tenant();
    let p = t.provider(&ProviderKind::ApnsSandbox, false).expect("resolution failed");
    match p {
        Provider::Apns(ap) => assert_eq!(ap.endpoint, ApnsEndpoint::Sandbox),
        _ => panic!("expected an APNs provider"),
    }
}

#[test]
fn resolve_apns_token_mode() {
    let mut t = bare_tenant("token-tenant");
    t.apns_type = Some(ApnsType::Token);
    t.apns_topic = Some("com.example.app".to_string());
    // "secret" in standard base64
    t.apns_pkcs8_pem = Some("c2VjcmV0".to_string());
    t.apns_key_id = Some("123".to_string());
    t.apns_team_id = Some("456".to_string());
    assert_eq!(t.get_apns_type(), Some(ApnsType::Token));
    let p = t.provider(&ProviderKind::Apns, false).expect("resolution failed");
    match p {
        Provider::Apns(ap) => match ap.auth {
            ApnsAuth::Token { pkcs8_pem, key_id, team_id } => {
                assert_eq!(pkcs8_pem, b"secret".to_vec());
                assert_eq!(key_id, "123");
                assert_eq!(team_id, "456");
            },
            _ => panic!("expected token auth"),
        },
        _ => panic!("expected an APNs provider"),
    }
}

#[test]
fn resolve_apns_partial_set_not_available() {
    // A discriminator with an incomplete field set means "APNs not
    // configured", surfaced as ProviderNotAvailable on request.
    let mut t = bare_tenant("partial-tenant");
    t.apns_type = Some(ApnsType::Certificate);
    t.apns_topic = Some("com.example.app".to_string());
    // certificate password missing
    t.apns_certificate = Some("aGVsbG8=".to_string());
    assert_eq!(t.get_apns_type(), None);
    let res = t.provider(&ProviderKind::Apns, false);
    assert!(matches!(res, Err(Error::ProviderNotAvailable(name)) if name == "apns"));
}

#[test]
fn resolve_apns_undecodable_blob_is_invalid_credential() {
    let mut t = certificate_tenant();
    t.apns_certificate = Some("!!! not base64 !!!".to_string());
    // The field set is complete, so this is not ProviderNotAvailable.
    assert_eq!(t.get_apns_type(), Some(ApnsType::Certificate));
    let res = t.provider(&ProviderKind::Apns, false);
    assert!(matches!(res, Err(Error::InvalidCredential)));
}

#[test]
fn resolve_fcm() {
    let mut t = bare_tenant("fcm-tenant");
    t.fcm_api_key = Some("K".to_string());
    let p = t.provider(&ProviderKind::Fcm, false).expect("resolution failed");
    match p {
        Provider::Fcm(f) => assert_eq!(f.api_key, "K"),
        _ => panic!("expected an FCM provider"),
    }
}

#[test]
fn resolve_fcm_without_key_not_available() {
    let t = bare_tenant("no-fcm-tenant");
    let res = t.provider(&ProviderKind::Fcm, false);
    assert!(matches!(res, Err(Error::ProviderNotAvailable(name)) if name == "fcm"));
}

#[test]
fn resolve_noop_gated_by_flag() {
    let t = bare_tenant("noop-tenant");
    assert!(matches!(t.provider(&ProviderKind::Noop, true), Ok(Provider::Noop(_))));
    assert!(matches!(
        t.provider(&ProviderKind::Noop, false),
        Err(Error::ProviderNotAvailable(name)) if name == "noop"
    ));
}

#[test]
fn supported_providers_listing() {
    let mut t = certificate_tenant();
    t.fcm_api_key = Some("K".to_string());
    assert_eq!(
        t.providers(false),
        vec![ProviderKind::Apns, ProviderKind::ApnsSandbox, ProviderKind::Fcm]
    );
    assert_eq!(
        t.providers(true),
        vec![ProviderKind::Apns, ProviderKind::ApnsSandbox, ProviderKind::Fcm, ProviderKind::Noop]
    );
    assert_eq!(bare_tenant("empty").providers(false), vec![]);
}

#[test]
fn apns_type_names() {
    assert_eq!(ApnsType::Certificate.as_str(), "certificate");
    assert_eq!(ApnsType::Token.as_str(), "token");
    assert_eq!(ApnsType::from_str("certificate"), Ok(ApnsType::Certificate));
    assert_eq!(ApnsType::from_str("CERTIFICATE"), Ok(ApnsType::Certificate));
    assert_eq!(ApnsType::from_str("Token"), Ok(ApnsType::Token));
    assert!(matches!(
        ApnsType::from_str("something-else"),
        Err(Error::InvalidApnsType(v)) if v == "something-else"
    ));
}

#[test]
fn provider_kind_names() {
    assert_eq!(ProviderKind::Apns.as_str(), "apns");
    assert_eq!(ProviderKind::ApnsSandbox.as_str(), "apns-sandbox");
    assert_eq!(ProviderKind::Fcm.as_str(), "fcm");
    assert_eq!(ProviderKind::Noop.as_str(), "noop");
    assert_eq!(ProviderKind::from_str("apns"), Ok(ProviderKind::Apns));
    assert_eq!(ProviderKind::from_str("apns-sandbox"), Ok(ProviderKind::ApnsSandbox));
    assert!(matches!(
        ProviderKind::from_str("smoke-signal"),
        Err(Error::ProviderNotAvailable(v)) if v == "smoke-signal"
    ));
}
