use echo_server::clients::ClientRegistry;
use echo_server::error::Error;
use echo_server::ledger::NotificationLedger;
use echo_server::payload::{MessagePayload, PushMessageBody, RegisterBody};
use echo_server::pipeline::{process_push_message, register_client, PushPlan};
use echo_server::providers::{Provider, ProviderKind};
use echo_server::registry::TenantRegistry;
use echo_server::response::ResponseStatus;
use echo_server::store::TenantStore;
use echo_server::tenant::{Tenant, TenantFcmUpdateParams, TenantUpdateParams};

fn fcm_world() -> (TenantStore, ClientRegistry, NotificationLedger) {
    let mut tenants = TenantRegistry::new();
    tenants.create_tenant(TenantUpdateParams { id: "t1".to_string() }).expect("creation failed");
    tenants
        .update_tenant_fcm("t1", TenantFcmUpdateParams { fcm_api_key: "K".to_string() })
        .expect("fcm update failed");
    let store = TenantStore::Multi(tenants);

    let mut clients = ClientRegistry::new();
    let tenant = store.get_tenant("t1").expect("tenant lookup failed");
    let registered = register_client(
        &mut clients,
        &tenant,
        "t1",
        RegisterBody {
            client_id: "c1".to_string(),
            push_type: "fcm".to_string(),
            token: "tok".to_string(),
        },
        false,
    )
    .expect("registration failed");
    assert_eq!(registered.status, ResponseStatus::Success);

    (store, clients, NotificationLedger::new())
}

fn hello_body() -> PushMessageBody {
    PushMessageBody {
        id: "n1".to_string(),
        payload: MessagePayload { topic: None, flags: 0, blob: "hello".to_string() },
    }
}

#[test]
fn first_submission_dispatches_through_fcm() {
    let (store, clients, mut ledger) = fcm_world();
    let body = hello_body();
    let plan = process_push_message(&store, &clients, &mut ledger, "t1", "c1", &body, false)
        .expect("pipeline failed");
    match &plan {
        PushPlan::Dispatch { provider, token, payload } => {
            assert!(matches!(provider, Provider::Fcm(f) if f.api_key == "K"));
            assert_eq!(token, "tok");
            assert_eq!(payload.flags, 0);
            assert_eq!(payload.blob, "hello");
        },
        _ => panic!("expected a dispatch"),
    }
    assert_eq!(plan.response().status_code, 202);
}

#[test]
fn duplicate_submission_short_circuits() {
    let (store, clients, mut ledger) = fcm_world();
    let body = hello_body();
    let first = process_push_message(&store, &clients, &mut ledger, "t1", "c1", &body, false)
        .expect("pipeline failed");
    assert!(matches!(first, PushPlan::Dispatch { .. }));

    // Resubmitting the identical body succeeds without any dispatch.
    let second = process_push_message(&store, &clients, &mut ledger, "t1", "c1", &body, false)
        .expect("pipeline failed");
    assert!(matches!(second, PushPlan::AlreadyProcessed));
    assert_eq!(second.response().status_code, 200);

    // A third attempt is still suppressed.
    let third = process_push_message(&store, &clients, &mut ledger, "t1", "c1", &body, false)
        .expect("pipeline failed");
    assert!(matches!(third, PushPlan::AlreadyProcessed));
}

#[test]
fn ledger_history_counts_submissions() {
    let mut ledger = NotificationLedger::new();
    let payload = MessagePayload { topic: None, flags: 0, blob: "one".to_string() };
    let first = ledger.record_attempt("t1", "n1", "c1", &payload);
    assert_eq!(first.previous_payloads.len(), 1);

    let payload2 = MessagePayload { topic: None, flags: 0, blob: "two".to_string() };
    let second = ledger.record_attempt("t1", "n1", "c1", &payload2);
    assert_eq!(second.previous_payloads.len(), 2);
    // Arrival order is preserved, nothing truncated.
    assert_eq!(second.previous_payloads[0].blob, "one");
    assert_eq!(second.previous_payloads[1].blob, "two");

    // Exactly one of the two attempts observed history length 1.
    assert!((first.previous_payloads.len() == 1) != (second.previous_payloads.len() == 1));

    // A different notification id starts its own history.
    let other = ledger.record_attempt("t1", "n2", "c1", &payload);
    assert_eq!(other.previous_payloads.len(), 1);
}

#[test]
fn unknown_client_is_rejected_without_ledger_write() {
    let (store, clients, mut ledger) = fcm_world();
    let body = hello_body();
    let res = process_push_message(&store, &clients, &mut ledger, "t1", "ghost", &body, false);
    assert!(matches!(res, Err(Error::ClientNotFound)));
    // The rejected submission left no record, so a later real one dispatches.
    let plan = process_push_message(&store, &clients, &mut ledger, "t1", "c1", &body, false)
        .expect("pipeline failed");
    assert!(matches!(plan, PushPlan::Dispatch { .. }));
}

#[test]
fn did_prefix_and_bare_id_resolve_to_same_client() {
    let mut tenants = TenantRegistry::new();
    tenants.create_tenant(TenantUpdateParams { id: "t1".to_string() }).expect("creation failed");
    tenants
        .update_tenant_fcm("t1", TenantFcmUpdateParams { fcm_api_key: "K".to_string() })
        .expect("fcm update failed");
    let store = TenantStore::Multi(tenants);
    let tenant = store.get_tenant("t1").expect("tenant lookup failed");

    let mut clients = ClientRegistry::new();
    register_client(
        &mut clients,
        &tenant,
        "t1",
        RegisterBody {
            client_id: "did:key:abc123".to_string(),
            push_type: "fcm".to_string(),
            token: "tok-prefixed".to_string(),
        },
        false,
    )
    .expect("prefixed registration failed");

    // Registering the bare id lands on the same stored client: it
    // replaces the first registration instead of adding a second one.
    register_client(
        &mut clients,
        &tenant,
        "t1",
        RegisterBody {
            client_id: "abc123".to_string(),
            push_type: "fcm".to_string(),
            token: "tok-bare".to_string(),
        },
        false,
    )
    .expect("bare registration failed");

    let stored = clients.get_client("t1", "abc123").expect("client lookup failed");
    assert_eq!(stored.token, "tok-bare");

    // A push addressed with the prefixed id reaches that client too.
    let mut ledger = NotificationLedger::new();
    let body = hello_body();
    let plan = process_push_message(
        &store,
        &clients,
        &mut ledger,
        "t1",
        "did:key:abc123",
        &body,
        false,
    )
    .expect("pipeline failed");
    assert!(matches!(plan, PushPlan::Dispatch { token, .. } if token == "tok-bare"));
}

#[test]
fn register_unsupported_kind_rejected() {
    // A tenant with no APNs fields and no FCM key supports nothing, so
    // registering an APNs client fails with ProviderNotAvailable.
    let mut tenants = TenantRegistry::new();
    tenants.create_tenant(TenantUpdateParams { id: "t1".to_string() }).expect("creation failed");
    let store = TenantStore::Multi(tenants);
    let tenant = store.get_tenant("t1").expect("tenant lookup failed");

    let mut clients = ClientRegistry::new();
    let res = register_client(
        &mut clients,
        &tenant,
        "t1",
        RegisterBody {
            client_id: "c1".to_string(),
            push_type: "apns".to_string(),
            token: "tok".to_string(),
        },
        false,
    );
    assert!(matches!(res, Err(Error::ProviderNotAvailable(name)) if name == "apns"));
    assert!(clients.get_client("t1", "c1").is_err());
}

#[test]
fn register_empty_token_rejected() {
    let (store, _, _) = fcm_world();
    let tenant = store.get_tenant("t1").expect("tenant lookup failed");
    let mut clients = ClientRegistry::new();
    let res = register_client(
        &mut clients,
        &tenant,
        "t1",
        RegisterBody {
            client_id: "c2".to_string(),
            push_type: "fcm".to_string(),
            token: "".to_string(),
        },
        false,
    );
    assert!(matches!(res, Err(Error::EmptyField(f)) if f == "token"));
}

#[test]
fn single_tenant_store_serves_one_tenant_and_refuses_mutations() {
    let tenant = Tenant {
        id: "0000-0000-0000-0000".to_string(),
        fcm_api_key: Some("K".to_string()),
        apns_type: None,
        apns_topic: None,
        apns_certificate: None,
        apns_certificate_password: None,
        apns_pkcs8_pem: None,
        apns_key_id: None,
        apns_team_id: None,
        created_at: 0,
        updated_at: 0,
    };
    let mut store = TenantStore::Single(echo_server::tenant::DefaultTenantStore(tenant));
    // Any id yields the one configured tenant.
    let got = store.get_tenant("whoever").expect("lookup failed");
    assert_eq!(got.id, "0000-0000-0000-0000");
    // Mutations signal a deployment wiring fault.
    let res = store.create_tenant(TenantUpdateParams { id: "other".to_string() });
    assert!(matches!(res, Err(Error::InternalUnsupportedOperation)));
    let res = store.delete_tenant("whoever");
    assert!(matches!(res, Err(Error::InternalUnsupportedOperation)));
}

#[test]
fn client_delete_removes_registration() {
    let (_store, mut clients, _ledger) = fcm_world();
    assert!(clients.get_client("t1", "c1").is_ok());
    clients.delete_client("t1", "c1").expect("deletion failed");
    assert!(matches!(clients.get_client("t1", "c1"), Err(Error::ClientNotFound)));
    // Deleting again still succeeds.
    clients.delete_client("t1", "c1").expect("deletion failed");
}

#[test]
fn noop_provider_send_always_succeeds() {
    let noop = echo_server::providers::NoopProvider::new();
    let payload = MessagePayload { topic: None, flags: 0, blob: "anything".to_string() };
    assert!(noop.send_notification("any-token", &payload).is_ok());
    assert!(noop.send_notification("", &payload).is_ok());
}
