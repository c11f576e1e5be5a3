//! The library-wide laws: what the resolver's decision table, the
//! ledger's dedup rule, the pipeline, the id-prefix stripping and the
//! APNs auth rotation guarantee across calls.

use vstd::prelude::*;
use crate::b64::base64_decoded;
use crate::clients::ClientRegistry;
use crate::error::Error;
use crate::ledger::{NotificationLedger, NotificationView};
use crate::payload::{MessagePayload, PushMessageBody, RegisterBody};
use crate::pipeline::{push_step, register_step, PushPlan};
use crate::providers::{Provider, ProviderKind};
use crate::registry::TenantRegistry;
use crate::store::TenantStore;
use crate::strutil::{did_prefix, lemma_strip_did_prefix_of, spec_strip_did};
use crate::tenant::{ApnsType, Tenant, TenantApnsUpdateAuth};

verus! {

/// Law: resolving an APNs kind for any tenant fails with
/// `ProviderNotAvailable` exactly when the stored APNs fields form no
/// complete credential set per the decision table — any partial set
/// included — and otherwise succeeds, or fails with
/// `InvalidCredential` exactly when the complete set's blob does not
/// decode.
pub proof fn lemma_apns_resolution_decision_table(
    t: Tenant,
    kind: ProviderKind,
    allow_noop: bool,
    r: Result<Provider, Error>,
)
    requires
        t.resolution_ok(kind, allow_noop, r),
        kind is Apns || kind is ApnsSandbox,
    ensures
        (t.spec_apns_type() is None) <==> (r matches Err(Error::ProviderNotAvailable(_))),
        t.spec_apns_type() is Some && base64_decoded(t.apns_blob()) is Some ==> r is Ok,
        t.spec_apns_type() is Some && base64_decoded(t.apns_blob()) is None ==> r == Err::<
            Provider,
            Error,
        >(Error::InvalidCredential),
{
}

/// Law: submitting the same notification id twice dispatches at most
/// once — whenever the first submission yields a dispatch, the second
/// returns the dedup short-circuit, and never a second dispatch.
pub proof fn lemma_duplicate_submission_not_redispatched(
    store: TenantStore,
    clients: ClientRegistry,
    l0: NotificationLedger,
    l1: NotificationLedger,
    l2: NotificationLedger,
    tenant_id: Seq<char>,
    client_id: Seq<char>,
    body: PushMessageBody,
    allow_noop: bool,
    r1: Result<PushPlan, Error>,
    r2: Result<PushPlan, Error>,
)
    requires
        push_step(store, clients, l0, l1, tenant_id, client_id, body, allow_noop, r1),
        push_step(store, clients, l1, l2, tenant_id, client_id, body, allow_noop, r2),
    ensures
        r1 matches Ok(PushPlan::Dispatch { .. }) ==> r2 == Ok::<PushPlan, Error>(
            PushPlan::AlreadyProcessed,
        ),
        !((r1 matches Ok(PushPlan::Dispatch { .. })) && (r2 matches Ok(
            PushPlan::Dispatch { .. },
        ))),
{
    if r1 matches Ok(PushPlan::Dispatch { .. }) {
        let cid = spec_strip_did(client_id);
        assert(clients.has_client(tenant_id, cid));
        assert(l1.has_notification(tenant_id, body.id@));
        assert(r2 == Ok::<PushPlan, Error>(PushPlan::AlreadyProcessed));
    }
}

/// Law: two submissions of the same notification id against a ledger
/// that has never seen it — in whichever order the store serializes
/// them — have exactly one of them observe history length 1 (and
/// dispatch) while the other observes length 2 (and must not).
pub proof fn lemma_concurrent_same_id_single_first(
    l0: NotificationLedger,
    l1: NotificationLedger,
    l2: NotificationLedger,
    tenant_id: Seq<char>,
    notification_id: Seq<char>,
    client_id1: Seq<char>,
    client_id2: Seq<char>,
    p1: MessagePayload,
    p2: MessagePayload,
    rv1: NotificationView,
    rv2: NotificationView,
)
    requires
        !l0.has_notification(tenant_id, notification_id),
        NotificationLedger::record_step(l0, l1, tenant_id, notification_id, client_id1, p1, rv1),
        NotificationLedger::record_step(l1, l2, tenant_id, notification_id, client_id2, p2, rv2),
    ensures
        rv1.previous_payloads.len() == 1,
        rv2.previous_payloads.len() == 2,
        (rv1.previous_payloads.len() == 1) != (rv2.previous_payloads.len() == 1),
{
    assert(rv1.previous_payloads == seq![p1]);
    assert(l1.has_notification(tenant_id, notification_id));
    assert(l1.record_for(tenant_id, notification_id) == rv1);
    assert(rv2.previous_payloads == rv1.previous_payloads.push(p2));
}

/// Law: a client id registered with the decentralized-identifier
/// prefix and the same id registered bare resolve to the same stored
/// client key under the same tenant.
pub proof fn lemma_did_prefix_same_stored_client(
    pre1: ClientRegistry,
    post1: ClientRegistry,
    pre2: ClientRegistry,
    post2: ClientRegistry,
    tenant: Tenant,
    tenant_id: Seq<char>,
    bare: RegisterBody,
    prefixed: RegisterBody,
    allow_noop: bool,
    r1: Result<crate::response::Response, Error>,
    r2: Result<crate::response::Response, Error>,
)
    requires
        register_step(pre1, post1, tenant, tenant_id, bare, allow_noop, r1),
        register_step(pre2, post2, tenant, tenant_id, prefixed, allow_noop, r2),
        prefixed.client_id@ == did_prefix() + bare.client_id@,
        r1 is Ok,
        r2 is Ok,
    ensures
        spec_strip_did(prefixed.client_id@) == spec_strip_did(bare.client_id@),
        post1.has_client(tenant_id, spec_strip_did(bare.client_id@)),
        post2.has_client(tenant_id, spec_strip_did(bare.client_id@)),
{
    lemma_strip_did_prefix_of(bare.client_id@);
}

/// Law: after switching a stored tenant to certificate-mode APNs auth,
/// reading it back yields exactly the given certificate and password,
/// the mode discriminator set to certificate, and every token-mode
/// field cleared.
pub proof fn lemma_apns_auth_certificate_round_trip(
    pre: TenantRegistry,
    post: TenantRegistry,
    id: Seq<char>,
    cert: String,
    pw: String,
    r: Result<Tenant, Error>,
)
    requires
        pre.wf(),
        pre.has_tenant(id),
        TenantRegistry::apns_auth_update_step(
            pre,
            post,
            id,
            TenantApnsUpdateAuth::Certificate {
                apns_certificate: cert,
                apns_certificate_password: pw,
            },
            r,
        ),
    ensures
        post.has_tenant(id),
        post.tenant_for(id).apns_type == Some(ApnsType::Certificate),
        post.tenant_for(id).apns_certificate == Some(cert),
        post.tenant_for(id).apns_certificate_password == Some(pw),
        post.tenant_for(id).apns_pkcs8_pem is None,
        post.tenant_for(id).apns_key_id is None,
        post.tenant_for(id).apns_team_id is None,
        r == Ok::<Tenant, Error>(post.tenant_for(id)),
{
    let i = pre.index_of(id);
    assert(0 <= i < pre.records().len() && pre.records()[i].id@ == id);
    pre.lemma_at_index(i);
    assert(post.records()[i].id@ == id);
    post.lemma_at_index(i);
}

/// Law: the mirror of the certificate round trip — switching to
/// token-mode auth stores exactly the given key material and clears
/// every certificate-mode field.
pub proof fn lemma_apns_auth_token_round_trip(
    pre: TenantRegistry,
    post: TenantRegistry,
    id: Seq<char>,
    pem: String,
    key_id: String,
    team_id: String,
    r: Result<Tenant, Error>,
)
    requires
        pre.wf(),
        pre.has_tenant(id),
        TenantRegistry::apns_auth_update_step(
            pre,
            post,
            id,
            TenantApnsUpdateAuth::Token {
                apns_pkcs8_pem: pem,
                apns_key_id: key_id,
                apns_team_id: team_id,
            },
            r,
        ),
    ensures
        post.has_tenant(id),
        post.tenant_for(id).apns_type == Some(ApnsType::Token),
        post.tenant_for(id).apns_pkcs8_pem == Some(pem),
        post.tenant_for(id).apns_key_id == Some(key_id),
        post.tenant_for(id).apns_team_id == Some(team_id),
        post.tenant_for(id).apns_certificate is None,
        post.tenant_for(id).apns_certificate_password is None,
        r == Ok::<Tenant, Error>(post.tenant_for(id)),
{
    let i = pre.index_of(id);
    assert(0 <= i < pre.records().len() && pre.records()[i].id@ == id);
    pre.lemma_at_index(i);
    assert(post.records()[i].id@ == id);
    post.lemma_at_index(i);
}

} // verus!
