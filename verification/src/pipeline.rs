//! The dispatch pipeline: the orchestration for one client
//! registration and one push submission. The push pipeline performs
//! every gate and decision — client lookup, the atomic ledger write,
//! the dedup rule, tenant lookup and provider materialization — and
//! hands back either a dedup short-circuit or one dispatch obligation;
//! the network send itself happens outside the core.

use vstd::prelude::*;
use crate::b64::base64_decoded;
use crate::clients::{Client, ClientRegistry};
use crate::error::Error;
use crate::ledger::NotificationLedger;
use crate::payload::{MessagePayload, PushMessageBody, RegisterBody};
use crate::providers::{spec_kind_of, Provider, ProviderKind};
use crate::response::{Response, ResponseStatus};
use crate::store::TenantStore;
use crate::strutil::{spec_strip_did, strip_did_prefix};
use crate::tenant::Tenant;

verus! {

/// What one accepted submission obliges the caller to do: nothing more
/// (the id was already seen), or one send of the payload to the
/// client's destination token through the materialized provider.
#[derive(Debug)]
pub enum PushPlan {
    AlreadyProcessed,
    Dispatch { provider: Provider, token: String, payload: MessagePayload },
}

impl PushPlan {
    /// The status of the success envelope: 200 for a duplicate
    /// short-circuit, 202 for a first-time dispatch.
    pub open spec fn spec_status(&self) -> u16 {
        match self {
            PushPlan::AlreadyProcessed => 200,
            PushPlan::Dispatch { .. } => 202,
        }
    }

    pub fn response(&self) -> (r: Response)
        ensures
            r.status == ResponseStatus::Success,
            r.status_code == self.spec_status(),
            r.errors is None,
            r.fields is None,
    {
        match self {
            PushPlan::AlreadyProcessed => Response::new_success(200),
            PushPlan::Dispatch { .. } => Response::new_success(202),
        }
    }
}

/// What registering one client does: an unknown kind name, a kind the
/// tenant does not support, and an empty token are each rejected with
/// the store untouched; otherwise the client is stored under the
/// tenant and the prefix-stripped id, with every other registration
/// kept.
pub open spec fn register_step(
    pre: ClientRegistry,
    post: ClientRegistry,
    tenant: Tenant,
    tenant_id: Seq<char>,
    body: RegisterBody,
    allow_noop: bool,
    r: Result<Response, Error>,
) -> bool {
    let cid = spec_strip_did(body.client_id@);
    &&& post.wf()
    &&& (spec_kind_of(body.push_type@) is None ==> ((r matches Err(Error::ProviderNotAvailable(v))
        && v@ == body.push_type@) && post == pre))
    &&& (spec_kind_of(body.push_type@) matches Some(k) ==> {
        if !tenant.supports(k, allow_noop) {
            (r matches Err(Error::ProviderNotAvailable(v)) && v@ == k.spec_str()) && post == pre
        } else if body.token@.len() == 0 {
            (r matches Err(Error::EmptyField(f)) && f@ == "token"@) && post == pre
        } else {
            &&& (r matches Ok(resp) && resp.status == ResponseStatus::Success && resp.status_code
                == 200)
            &&& post.has_client(tenant_id, cid)
            &&& post.client_for(tenant_id, cid).push_type == k
            &&& post.client_for(tenant_id, cid).token == body.token
            &&& (forall|t: Seq<char>, c: Seq<char>|
                (t, c) != (tenant_id, cid) ==> #[trigger] post.has_client(t, c) == pre.has_client(
                    t,
                    c,
                ))
            &&& (forall|t: Seq<char>, c: Seq<char>|
                (t, c) != (tenant_id, cid) && pre.has_client(t, c) ==> #[trigger] post.client_for(
                    t,
                    c,
                ) == pre.client_for(t, c))
        }
    })
}

/// Registers one client for a tenant: the push type must name a kind
/// the tenant supports, the token must be non-empty, and the client id
/// is stored with its decentralized-identifier prefix stripped.
pub fn register_client(
    clients: &mut ClientRegistry,
    tenant: &Tenant,
    tenant_id: &str,
    body: RegisterBody,
    allow_noop: bool,
) -> (r: Result<Response, Error>)
    requires
        old(clients).wf(),
    ensures
        register_step(*old(clients), *final(clients), *tenant, tenant_id@, body, allow_noop, r),
{
    let push_type = match ProviderKind::from_str(body.push_type.as_str()) {
        Ok(k) => k,
        Err(e) => {
            return Err(e);
        },
    };
    if !tenant.supports_kind(&push_type, allow_noop) {
        return Err(Error::ProviderNotAvailable(push_type.as_str().to_owned()));
    }
    if body.token.as_str().is_empty() {
        return Err(Error::EmptyField("token".to_owned()));
    }
    let client_id = strip_did_prefix(body.client_id.as_str());
    let client = Client { push_type, token: body.token };
    match clients.create_client(tenant_id, client_id.as_str(), client) {
        Ok(()) => Ok(Response::default()),
        Err(e) => Err(e),
    }
}

/// What one push submission does. A missing client is rejected with
/// the ledger untouched. Once the client is found, the submission is
/// recorded atomically whatever else happens; an id already seen
/// short-circuits to success with no dispatch; a first submission is
/// dispatched through the tenant's materialized provider, or rejected
/// by the directory or the resolver with the ledger record kept.
pub open spec fn push_step(
    store: TenantStore,
    clients: ClientRegistry,
    pre: NotificationLedger,
    post: NotificationLedger,
    tenant_id: Seq<char>,
    client_id: Seq<char>,
    body: PushMessageBody,
    allow_noop: bool,
    r: Result<PushPlan, Error>,
) -> bool {
    let cid = spec_strip_did(client_id);
    &&& post.wf()
    &&& (!clients.has_client(tenant_id, cid) ==> (r == Err::<PushPlan, Error>(
        Error::ClientNotFound,
    ) && post == pre))
    &&& (clients.has_client(tenant_id, cid) ==> {
        let client = clients.client_for(tenant_id, cid);
        let nid = body.id@;
        &&& NotificationLedger::record_step(
            pre,
            post,
            tenant_id,
            nid,
            cid,
            body.payload,
            post.record_for(tenant_id, nid),
        )
        &&& (pre.has_notification(tenant_id, nid) ==> r == Ok::<PushPlan, Error>(
            PushPlan::AlreadyProcessed,
        ))
        &&& (!pre.has_notification(tenant_id, nid) ==> (match store.spec_get(tenant_id) {
            Option::None => (r matches Err(Error::InvalidTenantId(v)) && v@ == tenant_id),
            Option::Some(t) => {
                &&& (r matches Ok(p) ==> (p matches PushPlan::Dispatch { provider, token, payload }
                    && t.supports(client.push_type, allow_noop) && t.materializes(
                    client.push_type,
                    provider,
                ) && token == client.token && payload == body.payload))
                &&& (!t.supports(client.push_type, allow_noop) ==> (r matches Err(
                    Error::ProviderNotAvailable(v),
                ) && v@ == client.push_type.spec_str()))
                &&& (t.supports(client.push_type, allow_noop) && (client.push_type is Apns
                    || client.push_type is ApnsSandbox) ==> (
                if base64_decoded(t.apns_blob()) is Some {
                    r is Ok
                } else {
                    r == Err::<PushPlan, Error>(Error::InvalidCredential)
                }))
                &&& (t.supports(client.push_type, allow_noop) && (client.push_type is Fcm
                    || client.push_type is Noop) ==> r is Ok)
            },
        }))
    })
}

/// Processes one push submission through every gate of the pipeline.
pub fn process_push_message(
    store: &TenantStore,
    clients: &ClientRegistry,
    ledger: &mut NotificationLedger,
    tenant_id: &str,
    client_id: &str,
    body: &PushMessageBody,
    allow_noop: bool,
) -> (r: Result<PushPlan, Error>)
    requires
        store.wf(),
        clients.wf(),
        old(ledger).wf(),
    ensures
        push_step(
            *store,
            *clients,
            *old(ledger),
            *final(ledger),
            tenant_id@,
            client_id@,
            *body,
            allow_noop,
            r,
        ),
{
    let stripped = strip_did_prefix(client_id);
    let client = match clients.get_client(tenant_id, stripped.as_str()) {
        Ok(c) => c,
        Err(e) => {
            return Err(e);
        },
    };
    let record = ledger.record_attempt(
        tenant_id,
        body.id.as_str(),
        stripped.as_str(),
        &body.payload,
    );
    if record.previous_payloads.len() > 1 {
        return Ok(PushPlan::AlreadyProcessed);
    }
    let tenant = match store.get_tenant(tenant_id) {
        Ok(t) => t,
        Err(e) => {
            return Err(e);
        },
    };
    let provider = match tenant.provider(&client.push_type, allow_noop) {
        Ok(p) => p,
        Err(e) => {
            return Err(e);
        },
    };
    Ok(PushPlan::Dispatch { provider, token: client.token, payload: body.payload.clone() })
}

} // verus!
