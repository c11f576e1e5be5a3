//! The tenant directory: one contract over its two variants. The
//! multi-tenant variant is the keyed registry; the single-tenant
//! variant serves one configured tenant and refuses every mutation
//! with `InternalUnsupportedOperation`, since reaching a mutation there
//! means a multi-tenant administrative API was wired onto it.

use vstd::prelude::*;
use crate::error::Error;
use crate::registry::TenantRegistry;
use crate::tenant::{
    DefaultTenantStore,
    Tenant,
    TenantApnsUpdateAuth,
    TenantApnsUpdateParams,
    TenantFcmUpdateParams,
    TenantUpdateParams,
};

verus! {

/// The directory, selected once at startup: single-tenant when no
/// tenant database is configured, multi-tenant otherwise.
pub enum TenantStore {
    Single(DefaultTenantStore),
    Multi(TenantRegistry),
}

impl TenantStore {
    pub open spec fn wf(&self) -> bool {
        match self {
            TenantStore::Single(_) => true,
            TenantStore::Multi(reg) => reg.wf(),
        }
    }

    /// The tenant an id resolves to, if any: the single-tenant variant
    /// serves its one tenant whatever the id; the multi-tenant variant
    /// serves the record under the id.
    pub open spec fn spec_get(&self, id: Seq<char>) -> Option<Tenant> {
        match self {
            TenantStore::Single(s) => Some(s.0),
            TenantStore::Multi(reg) => if reg.has_tenant(id) {
                Some(reg.tenant_for(id))
            } else {
                None
            },
        }
    }

    pub fn get_tenant(&self, id: &str) -> (r: Result<Tenant, Error>)
        requires
            self.wf(),
        ensures
            (self.spec_get(id@) matches Some(t) ==> r == Ok::<Tenant, Error>(t)),
            (self.spec_get(id@) is None ==> (r matches Err(Error::InvalidTenantId(v)) && v@
                == id@)),
    {
        match self {
            TenantStore::Single(s) => s.get_tenant(id),
            TenantStore::Multi(reg) => reg.get_tenant(id),
        }
    }

    pub fn create_tenant(&mut self, params: TenantUpdateParams) -> (r: Result<Tenant, Error>)
        requires
            old(self).wf(),
        ensures
            final(self).wf(),
            (old(self) matches TenantStore::Single(_) ==> (r == Err::<Tenant, Error>(
                Error::InternalUnsupportedOperation,
            ) && *final(self) == *old(self))),
            ((*old(self)) matches TenantStore::Multi(pre) ==> ((*final(self)) matches TenantStore::Multi(
                post,
            ) && TenantRegistry::create_step(pre, post, params, r))),
    {
        match self {
            TenantStore::Single(s) => s.create_tenant(params),
            TenantStore::Multi(reg) => reg.create_tenant(params),
        }
    }

    pub fn update_tenant(&mut self, id: &str, params: TenantUpdateParams) -> (r: Result<
        Tenant,
        Error,
    >)
        requires
            old(self).wf(),
        ensures
            final(self).wf(),
            (old(self) matches TenantStore::Single(_) ==> (r == Err::<Tenant, Error>(
                Error::InternalUnsupportedOperation,
            ) && *final(self) == *old(self))),
            ((*old(self)) matches TenantStore::Multi(pre) ==> ((*final(self)) matches TenantStore::Multi(
                post,
            ) && TenantRegistry::id_update_step(pre, post, id@, params, r))),
    {
        match self {
            TenantStore::Single(s) => s.update_tenant(id, params),
            TenantStore::Multi(reg) => reg.update_tenant(id, params),
        }
    }

    pub fn update_tenant_fcm(&mut self, id: &str, params: TenantFcmUpdateParams) -> (r: Result<
        Tenant,
        Error,
    >)
        requires
            old(self).wf(),
        ensures
            final(self).wf(),
            (old(self) matches TenantStore::Single(_) ==> (r == Err::<Tenant, Error>(
                Error::InternalUnsupportedOperation,
            ) && *final(self) == *old(self))),
            ((*old(self)) matches TenantStore::Multi(pre) ==> ((*final(self)) matches TenantStore::Multi(
                post,
            ) && TenantRegistry::fcm_update_step(pre, post, id@, params, r))),
    {
        match self {
            TenantStore::Single(s) => s.update_tenant_fcm(id, params),
            TenantStore::Multi(reg) => reg.update_tenant_fcm(id, params),
        }
    }

    pub fn update_tenant_apns(&mut self, id: &str, params: TenantApnsUpdateParams) -> (r: Result<
        Tenant,
        Error,
    >)
        requires
            old(self).wf(),
        ensures
            final(self).wf(),
            (old(self) matches TenantStore::Single(_) ==> (r == Err::<Tenant, Error>(
                Error::InternalUnsupportedOperation,
            ) && *final(self) == *old(self))),
            ((*old(self)) matches TenantStore::Multi(pre) ==> ((*final(self)) matches TenantStore::Multi(
                post,
            ) && TenantRegistry::apns_topic_update_step(pre, post, id@, params, r))),
    {
        match self {
            TenantStore::Single(s) => s.update_tenant_apns(id, params),
            TenantStore::Multi(reg) => reg.update_tenant_apns(id, params),
        }
    }

    pub fn update_tenant_apns_auth(&mut self, id: &str, params: TenantApnsUpdateAuth) -> (r: Result<
        Tenant,
        Error,
    >)
        requires
            old(self).wf(),
        ensures
            final(self).wf(),
            (old(self) matches TenantStore::Single(_) ==> (r == Err::<Tenant, Error>(
                Error::InternalUnsupportedOperation,
            ) && *final(self) == *old(self))),
            ((*old(self)) matches TenantStore::Multi(pre) ==> ((*final(self)) matches TenantStore::Multi(
                post,
            ) && TenantRegistry::apns_auth_update_step(pre, post, id@, params, r))),
    {
        match self {
            TenantStore::Single(s) => s.update_tenant_apns_auth(id, params),
            TenantStore::Multi(reg) => reg.update_tenant_apns_auth(id, params),
        }
    }

    pub fn delete_tenant(&mut self, id: &str) -> (r: Result<(), Error>)
        requires
            old(self).wf(),
        ensures
            final(self).wf(),
            (old(self) matches TenantStore::Single(_) ==> (r == Err::<(), Error>(
                Error::InternalUnsupportedOperation,
            ) && *final(self) == *old(self))),
            ((*old(self)) matches TenantStore::Multi(pre) ==> ((*final(self)) matches TenantStore::Multi(
                post,
            ) && TenantRegistry::delete_step(pre, post, id@, r))),
    {
        match self {
            TenantStore::Single(s) => s.delete_tenant(id),
            TenantStore::Multi(reg) => reg.delete_tenant(id),
        }
    }
}

} // verus!
