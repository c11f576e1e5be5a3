//! The multi-tenant directory model: a keyed table of tenant records
//! with at most one record per id, and the single-row update semantics
//! of every directory operation.

use vstd::prelude::*;
use crate::error::Error;
use crate::strutil::str_eq;
use crate::tenant::{
    Tenant,
    TenantApnsUpdateAuth,
    TenantApnsUpdateParams,
    TenantFcmUpdateParams,
    TenantUpdateParams,
};

verus! {

/// The multi-tenant directory: every operation is a single keyed
/// record operation.
pub struct TenantRegistry {
    tenants: Vec<Tenant>,
    clock: u64,
}

impl TenantRegistry {
    /// The stored records, in insertion order.
    pub closed spec fn records(&self) -> Seq<Tenant> {
        self.tenants@
    }

    /// The logical clock stamped onto created and updated records.
    pub closed spec fn spec_clock(&self) -> u64 {
        self.clock
    }

    /// At most one record per id.
    pub open spec fn wf(&self) -> bool {
        forall|i: int, j: int|
            #![trigger self.records()[i], self.records()[j]]
            0 <= i < j < self.records().len() ==> self.records()[i].id@ != self.records()[j].id@
    }

    pub open spec fn has_tenant(&self, id: Seq<char>) -> bool {
        exists|i: int| 0 <= i < self.records().len() && (#[trigger] self.records()[i]).id@ == id
    }

    /// The index of the record under `id`; meaningful when
    /// `has_tenant(id)`.
    pub open spec fn index_of(&self, id: Seq<char>) -> int {
        choose|i: int| 0 <= i < self.records().len() && (#[trigger] self.records()[i]).id@ == id
    }

    /// The record under `id`; meaningful when `has_tenant(id)`.
    pub open spec fn tenant_for(&self, id: Seq<char>) -> Tenant {
        self.records()[self.index_of(id)]
    }

    /// The clock value stamped by the next mutation.
    pub open spec fn next_clock(&self) -> u64 {
        if self.spec_clock() == u64::MAX {
            u64::MAX
        } else {
            (self.spec_clock() + 1) as u64
        }
    }

    /// What creating a tenant does: a fresh id appends a credential-less
    /// record stamped with the next clock; an id already in use fails
    /// with a store error and changes nothing.
    pub open spec fn create_step(
        pre: TenantRegistry,
        post: TenantRegistry,
        params: TenantUpdateParams,
        r: Result<Tenant, Error>,
    ) -> bool {
        &&& post.wf()
        &&& (pre.has_tenant(params.id@) ==> (r matches Err(Error::Store(_)) && post == pre))
        &&& (!pre.has_tenant(params.id@) ==> (r == Ok::<Tenant, Error>(
            Tenant::spec_fresh(params.id, pre.next_clock()),
        ) && post.records() == pre.records().push(Tenant::spec_fresh(params.id, pre.next_clock()))
            && post.spec_clock() == pre.next_clock()))
    }

    /// What an id override does: the record under `id` is replaced by
    /// the same record under the new id; a missing id fails with
    /// `InvalidTenantId`; a new id colliding with another record fails
    /// with a store error.
    pub open spec fn id_update_step(
        pre: TenantRegistry,
        post: TenantRegistry,
        id: Seq<char>,
        params: TenantUpdateParams,
        r: Result<Tenant, Error>,
    ) -> bool {
        &&& post.wf()
        &&& (!pre.has_tenant(id) ==> (r matches Err(Error::InvalidTenantId(v)) && v@ == id && post
            == pre))
        &&& (pre.has_tenant(id) && params.id@ != id && pre.has_tenant(params.id@) ==> (r matches
            Err(Error::Store(_)) && post == pre))
        &&& (pre.has_tenant(id) && (params.id@ == id || !pre.has_tenant(params.id@)) ==> (r
            == Ok::<Tenant, Error>(pre.tenant_for(id).spec_with_id(params.id, pre.next_clock()))
            && post.records() == pre.records().update(
            pre.index_of(id),
            pre.tenant_for(id).spec_with_id(params.id, pre.next_clock()),
        ) && post.spec_clock() == pre.next_clock()))
    }

    /// What an FCM key rotation does: only that key and the update
    /// stamp change on the record under `id`.
    pub open spec fn fcm_update_step(
        pre: TenantRegistry,
        post: TenantRegistry,
        id: Seq<char>,
        params: TenantFcmUpdateParams,
        r: Result<Tenant, Error>,
    ) -> bool {
        &&& post.wf()
        &&& (!pre.has_tenant(id) ==> (r matches Err(Error::InvalidTenantId(v)) && v@ == id && post
            == pre))
        &&& (pre.has_tenant(id) ==> (r == Ok::<Tenant, Error>(
            pre.tenant_for(id).spec_with_fcm(params.fcm_api_key, pre.next_clock()),
        ) && post.records() == pre.records().update(
            pre.index_of(id),
            pre.tenant_for(id).spec_with_fcm(params.fcm_api_key, pre.next_clock()),
        ) && post.spec_clock() == pre.next_clock()))
    }

    /// What an APNs topic rotation does: only the topic and the update
    /// stamp change on the record under `id`.
    pub open spec fn apns_topic_update_step(
        pre: TenantRegistry,
        post: TenantRegistry,
        id: Seq<char>,
        params: TenantApnsUpdateParams,
        r: Result<Tenant, Error>,
    ) -> bool {
        &&& post.wf()
        &&& (!pre.has_tenant(id) ==> (r matches Err(Error::InvalidTenantId(v)) && v@ == id && post
            == pre))
        &&& (pre.has_tenant(id) ==> (r == Ok::<Tenant, Error>(
            pre.tenant_for(id).spec_with_apns_topic(params.apns_topic, pre.next_clock()),
        ) && post.records() == pre.records().update(
            pre.index_of(id),
            pre.tenant_for(id).spec_with_apns_topic(params.apns_topic, pre.next_clock()),
        ) && post.spec_clock() == pre.next_clock()))
    }

    /// What an APNs auth rotation does: the record under `id` switches
    /// to the named mode, whose fields are set while the other mode's
    /// fields are cleared.
    pub open spec fn apns_auth_update_step(
        pre: TenantRegistry,
        post: TenantRegistry,
        id: Seq<char>,
        params: TenantApnsUpdateAuth,
        r: Result<Tenant, Error>,
    ) -> bool {
        &&& post.wf()
        &&& (!pre.has_tenant(id) ==> (r matches Err(Error::InvalidTenantId(v)) && v@ == id && post
            == pre))
        &&& (pre.has_tenant(id) ==> (r == Ok::<Tenant, Error>(
            pre.tenant_for(id).spec_with_apns_auth(params, pre.next_clock()),
        ) && post.records() == pre.records().update(
            pre.index_of(id),
            pre.tenant_for(id).spec_with_apns_auth(params, pre.next_clock()),
        ) && post.spec_clock() == pre.next_clock()))
    }

    /// What a deletion does: the record under `id`, if any, is removed;
    /// the operation succeeds either way.
    pub open spec fn delete_step(
        pre: TenantRegistry,
        post: TenantRegistry,
        id: Seq<char>,
        r: Result<(), Error>,
    ) -> bool {
        &&& post.wf()
        &&& r is Ok
        &&& !post.has_tenant(id)
        &&& (pre.has_tenant(id) ==> post.records() == pre.records().remove(pre.index_of(id)))
        &&& (!pre.has_tenant(id) ==> post == pre)
    }

    /// In a well-formed registry, a record seen at an index is the
    /// record that its id resolves to.
    pub proof fn lemma_at_index(&self, i: int)
        requires
            self.wf(),
            0 <= i < self.records().len(),
        ensures
            self.has_tenant(self.records()[i].id@),
            self.index_of(self.records()[i].id@) == i,
            self.tenant_for(self.records()[i].id@) == self.records()[i],
    {
        let id = self.records()[i].id@;
        assert(self.has_tenant(id));
        let j = self.index_of(id);
        assert(0 <= j < self.records().len() && self.records()[j].id@ == id);
        if i < j {
            assert(false);
        }
        if j < i {
            assert(false);
        }
    }

    pub fn new() -> (r: TenantRegistry)
        ensures
            r.wf(),
            r.records().len() == 0,
            r.spec_clock() == 0,
    {
        TenantRegistry { tenants: Vec::new(), clock: 0 }
    }

    fn find(&self, id: &str) -> (r: Option<usize>)
        ensures
            (r matches Some(i) ==> i < self.records().len() && self.records()[i as int].id@
                == id@),
            r is None ==> !self.has_tenant(id@),
    {
        let n = self.tenants.len();
        let mut i: usize = 0;
        while i < n
            invariant
                n == self.records().len(),
                i <= n,
                forall|j: int| 0 <= j < i ==> (#[trigger] self.records()[j]).id@ != id@,
            decreases n - i,
        {
            if str_eq(self.tenants[i].id.as_str(), id) {
                return Some(i);
            }
            i += 1;
        }
        None
    }

    /// Advances the clock, saturating at its maximum.
    fn tick(&mut self) -> (r: u64)
        ensures
            final(self).records() == old(self).records(),
            r == old(self).next_clock(),
            final(self).spec_clock() == r,
    {
        if self.clock < u64::MAX {
            self.clock = self.clock + 1;
        }
        self.clock
    }

    /// Replaces the record at one index, leaving every other record in
    /// place.
    fn replace_at(&mut self, i: usize, t: Tenant)
        requires
            i < old(self).records().len(),
        ensures
            final(self).records() == old(self).records().update(i as int, t),
            final(self).spec_clock() == old(self).spec_clock(),
    {
        let _removed = self.tenants.remove(i);
        self.tenants.insert(i, t);
        proof {
            assert(self.records() =~= old(self).records().update(i as int, t));
        }
    }

    /// Looks one tenant up by id; a missing id fails with
    /// `InvalidTenantId`.
    pub fn get_tenant(&self, id: &str) -> (r: Result<Tenant, Error>)
        requires
            self.wf(),
        ensures
            self.has_tenant(id@) ==> r == Ok::<Tenant, Error>(self.tenant_for(id@)),
            (!self.has_tenant(id@) ==> (r matches Err(Error::InvalidTenantId(v)) && v@ == id@)),
    {
        match self.find(id) {
            Some(i) => {
                proof {
                    self.lemma_at_index(i as int);
                }
                Ok(self.tenants[i].clone())
            },
            None => Err(Error::InvalidTenantId(id.to_owned())),
        }
    }

    /// Creates a tenant under the given id with no credentials; an id
    /// already in use fails with a store error, as a keyed uniqueness
    /// violation would.
    pub fn create_tenant(&mut self, params: TenantUpdateParams) -> (r: Result<Tenant, Error>)
        requires
            old(self).wf(),
        ensures
            Self::create_step(*old(self), *final(self), params, r),
    {
        if self.find(params.id.as_str()).is_some() {
            return Err(Error::Store("a tenant already exists under this id".to_owned()));
        }
        let now = self.tick();
        let t = Tenant {
            id: params.id,
            fcm_api_key: None,
            apns_type: None,
            apns_topic: None,
            apns_certificate: None,
            apns_certificate_password: None,
            apns_pkcs8_pem: None,
            apns_key_id: None,
            apns_team_id: None,
            created_at: now,
            updated_at: now,
        };
        let ret = t.clone();
        self.tenants.push(t);
        proof {
            let post = self.records();
            let pre = old(self).records();
            assert forall|i: int, j: int| 0 <= i < j < post.len() implies (#[trigger] post[i]).id@
                != (#[trigger] post[j]).id@ by {
                if j < post.len() - 1 {
                    assert(pre[i] == post[i] && pre[j] == post[j]);
                } else {
                    assert(post[i] == pre[i]);
                    if post[i].id@ == post[j].id@ {
                        assert(old(self).has_tenant(post[j].id@));
                    }
                }
            }
        }
        Ok(ret)
    }

    /// Overrides a tenant's id; the new id colliding with another
    /// record fails with a store error.
    pub fn update_tenant(&mut self, id: &str, params: TenantUpdateParams) -> (r: Result<
        Tenant,
        Error,
    >)
        requires
            old(self).wf(),
        ensures
            Self::id_update_step(*old(self), *final(self), id@, params, r),
    {
        let i = match self.find(id) {
            None => {
                return Err(Error::InvalidTenantId(id.to_owned()));
            },
            Some(i) => i,
        };
        proof {
            self.lemma_at_index(i as int);
        }
        if !str_eq(params.id.as_str(), id) {
            if self.find(params.id.as_str()).is_some() {
                return Err(Error::Store("a tenant already exists under this id".to_owned()));
            }
        }
        let now = self.tick();
        let cur = self.tenants[i].clone();
        let updated = Tenant { id: params.id, updated_at: now, ..cur };
        let ret = updated.clone();
        self.replace_at(i, updated);
        proof {
            let post = self.records();
            let pre = old(self).records();
            assert forall|a: int, b: int| 0 <= a < b < post.len() implies (#[trigger] post[a]).id@
                != (#[trigger] post[b]).id@ by {
                if a != i && b != i {
                    assert(post[a] == pre[a] && post[b] == pre[b]);
                } else {
                    let other: int = if a == i {
                        b
                    } else {
                        a
                    };
                    assert(post[other] == pre[other]);
                    if post[a].id@ == post[b].id@ {
                        assert(pre[other].id@ == ret.id@);
                        if ret.id@ == id@ {
                            old(self).lemma_at_index(other);
                        } else {
                            assert(old(self).has_tenant(ret.id@));
                        }
                    }
                }
            }
        }
        Ok(ret)
    }

    /// Rotates a tenant's FCM key.
    pub fn update_tenant_fcm(&mut self, id: &str, params: TenantFcmUpdateParams) -> (r: Result<
        Tenant,
        Error,
    >)
        requires
            old(self).wf(),
        ensures
            Self::fcm_update_step(*old(self), *final(self), id@, params, r),
    {
        let i = match self.find(id) {
            None => {
                return Err(Error::InvalidTenantId(id.to_owned()));
            },
            Some(i) => i,
        };
        proof {
            self.lemma_at_index(i as int);
        }
        let now = self.tick();
        let cur = self.tenants[i].clone();
        let updated = Tenant { fcm_api_key: Some(params.fcm_api_key), updated_at: now, ..cur };
        let ret = updated.clone();
        self.replace_at(i, updated);
        proof {
            self.lemma_wf_after_same_id_update(old(self), i as int);
        }
        Ok(ret)
    }

    /// Rotates a tenant's APNs topic.
    pub fn update_tenant_apns(&mut self, id: &str, params: TenantApnsUpdateParams) -> (r: Result<
        Tenant,
        Error,
    >)
        requires
            old(self).wf(),
        ensures
            Self::apns_topic_update_step(*old(self), *final(self), id@, params, r),
    {
        let i = match self.find(id) {
            None => {
                return Err(Error::InvalidTenantId(id.to_owned()));
            },
            Some(i) => i,
        };
        proof {
            self.lemma_at_index(i as int);
        }
        let now = self.tick();
        let cur = self.tenants[i].clone();
        let updated = Tenant { apns_topic: Some(params.apns_topic), updated_at: now, ..cur };
        let ret = updated.clone();
        self.replace_at(i, updated);
        proof {
            self.lemma_wf_after_same_id_update(old(self), i as int);
        }
        Ok(ret)
    }

    /// Switches a tenant to the named APNs auth mode: that mode's
    /// fields are set and the other mode's fields are cleared.
    pub fn update_tenant_apns_auth(&mut self, id: &str, params: TenantApnsUpdateAuth) -> (r: Result<
        Tenant,
        Error,
    >)
        requires
            old(self).wf(),
        ensures
            Self::apns_auth_update_step(*old(self), *final(self), id@, params, r),
    {
        let i = match self.find(id) {
            None => {
                return Err(Error::InvalidTenantId(id.to_owned()));
            },
            Some(i) => i,
        };
        proof {
            self.lemma_at_index(i as int);
        }
        let now = self.tick();
        let cur = self.tenants[i].clone();
        let updated = match params {
            TenantApnsUpdateAuth::Certificate { apns_certificate, apns_certificate_password } => (
            Tenant {
                apns_type: Some(crate::tenant::ApnsType::Certificate),
                apns_certificate: Some(apns_certificate),
                apns_certificate_password: Some(apns_certificate_password),
                apns_pkcs8_pem: None,
                apns_key_id: None,
                apns_team_id: None,
                updated_at: now,
                ..cur
            }),
            TenantApnsUpdateAuth::Token { apns_pkcs8_pem, apns_key_id, apns_team_id } => (Tenant {
                apns_type: Some(crate::tenant::ApnsType::Token),
                apns_pkcs8_pem: Some(apns_pkcs8_pem),
                apns_key_id: Some(apns_key_id),
                apns_team_id: Some(apns_team_id),
                apns_certificate: None,
                apns_certificate_password: None,
                updated_at: now,
                ..cur
            }),
        };
        let ret = updated.clone();
        self.replace_at(i, updated);
        proof {
            self.lemma_wf_after_same_id_update(old(self), i as int);
        }
        Ok(ret)
    }

    /// Replacing a record with one under the same id preserves
    /// well-formedness.
    proof fn lemma_wf_after_same_id_update(&self, pre: &Self, i: int)
        requires
            pre.wf(),
            0 <= i < pre.records().len(),
            self.records().len() == pre.records().len(),
            self.records()[i].id@ == pre.records()[i].id@,
            forall|k: int|
                0 <= k < pre.records().len() && k != i ==> #[trigger] self.records()[k]
                    == pre.records()[k],
        ensures
            self.wf(),
    {
        let post = self.records();
        assert forall|a: int, b: int| 0 <= a < b < post.len() implies (#[trigger] post[a]).id@
            != (#[trigger] post[b]).id@ by {
            assert(post[a].id@ == pre.records()[a].id@);
            assert(post[b].id@ == pre.records()[b].id@);
        }
    }

    /// Deletes the record under an id, if one exists; succeeds either
    /// way.
    pub fn delete_tenant(&mut self, id: &str) -> (r: Result<(), Error>)
        requires
            old(self).wf(),
        ensures
            Self::delete_step(*old(self), *final(self), id@, r),
    {
        let i = match self.find(id) {
            None => {
                return Ok(());
            },
            Some(i) => i,
        };
        proof {
            self.lemma_at_index(i as int);
        }
        let _removed = self.tenants.remove(i);
        proof {
            let post = self.records();
            let pre = old(self).records();
            assert forall|a: int, b: int| 0 <= a < b < post.len() implies (#[trigger] post[a]).id@
                != (#[trigger] post[b]).id@ by {
                let a0: int = if a < i {
                    a
                } else {
                    a + 1
                };
                let b0: int = if b < i {
                    b
                } else {
                    b + 1
                };
                assert(post[a] == pre[a0] && post[b] == pre[b0]);
            }
            assert forall|k: int| 0 <= k < post.len() implies (#[trigger] post[k]).id@ != id@ by {
                let k0: int = if k < i {
                    k
                } else {
                    k + 1
                };
                assert(post[k] == pre[k0]);
                if pre[k0].id@ == id@ {
                    old(self).lemma_at_index(k0);
                }
            }
        }
        Ok(())
    }
}

} // verus!
