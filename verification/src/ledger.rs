//! The notification ledger: the idempotency record keyed by tenant and
//! notification id. Its one mutation, `record_attempt`, is the single
//! atomic insert-or-append that every submission passes through;
//! callers decide dedup from the returned payload history alone, never
//! from a separate existence check.

use vstd::prelude::*;
use crate::payload::MessagePayload;
use crate::strutil::str_eq;

verus! {

/// One notification's delivery bookkeeping: the submitting client and
/// the append-only history of every payload submitted under this id.
#[derive(Debug, PartialEq, Eq)]
pub struct Notification {
    pub id: String,
    pub tenant_id: String,
    pub client_id: String,
    pub previous_payloads: Vec<MessagePayload>,
    pub created_at: u64,
    pub updated_at: u64,
}

/// The mathematical value of one ledger record.
pub struct NotificationView {
    pub id: Seq<char>,
    pub tenant_id: Seq<char>,
    pub client_id: Seq<char>,
    pub previous_payloads: Seq<MessagePayload>,
    pub created_at: u64,
    pub updated_at: u64,
}

impl View for Notification {
    type V = NotificationView;

    open spec fn view(&self) -> NotificationView {
        NotificationView {
            id: self.id@,
            tenant_id: self.tenant_id@,
            client_id: self.client_id@,
            previous_payloads: self.previous_payloads@,
            created_at: self.created_at,
            updated_at: self.updated_at,
        }
    }
}

impl NotificationView {
    /// The record's key.
    pub open spec fn key(&self) -> (Seq<char>, Seq<char>) {
        (self.tenant_id, self.id)
    }
}

fn clone_payloads(v: &Vec<MessagePayload>) -> (r: Vec<MessagePayload>)
    ensures
        r@ == v@,
{
    let mut r: Vec<MessagePayload> = Vec::new();
    let n = v.len();
    let mut i: usize = 0;
    while i < n
        invariant
            n == v@.len(),
            i <= n,
            r@ == v@.subrange(0, i as int),
        decreases n - i,
    {
        r.push(v[i].clone());
        proof {
            assert(r@ =~= v@.subrange(0, i + 1 as int));
        }
        i += 1;
    }
    proof {
        assert(r@ =~= v@);
    }
    r
}

impl Clone for Notification {
    fn clone(&self) -> (res: Self)
        ensures
            res@ == self@,
    {
        Notification {
            id: self.id.clone(),
            tenant_id: self.tenant_id.clone(),
            client_id: self.client_id.clone(),
            previous_payloads: clone_payloads(&self.previous_payloads),
            created_at: self.created_at,
            updated_at: self.updated_at,
        }
    }
}

/// The ledger model: at most one record per key; all cross-request
/// coordination happens inside `record_attempt`.
pub struct NotificationLedger {
    entries: Vec<Notification>,
    clock: u64,
}

impl NotificationLedger {
    /// The stored record values, in insertion order.
    pub closed spec fn records(&self) -> Seq<NotificationView> {
        self.entries@.map_values(|n: Notification| n@)
    }

    /// The logical clock stamped onto created and updated records.
    pub closed spec fn spec_clock(&self) -> u64 {
        self.clock
    }

    /// At most one record per key, and no record's history is ever
    /// empty: a record exists only because at least one submission was
    /// recorded.
    pub open spec fn wf(&self) -> bool {
        &&& forall|i: int, j: int|
            #![trigger self.records()[i], self.records()[j]]
            0 <= i < j < self.records().len() ==> self.records()[i].key() != self.records()[j].key()
        &&& forall|i: int|
            0 <= i < self.records().len() ==> (#[trigger] self.records()[i]).previous_payloads.len()
                >= 1
    }

    pub open spec fn has_notification(&self, tenant_id: Seq<char>, id: Seq<char>) -> bool {
        exists|i: int|
            0 <= i < self.records().len() && (#[trigger] self.records()[i]).key() == (tenant_id, id)
    }

    /// The index of the record under a key; meaningful when
    /// `has_notification`.
    pub open spec fn index_of(&self, tenant_id: Seq<char>, id: Seq<char>) -> int {
        choose|i: int|
            0 <= i < self.records().len() && (#[trigger] self.records()[i]).key() == (tenant_id, id)
    }

    /// The record under a key; meaningful when `has_notification`.
    pub open spec fn record_for(&self, tenant_id: Seq<char>, id: Seq<char>) -> NotificationView {
        self.records()[self.index_of(tenant_id, id)]
    }

    /// The clock value stamped by the next mutation.
    pub open spec fn next_clock(&self) -> u64 {
        if self.spec_clock() == u64::MAX {
            u64::MAX
        } else {
            (self.spec_clock() + 1) as u64
        }
    }

    /// What one submission attempt does: a first submission under the
    /// key appends a record whose history is exactly the submitted
    /// payload; a repeat replaces the record with one whose history has
    /// the payload appended; the returned record value is the stored
    /// one either way.
    pub open spec fn record_step(
        pre: NotificationLedger,
        post: NotificationLedger,
        tenant_id: Seq<char>,
        notification_id: Seq<char>,
        client_id: Seq<char>,
        payload: MessagePayload,
        rv: NotificationView,
    ) -> bool {
        &&& post.wf()
        &&& post.has_notification(tenant_id, notification_id)
        &&& rv == post.record_for(tenant_id, notification_id)
        &&& rv.tenant_id == tenant_id
        &&& rv.id == notification_id
        &&& (!pre.has_notification(tenant_id, notification_id) ==> (post.records()
            == pre.records().push(rv) && rv.previous_payloads == seq![payload] && rv.client_id
            == client_id && rv.created_at == pre.next_clock() && rv.updated_at
            == pre.next_clock()))
        &&& (pre.has_notification(tenant_id, notification_id) ==> (post.records()
            == pre.records().update(pre.index_of(tenant_id, notification_id), rv)
            && rv.previous_payloads == pre.record_for(
            tenant_id,
            notification_id,
        ).previous_payloads.push(payload) && rv.client_id == pre.record_for(
            tenant_id,
            notification_id,
        ).client_id && rv.created_at == pre.record_for(tenant_id, notification_id).created_at
            && rv.updated_at == pre.next_clock()))
        &&& post.spec_clock() == pre.next_clock()
    }

    /// In a well-formed ledger, a record seen at an index is the record
    /// that its key resolves to.
    pub proof fn lemma_at_index(&self, i: int)
        requires
            self.wf(),
            0 <= i < self.records().len(),
        ensures
            self.has_notification(self.records()[i].tenant_id, self.records()[i].id),
            self.index_of(self.records()[i].tenant_id, self.records()[i].id) == i,
            self.record_for(self.records()[i].tenant_id, self.records()[i].id)
                == self.records()[i],
    {
        let t = self.records()[i].tenant_id;
        let n = self.records()[i].id;
        assert(self.records()[i].key() == (t, n));
        assert(self.has_notification(t, n));
        let j = self.index_of(t, n);
        assert(0 <= j < self.records().len() && self.records()[j].key() == (t, n));
        if i < j {
            assert(false);
        }
        if j < i {
            assert(false);
        }
    }

    pub fn new() -> (r: NotificationLedger)
        ensures
            r.wf(),
            r.records().len() == 0,
            r.spec_clock() == 0,
    {
        NotificationLedger { entries: Vec::new(), clock: 0 }
    }

    fn find(&self, tenant_id: &str, id: &str) -> (r: Option<usize>)
        ensures
            (r matches Some(i) ==> i < self.records().len() && self.records()[i as int].key() == (
            tenant_id@,
            id@,
            )),
            r is None ==> !self.has_notification(tenant_id@, id@),
    {
        let n = self.entries.len();
        let mut i: usize = 0;
        while i < n
            invariant
                n == self.records().len(),
                n == self.entries@.len(),
                i <= n,
                forall|j: int|
                    0 <= j < i ==> (#[trigger] self.records()[j]).key() != (tenant_id@, id@),
            decreases n - i,
        {
            if str_eq(self.entries[i].tenant_id.as_str(), tenant_id) && str_eq(
                self.entries[i].id.as_str(),
                id,
            ) {
                proof {
                    assert(self.records()[i as int] == self.entries@[i as int]@);
                }
                return Some(i);
            }
            proof {
                assert(self.records()[i as int] == self.entries@[i as int]@);
            }
            i += 1;
        }
        None
    }

    /// Advances the clock, saturating at its maximum.
    fn tick(&mut self) -> (r: u64)
        ensures
            final(self).records() == old(self).records(),
            r == old(self).next_clock(),
            final(self).spec_clock() == r,
    {
        if self.clock < u64::MAX {
            self.clock = self.clock + 1;
        }
        self.clock
    }

    /// The one atomic upsert-and-append: a first submission under the
    /// key inserts a record whose history is exactly the submitted
    /// payload; a repeat appends the payload to the existing history,
    /// preserving arrival order and truncating nothing. The returned
    /// record is the stored one, so its history length equals the
    /// number of submissions seen so far, and a caller dispatches
    /// exactly when that length is 1.
    pub fn record_attempt(
        &mut self,
        tenant_id: &str,
        notification_id: &str,
        client_id: &str,
        payload: &MessagePayload,
    ) -> (r: Notification)
        requires
            old(self).wf(),
        ensures
            NotificationLedger::record_step(
                *old(self),
                *final(self),
                tenant_id@,
                notification_id@,
                client_id@,
                *payload,
                r@,
            ),
    {
        let found = self.find(tenant_id, notification_id);
        let now = self.tick();
        match found {
            None => {
                let mut history: Vec<MessagePayload> = Vec::new();
                history.push(payload.clone());
                let record = Notification {
                    id: notification_id.to_owned(),
                    tenant_id: tenant_id.to_owned(),
                    client_id: client_id.to_owned(),
                    previous_payloads: history,
                    created_at: now,
                    updated_at: now,
                };
                let ret = record.clone();
                self.entries.push(record);
                proof {
                    let post = self.records();
                    let pre = old(self).records();
                    let n = pre.len() as int;
                    assert(ret.previous_payloads@ =~= seq![*payload]);
                    assert(post =~= pre.push(ret@));
                    assert forall|i: int, j: int| 0 <= i < j < post.len() implies (
                    #[trigger] post[i]).key() != (#[trigger] post[j]).key() by {
                        if j < n {
                            assert(pre[i] == post[i] && pre[j] == post[j]);
                        } else {
                            assert(post[i] == pre[i]);
                            if post[i].key() == post[j].key() {
                                assert(old(self).has_notification(tenant_id@, notification_id@));
                            }
                        }
                    }
                    assert forall|i: int| 0 <= i < post.len() implies (
                    #[trigger] post[i]).previous_payloads.len() >= 1 by {
                        if i < n {
                            assert(pre[i] == post[i]);
                        }
                    }
                    self.lemma_at_index(n);
                }
                ret
            },
            Some(i) => {
                proof {
                    self.lemma_at_index(i as int);
                    assert(old(self).index_of(tenant_id@, notification_id@) == i);
                }
                let cur = self.entries[i].clone();
                let Notification {
                    id,
                    tenant_id: row_tenant,
                    client_id: row_client,
                    previous_payloads: mut history,
                    created_at,
                    updated_at: _unused,
                } = cur;
                history.push(payload.clone());
                let record = Notification {
                    id,
                    tenant_id: row_tenant,
                    client_id: row_client,
                    previous_payloads: history,
                    created_at,
                    updated_at: now,
                };
                let ret = record.clone();
                let _removed = self.entries.remove(i);
                self.entries.insert(i, record);
                proof {
                    let post = self.records();
                    let pre = old(self).records();
                    assert(post =~= pre.update(i as int, ret@));
                    assert forall|a: int, b: int| 0 <= a < b < post.len() implies (
                    #[trigger] post[a]).key() != (#[trigger] post[b]).key() by {
                        assert(post[a].key() == pre[a].key());
                        assert(post[b].key() == pre[b].key());
                    }
                    assert forall|a: int| 0 <= a < post.len() implies (
                    #[trigger] post[a]).previous_payloads.len() >= 1 by {
                        if a != i {
                            assert(post[a] == pre[a]);
                        }
                    }
                    self.lemma_at_index(i as int);
                }
                ret
            },
        }
    }
}

} // verus!
