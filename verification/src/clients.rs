//! Registered clients: the destination handle and provider kind that a
//! push submission is dispatched with, keyed by tenant and client id.

use vstd::prelude::*;
use crate::error::Error;
use crate::providers::ProviderKind;
use crate::strutil::str_eq;

verus! {

/// One client registration: the provider kind it registered with and
/// the opaque destination token for that push network.
#[derive(Debug, PartialEq, Eq)]
pub struct Client {
    pub push_type: ProviderKind,
    pub token: String,
}

impl Clone for Client {
    fn clone(&self) -> (res: Self)
        ensures
            res == *self,
    {
        Client { push_type: self.push_type, token: self.token.clone() }
    }
}

/// One stored registration row.
#[derive(Debug, PartialEq, Eq)]
pub struct ClientRecord {
    pub tenant_id: String,
    pub id: String,
    pub client: Client,
}

impl ClientRecord {
    /// The row's key.
    pub open spec fn key(&self) -> (Seq<char>, Seq<char>) {
        (self.tenant_id@, self.id@)
    }
}

impl Clone for ClientRecord {
    fn clone(&self) -> (res: Self)
        ensures
            res == *self,
    {
        ClientRecord {
            tenant_id: self.tenant_id.clone(),
            id: self.id.clone(),
            client: self.client.clone(),
        }
    }
}

/// The client store model: at most one registration per key; a second
/// registration under the same key replaces the first.
pub struct ClientRegistry {
    rows: Vec<ClientRecord>,
}

impl ClientRegistry {
    /// The stored rows, in insertion order.
    pub closed spec fn records(&self) -> Seq<ClientRecord> {
        self.rows@
    }

    /// At most one row per key.
    pub open spec fn wf(&self) -> bool {
        forall|i: int, j: int|
            #![trigger self.records()[i], self.records()[j]]
            0 <= i < j < self.records().len() ==> self.records()[i].key() != self.records()[j].key()
    }

    pub open spec fn has_client(&self, tenant_id: Seq<char>, id: Seq<char>) -> bool {
        exists|i: int|
            0 <= i < self.records().len() && (#[trigger] self.records()[i]).key() == (tenant_id, id)
    }

    /// The index of the row under a key; meaningful when `has_client`.
    pub open spec fn index_of(&self, tenant_id: Seq<char>, id: Seq<char>) -> int {
        choose|i: int|
            0 <= i < self.records().len() && (#[trigger] self.records()[i]).key() == (tenant_id, id)
    }

    /// The registration under a key; meaningful when `has_client`.
    pub open spec fn client_for(&self, tenant_id: Seq<char>, id: Seq<char>) -> Client {
        self.records()[self.index_of(tenant_id, id)].client
    }

    /// In a well-formed store, a row seen at an index is the row that
    /// its key resolves to.
    proof fn lemma_at_index(&self, i: int)
        requires
            self.wf(),
            0 <= i < self.records().len(),
        ensures
            self.has_client(self.records()[i].tenant_id@, self.records()[i].id@),
            self.index_of(self.records()[i].tenant_id@, self.records()[i].id@) == i,
            self.client_for(self.records()[i].tenant_id@, self.records()[i].id@)
                == self.records()[i].client,
    {
        let t = self.records()[i].tenant_id@;
        let c = self.records()[i].id@;
        assert(self.records()[i].key() == (t, c));
        assert(self.has_client(t, c));
        let j = self.index_of(t, c);
        assert(0 <= j < self.records().len() && self.records()[j].key() == (t, c));
        if i < j {
            assert(false);
        }
        if j < i {
            assert(false);
        }
    }

    pub fn new() -> (r: ClientRegistry)
        ensures
            r.wf(),
            r.records().len() == 0,
    {
        ClientRegistry { rows: Vec::new() }
    }

    fn find(&self, tenant_id: &str, id: &str) -> (r: Option<usize>)
        ensures
            (r matches Some(i) ==> i < self.records().len() && self.records()[i as int].key() == (
            tenant_id@,
            id@,
            )),
            r is None ==> !self.has_client(tenant_id@, id@),
    {
        let n = self.rows.len();
        let mut i: usize = 0;
        while i < n
            invariant
                n == self.records().len(),
                i <= n,
                forall|j: int|
                    0 <= j < i ==> (#[trigger] self.records()[j]).key() != (tenant_id@, id@),
            decreases n - i,
        {
            if str_eq(self.rows[i].tenant_id.as_str(), tenant_id) && str_eq(
                self.rows[i].id.as_str(),
                id,
            ) {
                return Some(i);
            }
            i += 1;
        }
        None
    }

    /// Registers a client under a key: a fresh key appends a row, a
    /// key already registered has its row replaced.
    pub fn create_client(&mut self, tenant_id: &str, id: &str, client: Client) -> (r: Result<
        (),
        Error,
    >)
        requires
            old(self).wf(),
        ensures
            final(self).wf(),
            r is Ok,
            final(self).has_client(tenant_id@, id@),
            final(self).client_for(tenant_id@, id@) == client,
            (!old(self).has_client(tenant_id@, id@) ==> final(self).records() == old(
                self,
            ).records().push(final(self).records().last())),
            (old(self).has_client(tenant_id@, id@) ==> final(self).records() == old(
                self,
            ).records().update(
                old(self).index_of(tenant_id@, id@),
                final(self).records()[old(self).index_of(tenant_id@, id@)],
            )),
            // every other key keeps its registration
            (forall|t: Seq<char>, c: Seq<char>|
                (t, c) != (tenant_id@, id@) ==> #[trigger] final(self).has_client(t, c) == old(
                    self,
                ).has_client(t, c)),
            (forall|t: Seq<char>, c: Seq<char>|
                (t, c) != (tenant_id@, id@) && old(self).has_client(t, c)
                    ==> #[trigger] final(self).client_for(t, c) == old(self).client_for(t, c)),
    {
        let row = ClientRecord { tenant_id: tenant_id.to_owned(), id: id.to_owned(), client };
        let found = self.find(tenant_id, id);
        match found {
            None => {
                self.rows.push(row);
                proof {
                    let post = self.records();
                    let pre = old(self).records();
                    let n = pre.len() as int;
                    assert(post[n].key() == (tenant_id@, id@));
                    assert forall|i: int, j: int| 0 <= i < j < post.len() implies (
                    #[trigger] post[i]).key() != (#[trigger] post[j]).key() by {
                        if j < n {
                            assert(pre[i] == post[i] && pre[j] == post[j]);
                        } else {
                            assert(post[i] == pre[i]);
                            if post[i].key() == post[j].key() {
                                assert(old(self).has_client(tenant_id@, id@));
                            }
                        }
                    }
                    self.lemma_at_index(n);
                    self.lemma_same_others(old(self), n);
                }
            },
            Some(i) => {
                proof {
                    self.lemma_at_index(i as int);
                }
                let _removed = self.rows.remove(i);
                self.rows.insert(i, row);
                proof {
                    let post = self.records();
                    let pre = old(self).records();
                    assert(post =~= pre.update(i as int, post[i as int]));
                    assert(post[i as int].key() == (tenant_id@, id@));
                    assert forall|a: int, b: int| 0 <= a < b < post.len() implies (
                    #[trigger] post[a]).key() != (#[trigger] post[b]).key() by {
                        assert(post[a].key() == pre[a].key());
                        assert(post[b].key() == pre[b].key());
                    }
                    self.lemma_at_index(i as int);
                    self.lemma_same_others(old(self), i as int);
                }
            },
        }
        Ok(())
    }

    /// Rows other than one changed index keep their key lookups.
    proof fn lemma_same_others(&self, pre: &Self, i: int)
        requires
            pre.wf(),
            self.wf(),
            0 <= i < self.records().len(),
            (self.records().len() == pre.records().len() && self.records()[i].key()
                == pre.records()[i].key()) || (self.records().len() == pre.records().len() + 1 && i
                == pre.records().len()),
            forall|k: int|
                0 <= k < self.records().len() && k != i ==> #[trigger] self.records()[k]
                    == pre.records()[k],
        ensures
            forall|t: Seq<char>, c: Seq<char>|
                (t, c) != self.records()[i].key() ==> #[trigger] self.has_client(t, c)
                    == pre.has_client(t, c),
            forall|t: Seq<char>, c: Seq<char>|
                (t, c) != self.records()[i].key() && pre.has_client(t, c)
                    ==> #[trigger] self.client_for(t, c) == pre.client_for(t, c),
    {
        let key = self.records()[i].key();
        assert forall|t: Seq<char>, c: Seq<char>| (t, c) != key implies #[trigger] self.has_client(
            t,
            c,
        ) == pre.has_client(t, c) by {
            if self.has_client(t, c) {
                let k = self.index_of(t, c);
                assert(self.records()[k].key() == (t, c));
                assert(k != i);
                assert(pre.records()[k].key() == (t, c));
                assert(pre.has_client(t, c));
            }
            if pre.has_client(t, c) {
                let k = pre.index_of(t, c);
                assert(pre.records()[k].key() == (t, c));
                assert(k < self.records().len());
                if k == i {
                    assert(false);
                } else {
                    assert(self.records()[k].key() == (t, c));
                    assert(self.has_client(t, c));
                }
            }
        }
        assert forall|t: Seq<char>, c: Seq<char>|
            (t, c) != key && pre.has_client(t, c) implies #[trigger] self.client_for(t, c)
            == pre.client_for(t, c) by {
            let k = pre.index_of(t, c);
            assert(pre.records()[k].key() == (t, c));
            if k == i {
                assert(false);
            }
            assert(self.records()[k].key() == (t, c));
            self.lemma_at_index(k);
            pre.lemma_at_index(k);
        }
    }

    /// Looks a registration up by key; a missing key fails with
    /// `ClientNotFound`.
    pub fn get_client(&self, tenant_id: &str, id: &str) -> (r: Result<Client, Error>)
        requires
            self.wf(),
        ensures
            self.has_client(tenant_id@, id@) ==> r == Ok::<Client, Error>(
                self.client_for(tenant_id@, id@),
            ),
            !self.has_client(tenant_id@, id@) ==> r == Err::<Client, Error>(Error::ClientNotFound),
    {
        match self.find(tenant_id, id) {
            Some(i) => {
                proof {
                    self.lemma_at_index(i as int);
                }
                Ok(self.rows[i].client.clone())
            },
            None => Err(Error::ClientNotFound),
        }
    }

    /// Deletes the registration under a key, if one exists; succeeds
    /// either way.
    pub fn delete_client(&mut self, tenant_id: &str, id: &str) -> (r: Result<(), Error>)
        requires
            old(self).wf(),
        ensures
            final(self).wf(),
            r is Ok,
            !final(self).has_client(tenant_id@, id@),
            (old(self).has_client(tenant_id@, id@) ==> final(self).records() == old(
                self,
            ).records().remove(old(self).index_of(tenant_id@, id@))),
            !old(self).has_client(tenant_id@, id@) ==> *final(self) == *old(self),
    {
        let i = match self.find(tenant_id, id) {
            None => {
                return Ok(());
            },
            Some(i) => i,
        };
        proof {
            self.lemma_at_index(i as int);
        }
        let _removed = self.rows.remove(i);
        proof {
            let post = self.records();
            let pre = old(self).records();
            assert forall|a: int, b: int| 0 <= a < b < post.len() implies (#[trigger] post[a]).key()
                != (#[trigger] post[b]).key() by {
                let a0: int = if a < i {
                    a
                } else {
                    a + 1
                };
                let b0: int = if b < i {
                    b
                } else {
                    b + 1
                };
                assert(post[a] == pre[a0] && post[b] == pre[b0]);
            }
            assert forall|k: int| 0 <= k < post.len() implies (#[trigger] post[k]).key() != (
            tenant_id@,
            id@,
            ) by {
                let k0: int = if k < i {
                    k
                } else {
                    k + 1
                };
                assert(post[k] == pre[k0]);
                if pre[k0].key() == (tenant_id@, id@) {
                    old(self).lemma_at_index(k0);
                }
            }
        }
        Ok(())
    }
}

} // verus!
