//! The credential store: a directory of credentials keyed by user
//! identifier, plus an optional default-user pointer that always refers to
//! a present entry.

use vstd::prelude::*;
use crate::credential::AuthError;
use crate::credential::Credential;

verus! {

/// Whether the sequence holds a credential with this identifier.
pub open spec fn cred_seq_has(s: Seq<Credential>, id: u128) -> bool {
    exists|i: int| 0 <= i < s.len() && s[i].user_id == id
}

/// The credential stored under `id` (meaningful only when present).
pub open spec fn cred_seq_at(s: Seq<Credential>, id: u128) -> Credential {
    s[choose|i: int| 0 <= i < s.len() && s[i].user_id == id]
}

/// No two entries share an identifier.
pub open spec fn cred_seq_unique(s: Seq<Credential>) -> bool {
    forall|i: int, j: int| 0 <= i < j < s.len() ==> s[i].user_id != s[j].user_id
}

/// In a duplicate-free sequence, the entry at a known index is the entry
/// looked up by its identifier.
pub proof fn lemma_cred_seq_found(s: Seq<Credential>, i: int)
    requires
        cred_seq_unique(s),
        0 <= i < s.len(),
    ensures
        cred_seq_has(s, s[i].user_id),
        cred_seq_at(s, s[i].user_id) == s[i],
{
    let id = s[i].user_id;
    assert(cred_seq_has(s, id));
    let j = choose|j: int| 0 <= j < s.len() && s[j].user_id == id;
    if i < j {
        assert(s[i].user_id != s[j].user_id);
    } else if j < i {
        assert(s[j].user_id != s[i].user_id);
    }
}

/// The durable collection of credentials. Keys (user identifiers) are
/// unique; the default-user pointer, if set, refers to a present key.
/// Persistence to disk is the host's responsibility and happens outside.
pub struct CredentialStore {
    users: Vec<Credential>,
    default_user: Option<u128>,
}

impl CredentialStore {
    /// The stored credentials, in storage order.
    pub closed spec fn creds(self) -> Seq<Credential> {
        self.users@
    }

    /// The identifiers present, in storage order.
    pub open spec fn ids(self) -> Seq<u128> {
        self.creds().map_values(|c: Credential| c.user_id)
    }

    /// The identifiers present, as a set: the store's abstract domain.
    pub open spec fn id_set(self) -> Set<u128> {
        Set::new(|id: u128| self.has(id))
    }

    /// Whether a credential with this identifier is present.
    pub open spec fn has(self, id: u128) -> bool {
        cred_seq_has(self.creds(), id)
    }

    /// The credential stored under `id` (meaningful only when `has(id)`).
    pub open spec fn cred_of(self, id: u128) -> Credential {
        cred_seq_at(self.creds(), id)
    }

    /// The default-user pointer.
    pub closed spec fn default_id(self) -> Option<u128> {
        self.default_user
    }

    /// Well-formedness: identifiers are unique and the default pointer, if
    /// set, refers to a present entry.
    pub open spec fn wf(self) -> bool {
        &&& cred_seq_unique(self.creds())
        &&& (self.default_id() matches Some(d) ==> self.has(d))
    }

    /// An empty store: no credentials, no default user.
    pub fn new() -> (s: CredentialStore)
        ensures
            s.wf(),
            forall|id: u128| !s.has(id),
            s.default_id() is None,
    {
        CredentialStore { users: Vec::new(), default_user: None }
    }

    /// Scan for the position of `id`, if present.
    fn position_of(&self, id: u128) -> (r: Option<usize>)
        ensures
            r matches Some(i) ==> 0 <= i < self.creds().len() && self.creds()[i as int].user_id
                == id,
            r is None ==> !self.has(id),
    {
        let n = self.users.len();
        let mut i: usize = 0;
        while i < n
            invariant
                n == self.users@.len(),
                0 <= i <= n,
                forall|j: int| 0 <= j < i ==> self.users@[j].user_id != id,
            decreases n - i,
        {
            if self.users[i].user_id == id {
                return Some(i);
            }
            i = i + 1;
        }
        None
    }

    /// Insert a credential, replacing any entry with the same identifier.
    /// Never fails; the default pointer is untouched.
    pub fn add_or_replace(&mut self, c: Credential)
        requires
            old(self).wf(),
        ensures
            final(self).wf(),
            final(self).has(c.user_id),
            final(self).cred_of(c.user_id) == c,
            forall|id: u128| id != c.user_id ==> final(self).has(id) == old(self).has(id),
            forall|id: u128|
                id != c.user_id && old(self).has(id) ==> final(self).cred_of(id) == old(
                    self,
                ).cred_of(id),
            final(self).id_set() =~= old(self).id_set().insert(c.user_id),
            final(self).default_id() == old(self).default_id(),
    {
        let ghost pre = self.users@;
        let ghost cid = c.user_id;
        match self.position_of(c.user_id) {
            Some(i) => {
                self.users.set(i, c);
                proof {
                    let cur = self.users@;
                    assert(cur == pre.update(i as int, cur[i as int]));
                    assert(cur[i as int].user_id == cid);
                    assert(cred_seq_unique(cur)) by {
                        assert forall|a: int, b: int|
                            0 <= a < b < cur.len() implies cur[a].user_id != cur[b].user_id by {
                            if a != i as int && b != i as int {
                                assert(pre[a].user_id != pre[b].user_id);
                            } else {
                                assert(pre[a].user_id != pre[b].user_id);
                            }
                        }
                    }
                    assert forall|id: u128| cred_seq_has(cur, id) == cred_seq_has(pre, id) by {
                        if cred_seq_has(cur, id) {
                            let j = choose|j: int| 0 <= j < cur.len() && cur[j].user_id == id;
                            assert(pre[j].user_id == id);
                        }
                        if cred_seq_has(pre, id) {
                            let j = choose|j: int| 0 <= j < pre.len() && pre[j].user_id == id;
                            assert(cur[j].user_id == id);
                        }
                    }
                    assert forall|id: u128| id != cid && cred_seq_has(pre, id) implies cred_seq_at(
                        cur,
                        id,
                    ) == cred_seq_at(pre, id) by {
                        let j = choose|j: int| 0 <= j < pre.len() && pre[j].user_id == id;
                        assert(cur[j].user_id == id);
                        lemma_cred_seq_found(pre, j);
                        lemma_cred_seq_found(cur, j);
                    }
                    lemma_cred_seq_found(cur, i as int);
                }
            },
            None => {
                self.users.push(c);
                proof {
                    let cur = self.users@;
                    let n = pre.len();
                    assert(cur[n as int].user_id == cid);
                    assert(cred_seq_unique(cur)) by {
                        assert forall|a: int, b: int|
                            0 <= a < b < cur.len() implies cur[a].user_id != cur[b].user_id by {
                            if b == n as int {
                                assert(cur[a] == pre[a]);
                                assert(!cred_seq_has(pre, cid));
                                assert(pre[a].user_id != cid);
                            } else {
                                assert(cur[a] == pre[a]);
                                assert(cur[b] == pre[b]);
                                assert(pre[a].user_id != pre[b].user_id);
                            }
                        }
                    }
                    assert forall|id: u128| id != cid implies cred_seq_has(cur, id) == cred_seq_has(
                        pre,
                        id,
                    ) by {
                        if cred_seq_has(cur, id) {
                            let j = choose|j: int| 0 <= j < cur.len() && cur[j].user_id == id;
                            assert(j != n as int);
                            assert(pre[j].user_id == id);
                        }
                        if cred_seq_has(pre, id) {
                            let j = choose|j: int| 0 <= j < pre.len() && pre[j].user_id == id;
                            assert(cur[j].user_id == id);
                        }
                    }
                    assert forall|id: u128| id != cid && cred_seq_has(pre, id) implies cred_seq_at(
                        cur,
                        id,
                    ) == cred_seq_at(pre, id) by {
                        let j = choose|j: int| 0 <= j < pre.len() && pre[j].user_id == id;
                        assert(cur[j].user_id == id);
                        lemma_cred_seq_found(pre, j);
                        lemma_cred_seq_found(cur, j);
                    }
                    lemma_cred_seq_found(cur, n as int);
                }
            },
        }
    }

    /// Delete the entry with this identifier, if present; a no-op
    /// otherwise. Removing the default user clears the default pointer.
    pub fn remove(&mut self, id: u128)
        requires
            old(self).wf(),
        ensures
            final(self).wf(),
            !final(self).has(id),
            forall|id2: u128| id2 != id ==> final(self).has(id2) == old(self).has(id2),
            forall|id2: u128|
                id2 != id && old(self).has(id2) ==> final(self).cred_of(id2) == old(
                    self,
                ).cred_of(id2),
            final(self).id_set() =~= old(self).id_set().remove(id),
            final(self).default_id() == (if old(self).default_id() == Some(id) {
                None::<u128>
            } else {
                old(self).default_id()
            }),
    {
        let ghost pre = self.users@;
        if let Some(d) = self.default_user {
            if d == id {
                self.default_user = None;
            }
        }
        match self.position_of(id) {
            Some(i) => {
                let _ = self.users.remove(i);
                proof {
                    let cur = self.users@;
                    let n = pre.len();
                    assert(cur == pre.subrange(0, i as int) + pre.subrange(i as int + 1, n as int));
                    assert forall|j: int| 0 <= j < cur.len() implies cur[j] == (if j < i as int {
                        pre[j]
                    } else {
                        pre[j + 1]
                    }) by {}
                    assert(cred_seq_unique(cur)) by {
                        assert forall|a: int, b: int|
                            0 <= a < b < cur.len() implies cur[a].user_id != cur[b].user_id by {
                            let pa: int = if a < i as int {
                                a
                            } else {
                                a + 1
                            };
                            let pb: int = if b < i as int {
                                b
                            } else {
                                b + 1
                            };
                            assert(cur[a] == pre[pa]);
                            assert(cur[b] == pre[pb]);
                            assert(pre[pa].user_id != pre[pb].user_id);
                        }
                    }
                    assert forall|j: int| 0 <= j < cur.len() implies cur[j].user_id != id by {
                        if j < i as int {
                            assert(cur[j] == pre[j]);
                        } else {
                            assert(cur[j] == pre[j + 1]);
                        }
                    }
                    assert(!cred_seq_has(cur, id));
                    assert forall|id2: u128| id2 != id implies cred_seq_has(cur, id2)
                        == cred_seq_has(pre, id2) by {
                        if cred_seq_has(cur, id2) {
                            let j = choose|j: int| 0 <= j < cur.len() && cur[j].user_id == id2;
                            if j < i as int {
                                assert(pre[j].user_id == id2);
                            } else {
                                assert(pre[j + 1].user_id == id2);
                            }
                        }
                        if cred_seq_has(pre, id2) {
                            let j = choose|j: int| 0 <= j < pre.len() && pre[j].user_id == id2;
                            assert(j != i as int);
                            if j < i as int {
                                assert(cur[j].user_id == id2);
                            } else {
                                assert(cur[j - 1].user_id == id2);
                            }
                        }
                    }
                    assert forall|id2: u128| id2 != id && cred_seq_has(pre, id2) implies cred_seq_at(
                        cur,
                        id2,
                    ) == cred_seq_at(pre, id2) by {
                        let j = choose|j: int| 0 <= j < pre.len() && pre[j].user_id == id2;
                        lemma_cred_seq_found(pre, j);
                        if j < i as int {
                            assert(cur[j] == pre[j]);
                            lemma_cred_seq_found(cur, j);
                        } else {
                            assert(j != i as int);
                            assert(cur[j - 1] == pre[j]);
                            lemma_cred_seq_found(cur, j - 1);
                        }
                    }
                }
            },
            None => {},
        }
    }

    /// A snapshot of every stored credential, in storage order.
    pub fn list(&self) -> (r: Vec<Credential>)
        ensures
            r@ == self.creds(),
    {
        let n = self.users.len();
        let mut r: Vec<Credential> = Vec::new();
        let mut i: usize = 0;
        while i < n
            invariant
                n == self.users@.len(),
                0 <= i <= n,
                r@.len() == i,
                forall|j: int| 0 <= j < i ==> #[trigger] r@[j] == self.users@[j],
            decreases n - i,
        {
            r.push(self.users[i].duplicate());
            i = i + 1;
        }
        proof {
            assert(r@ =~= self.creds());
        }
        r
    }

    /// In a well-formed store the listed snapshot is faithful: entry `i`
    /// is exactly the credential stored under the `i`-th identifier, and
    /// every listed identifier is present.
    pub proof fn lemma_list_faithful(self)
        requires
            self.wf(),
        ensures
            self.creds().len() == self.ids().len(),
            forall|i: int|
                0 <= i < self.creds().len() ==> #[trigger] self.creds()[i].user_id == self.ids()[i],
            forall|i: int|
                0 <= i < self.creds().len() ==> self.has(#[trigger] self.creds()[i].user_id)
                    && self.cred_of(self.creds()[i].user_id) == self.creds()[i],
    {
        assert forall|i: int| 0 <= i < self.creds().len() implies self.has(
            #[trigger] self.creds()[i].user_id,
        ) && self.cred_of(self.creds()[i].user_id) == self.creds()[i] by {
            lemma_cred_seq_found(self.creds(), i);
        }
    }

    /// The default-user pointer, if any.
    pub fn get_default(&self) -> (r: Option<u128>)
        ensures
            r == self.default_id(),
    {
        self.default_user
    }

    /// Point the default at `id`. Succeeds exactly when `id` is present;
    /// otherwise fails with `NotFound` and changes nothing.
    pub fn set_default(&mut self, id: u128) -> (r: Result<(), AuthError>)
        requires
            old(self).wf(),
        ensures
            final(self).wf(),
            r is Ok <==> old(self).has(id),
            r is Err ==> r == Err::<(), AuthError>(AuthError::NotFound),
            r is Ok ==> final(self).default_id() == Some(id),
            r is Err ==> *final(self) == *old(self),
            final(self).creds() == old(self).creds(),
    {
        match self.position_of(id) {
            Some(i) => {
                proof {
                    lemma_cred_seq_found(self.users@, i as int);
                }
                self.default_user = Some(id);
                Ok(())
            },
            None => Err(AuthError::NotFound),
        }
    }

    /// A snapshot of the credential under `id`, if present.
    pub fn get(&self, id: u128) -> (r: Option<Credential>)
        requires
            self.wf(),
        ensures
            r is Some <==> self.has(id),
            r matches Some(c) ==> c == self.cred_of(id),
    {
        match self.position_of(id) {
            Some(i) => {
                proof {
                    lemma_cred_seq_found(self.creds(), i as int);
                }
                Some(self.users[i].duplicate())
            },
            None => None,
        }
    }
}

/// One mutation of the directory, reduced to the identifier it touches:
/// the abstract shape of `add_or_replace` and `remove`.
pub enum StoreOp {
    AddOrReplace(u128),
    Remove(u128),
}

/// The identifiers present after one operation on an abstract domain,
/// exactly as the `ensures` of `add_or_replace` and `remove` state it.
pub open spec fn apply_op(s: Set<u128>, op: StoreOp) -> Set<u128> {
    match op {
        StoreOp::AddOrReplace(id) => s.insert(id),
        StoreOp::Remove(id) => s.remove(id),
    }
}

/// The identifiers present after a whole sequence of operations.
pub open spec fn apply_ops(s: Set<u128>, ops: Seq<StoreOp>) -> Set<u128>
    decreases ops.len(),
{
    if ops.len() == 0 {
        s
    } else {
        apply_op(apply_ops(s, ops.drop_last()), ops.last())
    }
}

/// Whether `id` was added (or initially present) and not removed since:
/// the last operation touching `id` is an add, or none touches it and it
/// was there at the start.
pub open spec fn not_yet_removed(id: u128, s0: Set<u128>, ops: Seq<StoreOp>) -> bool
    decreases ops.len(),
{
    if ops.len() == 0 {
        s0.contains(id)
    } else {
        match ops.last() {
            StoreOp::AddOrReplace(a) => a == id || not_yet_removed(id, s0, ops.drop_last()),
            StoreOp::Remove(r) => r != id && not_yet_removed(id, s0, ops.drop_last()),
        }
    }
}

/// After any sequence of `add_or_replace`/`remove` operations the store's
/// domain is exactly the set of not-yet-removed identifiers. The `ensures`
/// of the two mutators say that each step takes `id_set()` to
/// `apply_op(id_set(), op)`, so this law carries over to any run of them.
pub proof fn lemma_store_tracks_ops(s0: Set<u128>, ops: Seq<StoreOp>)
    ensures
        apply_ops(s0, ops) =~= Set::new(|id: u128| not_yet_removed(id, s0, ops)),
    decreases ops.len(),
{
    if ops.len() == 0 {
    } else {
        lemma_store_tracks_ops(s0, ops.drop_last());
    }
}

} // verus!
