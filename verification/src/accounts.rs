//! The account facade: the typed operations a host shell invokes. Store
//! queries and mutations delegate to the credential store; the login
//! paths tie the flow controller's verdicts to the store and the surface
//! ledger. The host drives the actual browser surface and the identity
//! service, and calls in here for every decision and every state change.

use vstd::prelude::*;
use crate::credential::AccountType;
use crate::credential::AuthError;
use crate::credential::Credential;
use crate::credential::Session;
use crate::store::CredentialStore;
use crate::surface::SurfaceLedger;

verus! {

/// The facade's state: the shared credential directory, the current
/// session's classification, and the surface ledger.
pub struct Accounts {
    pub store: CredentialStore,
    pub session: Session,
    pub surfaces: SurfaceLedger,
}

impl Accounts {
    pub open spec fn wf(self) -> bool {
        self.store.wf()
    }

    /// Fresh state: an empty directory, a local session, no surface.
    pub fn new() -> (a: Accounts)
        ensures
            a.wf(),
            forall|id: u128| !a.store.has(id),
            a.store.default_id() is None,
            a.session.account_type is Local,
            a.surfaces.open_surfaces == 0,
    {
        Accounts {
            store: CredentialStore::new(),
            session: Session { account_type: AccountType::Local },
            surfaces: SurfaceLedger::new(),
        }
    }

    /// Drop a user's credential; clears the default pointer if it pointed
    /// there. A no-op for an unknown identifier.
    pub fn remove_user(&mut self, user: u128)
        requires
            old(self).wf(),
        ensures
            final(self).wf(),
            !final(self).store.has(user),
            forall|id: u128| id != user ==> final(self).store.has(id) == old(self).store.has(id),
            final(self).store.id_set() =~= old(self).store.id_set().remove(user),
            final(self).store.default_id() == (if old(self).store.default_id() == Some(user) {
                None::<u128>
            } else {
                old(self).store.default_id()
            }),
            final(self).session == old(self).session,
            final(self).surfaces == old(self).surfaces,
    {
        self.store.remove(user);
    }

    /// The default user's identifier, if one is set.
    pub fn get_default_user(&self) -> (r: Option<u128>)
        ensures
            r == self.store.default_id(),
    {
        self.store.get_default()
    }

    /// Make `user` the default. Succeeds exactly when `user` is present;
    /// otherwise `NotFound`, with nothing changed.
    pub fn set_default_user(&mut self, user: u128) -> (r: Result<(), AuthError>)
        requires
            old(self).wf(),
        ensures
            final(self).wf(),
            r is Ok <==> old(self).store.has(user),
            r is Err ==> r == Err::<(), AuthError>(AuthError::NotFound),
            r is Ok ==> final(self).store.default_id() == Some(user),
            r is Err ==> *final(self) == *old(self),
            final(self).store.creds() == old(self).store.creds(),
            final(self).session == old(self).session,
            final(self).surfaces == old(self).surfaces,
    {
        self.store.set_default(user)
    }

    /// A snapshot of every stored credential.
    pub fn get_users(&self) -> (r: Vec<Credential>)
        ensures
            r@ == self.store.creds(),
    {
        self.store.list()
    }

    /// The wire tag of the current session's classification: `"local"` or
    /// `"microsoft"`.
    pub fn get_account_type(&self) -> (s: String)
        ensures
            self.session.account_type is Local ==> s@ == "local"@,
            self.session.account_type is Microsoft ==> s@ == "microsoft"@,
    {
        self.session.account_type.wire_tag()
    }

    /// Begin a login: close any stale sign-in surface, then open the new
    /// one. Exactly one surface is open afterwards; the directory is
    /// untouched. Returns whether a stale surface had to be closed.
    pub fn begin_login(&mut self) -> (closed_stale: bool)
        requires
            old(self).wf(),
        ensures
            final(self).wf(),
            final(self).surfaces.open_surfaces == 1,
            closed_stale == (old(self).surfaces.open_surfaces > 0),
            final(self).store == old(self).store,
            final(self).session == old(self).session,
    {
        self.surfaces.prepare()
    }

    /// Close the sign-in surface: on accepting a redirect (before the
    /// exchange), on cancellation and on timeout alike.
    pub fn close_surface(&mut self)
        requires
            old(self).wf(),
        ensures
            final(self).wf(),
            final(self).surfaces.open_surfaces == 0,
            final(self).store == old(self).store,
            final(self).session == old(self).session,
    {
        self.surfaces.close_all()
    }

    /// A flow ended with no credential — the user closed the surface or
    /// the deadline passed. The surface is closed and nothing else
    /// changes: cancellation is not an error and leaves no trace.
    pub fn cancel_login(&mut self) -> (r: Option<Credential>)
        requires
            old(self).wf(),
        ensures
            final(self).wf(),
            r is None,
            final(self).surfaces.open_surfaces == 0,
            final(self).store == old(self).store,
            final(self).session == old(self).session,
    {
        self.surfaces.close_all();
        None
    }

    /// The exchange succeeded: record the new credential in the
    /// directory (replacing any under the same identifier) and hand it to
    /// the caller. The session is now backed by the identity provider.
    pub fn finish_login(&mut self, cred: Credential) -> (r: Option<Credential>)
        requires
            old(self).wf(),
        ensures
            final(self).wf(),
            r matches Some(c) && c == cred,
            final(self).store.has(cred.user_id),
            final(self).store.cred_of(cred.user_id) == cred,
            forall|id: u128|
                id != cred.user_id ==> final(self).store.has(id) == old(self).store.has(id),
            final(self).store.id_set() =~= old(self).store.id_set().insert(cred.user_id),
            final(self).store.default_id() == old(self).store.default_id(),
            final(self).session.account_type is Microsoft,
    {
        let copy = cred.duplicate();
        self.store.add_or_replace(cred);
        self.session = Session { account_type: AccountType::Microsoft };
        Some(copy)
    }
}

} // verus!
