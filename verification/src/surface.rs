//! The interactive-surface ledger: how many sign-in surfaces exist under
//! the well-known identifier. A login call must first close any stale
//! surface and then open its own, so there is never more than one at a
//! time. The host owns the real windows; the ledger is the serialized
//! book-keeping every surface action goes through.

use vstd::prelude::*;

verus! {

/// The count of live sign-in surfaces (all sharing the one well-known
/// identifier, so the host can always find and close them).
pub struct SurfaceLedger {
    pub open_surfaces: u64,
}

impl SurfaceLedger {
    /// Never more than one surface at a time.
    pub open spec fn exclusive(self) -> bool {
        self.open_surfaces <= 1
    }

    /// No surface exists at startup.
    pub fn new() -> (l: SurfaceLedger)
        ensures
            l.open_surfaces == 0,
            l.exclusive(),
    {
        SurfaceLedger { open_surfaces: 0 }
    }

    /// Close every surface under the well-known identifier.
    pub fn close_all(&mut self)
        ensures
            final(self).open_surfaces == 0,
            final(self).exclusive(),
    {
        self.open_surfaces = 0;
    }

    /// Begin a login: close whatever stale surface is still open, then
    /// open the new one. From any prior state exactly one surface is left,
    /// and the result says whether a stale one had to go.
    pub fn prepare(&mut self) -> (closed_stale: bool)
        ensures
            final(self).open_surfaces == 1,
            final(self).exclusive(),
            closed_stale == (old(self).open_surfaces > 0),
    {
        let had = self.open_surfaces > 0;
        if had {
            self.open_surfaces = 0;
        }
        self.open_surfaces = 1;
        had
    }
}

/// One serialized surface action: a login's prepare step (close stale,
/// open fresh) or closing everything when a flow ends.
pub enum SurfaceAction {
    Prepare,
    CloseAll,
}

/// The surface count an action leaves behind.
pub open spec fn apply_surface_action(c: nat, a: SurfaceAction) -> nat {
    match a {
        SurfaceAction::Prepare => 1,
        SurfaceAction::CloseAll => 0,
    }
}

/// The surface count after a whole sequence of actions.
pub open spec fn apply_surface_actions(c: nat, actions: Seq<SurfaceAction>) -> nat
    decreases actions.len(),
{
    if actions.len() == 0 {
        c
    } else {
        apply_surface_action(apply_surface_actions(c, actions.drop_last()), actions.last())
    }
}

/// However many login calls interleave their serialized surface actions —
/// two `login()`s racing included — at most one surface exists after every
/// step, and after any login's prepare step exactly one does.
pub proof fn lemma_one_surface_at_a_time(c: nat, actions: Seq<SurfaceAction>)
    requires
        c <= 1,
    ensures
        apply_surface_actions(c, actions) <= 1,
        actions.len() > 0 && actions.last() is Prepare ==> apply_surface_actions(c, actions) == 1,
    decreases actions.len(),
{
    if actions.len() == 0 {
    } else {
        lemma_one_surface_at_a_time(c, actions.drop_last());
    }
}

} // verus!
