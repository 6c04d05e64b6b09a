//! The write-once startup bootstrap of the privileged role.
//!
//! Before the first request is served, the process looks the "admin" role
//! record up in the store and creates it if it is absent; the record's
//! identifier is then read-many for the rest of the process lifetime. The
//! store itself is an external collaborator: the state machine here takes
//! what the lookup and the creation returned and decides, and the one
//! startup-phase caller runs it to completion before any reader exists.

use vstd::prelude::*;

verus! {

/// Where the bootstrap stands. There is no transition back to
/// `Uninitialized`: once a role id is observed it never changes.
pub enum BootstrapPhase {
    /// Nothing has run yet.
    Uninitialized,
    /// The lookup has been issued; the store's answer decides what is next.
    Initializing,
    /// The role id is established and may be read.
    Initialized(Seq<char>),
}

/// The bootstrap of the privileged role record, as a state machine over the
/// store's answers.
pub struct AdminRoleBootstrap {
    state: Option<String>,
    started: bool,
}

impl View for AdminRoleBootstrap {
    type V = BootstrapPhase;

    closed spec fn view(&self) -> BootstrapPhase {
        match self.state {
            Some(id) => BootstrapPhase::Initialized(id@),
            None => if self.started {
                BootstrapPhase::Initializing
            } else {
                BootstrapPhase::Uninitialized
            },
        }
    }
}

impl AdminRoleBootstrap {
    /// A bootstrap that has not run.
    pub fn new() -> (r: AdminRoleBootstrap)
        ensures
            r@ is Uninitialized,
    {
        AdminRoleBootstrap { state: None, started: false }
    }

    /// Record that the one startup-phase run has begun; the transition out
    /// of `Uninitialized` happens at most once per process lifetime, so a
    /// second call is a programming error and is excluded.
    pub fn begin(&mut self)
        requires
            old(self)@ is Uninitialized,
        ensures
            final(self)@ is Initializing,
    {
        self.started = true;
    }

    /// Feed in what the lookup for the "admin" row returned: an existing id
    /// completes the bootstrap; absence leaves it waiting for the creation.
    pub fn on_lookup(&mut self, found: Option<String>)
        requires
            old(self)@ is Initializing,
        ensures
            found matches Some(id) ==> final(self)@ == BootstrapPhase::Initialized(id@),
            found is None ==> final(self)@ is Initializing,
    {
        self.state = found;
    }

    /// Feed in the id of the row the store created for the "admin" role.
    pub fn on_created(&mut self, id: String)
        requires
            old(self)@ is Initializing,
        ensures
            final(self)@ == BootstrapPhase::Initialized(id@),
    {
        self.state = Some(id);
    }

    /// The established role id. Reading before the bootstrap completed is a
    /// programming error, not a recoverable condition, and is excluded.
    pub fn role_id(&self) -> (r: &String)
        requires
            self@ is Initialized,
        ensures
            self@ == BootstrapPhase::Initialized(r@),
    {
        match &self.state {
            Some(id) => id,
            None => unreached(),
        }
    }
}

/// One full bootstrap pass against the store: `existing` is the admin row's
/// id as the store holds it before the pass, `fresh_id` the id the store
/// would assign to a newly created row. The pass returns the row the store
/// holds afterwards and the id this pass observes.
pub open spec fn bootstrap_pass_spec(existing: Option<Seq<char>>, fresh_id: Seq<char>) -> (
    Option<Seq<char>>,
    Seq<char>,
) {
    match existing {
        Some(id) => (Some(id), id),
        None => (Some(fresh_id), fresh_id),
    }
}

/// The store's admin row, as the contracts speak of it.
pub open spec fn row_view(row: Option<String>) -> Option<Seq<char>> {
    match row {
        Some(id) => Some(id@),
        None => None,
    }
}

/// Run one bootstrap pass: reuse the existing admin row, or create it. This
/// is the pure decision of the pass; the caller performs the lookup before
/// and the insert after, as `bootstrap_pass_spec` says.
pub fn bootstrap_pass(existing: Option<String>, fresh_id: String) -> (r: (Option<String>, String))
    ensures
        (row_view(r.0), r.1@) == bootstrap_pass_spec(row_view(existing), fresh_id@),
{
    match existing {
        Some(id) => {
            let observed = id.clone();
            (Some(id), observed)
        },
        None => {
            let row = fresh_id.clone();
            (Some(row), fresh_id)
        },
    }
}

/// Bootstrap idempotence: two passes against an initially empty store end
/// with exactly the one admin row the first pass created, and both passes
/// observe the same identifier.
pub proof fn lemma_bootstrap_idempotent(first_fresh: Seq<char>, second_fresh: Seq<char>)
    ensures
        ({
            let (store1, seen1) = bootstrap_pass_spec(None, first_fresh);
            let (store2, seen2) = bootstrap_pass_spec(store1, second_fresh);
            store1 == Some(first_fresh) && store2 == store1 && seen1 == first_fresh && seen2
                == seen1
        }),
{
}

} // verus!
