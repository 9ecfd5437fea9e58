//! The live sessions, one per tenant at most.
//!
//! A session enters only through `create_if_absent`, which checks and inserts
//! in one step, so two start requests for one tenant cannot both succeed.

use std::collections::HashMap;
use vstd::prelude::*;

verus! {

/// Why a registry operation was rejected.
#[derive(Debug, PartialEq, Eq, Structural)]
pub enum RegistryError {
    /// The tenant already has a session.
    AlreadyExists,
}

/// The registry after an attempt to create a session for `tenant`, and
/// whether the attempt succeeded.
pub open spec fn create_spec<S>(m: Map<u64, S>, tenant: u64, session: S) -> (Map<u64, S>, bool) {
    if m.contains_key(tenant) {
        (m, false)
    } else {
        (m.insert(tenant, session), true)
    }
}

/// The registry after attempts to create the given sessions for `tenant`,
/// one after another, and how many attempts succeeded.
pub open spec fn create_attempts<S>(m: Map<u64, S>, tenant: u64, sessions: Seq<S>) -> (
    Map<u64, S>,
    nat,
)
    decreases sessions.len(),
{
    if sessions.len() == 0 {
        (m, 0)
    } else {
        let (before, won) = create_attempts(m, tenant, sessions.drop_last());
        let (after, ok) = create_spec(before, tenant, sessions.last());
        (after, if ok {
            won + 1
        } else {
            won
        })
    }
}

/// Of any number N > 0 of attempts to create a session for a tenant that has
/// none, exactly one succeeds, the first, and the other N - 1 are rejected;
/// the tenant then has the first attempt's session.
pub proof fn lemma_create_is_exclusive<S>(m: Map<u64, S>, tenant: u64, sessions: Seq<S>)
    requires
        !m.contains_key(tenant),
        sessions.len() > 0,
    ensures
        create_attempts(m, tenant, sessions).1 == 1,
        create_attempts(m, tenant, sessions).0.contains_key(tenant),
        create_attempts(m, tenant, sessions).0[tenant] == sessions[0],
    decreases sessions.len(),
{
    let prev = sessions.drop_last();
    if sessions.len() > 1 {
        lemma_create_is_exclusive(m, tenant, prev);
        let (before, won) = create_attempts(m, tenant, prev);
        assert(create_spec(before, tenant, sessions.last()) == (before, false));
        assert(prev[0] == sessions[0]);
    } else {
        assert(prev =~= Seq::<S>::empty());
        assert(create_attempts(m, tenant, prev) == (m, 0nat));
        assert(create_spec(m, tenant, sessions.last()) == (m.insert(tenant, sessions[0]), true));
    }
}

/// The live sessions, by tenant.
pub struct SessionRegistry<S> {
    sessions: HashMap<u64, S>,
}

impl<S> View for SessionRegistry<S> {
    type V = Map<u64, S>;

    closed spec fn view(&self) -> Map<u64, S> {
        self.sessions@
    }
}

impl<S> SessionRegistry<S> {
    pub fn new() -> (r: SessionRegistry<S>)
        ensures
            r@ == Map::<u64, S>::empty(),
    {
        SessionRegistry { sessions: HashMap::new() }
    }

    /// Adds `session` for `tenant` unless the tenant already has one; the
    /// check and the insertion are one step.
    pub fn create_if_absent(&mut self, tenant: u64, session: S) -> (r: Result<(), RegistryError>)
        ensures
            (final(self)@, r is Ok) == create_spec(old(self)@, tenant, session),
            r is Err ==> r == Err::<(), RegistryError>(RegistryError::AlreadyExists),
    {
        broadcast use vstd::std_specs::hash::group_hash_axioms;

        if self.sessions.contains_key(&tenant) {
            Err(RegistryError::AlreadyExists)
        } else {
            self.sessions.insert(tenant, session);
            Ok(())
        }
    }

    /// The tenant's session, if it has one.
    pub fn get(&self, tenant: u64) -> (r: Option<&S>)
        ensures
            match r {
                Some(s) => self@.contains_key(tenant) && *s == self@[tenant],
                None => !self@.contains_key(tenant),
            },
    {
        broadcast use vstd::std_specs::hash::group_hash_axioms;

        self.sessions.get(&tenant)
    }

    /// Whether the tenant has a session.
    pub fn contains(&self, tenant: u64) -> (r: bool)
        ensures
            r == self@.contains_key(tenant),
    {
        broadcast use vstd::std_specs::hash::group_hash_axioms;

        self.sessions.contains_key(&tenant)
    }

    /// Takes the tenant's session out, if it has one.
    pub fn remove(&mut self, tenant: u64) -> (r: Option<S>)
        ensures
            final(self)@ == old(self)@.remove(tenant),
            match r {
                Some(s) => old(self)@.contains_key(tenant) && s == old(self)@[tenant],
                None => !old(self)@.contains_key(tenant),
            },
    {
        broadcast use vstd::std_specs::hash::group_hash_axioms;

        self.sessions.remove(&tenant)
    }

    /// The number of live sessions.
    pub fn len(&self) -> (r: usize)
        ensures
            r == self@.len(),
    {
        broadcast use vstd::std_specs::hash::group_hash_axioms;

        self.sessions.len()
    }
}

} // verus!
