//! Repository sessions and the registry that hands out exactly one session
//! slot per repository identity.
//!
//! The registry only maps identities to slots; each slot's `Session` is a
//! separate value, so work on one identity never needs access to another.
use vstd::prelude::*;
use crate::config::RepositoryIdentity;
use crate::lifecycle::{
    admission,
    check_admission,
    next_state,
    transition,
    CapabilityOutcome,
    LifecycleState,
    Operation,
    Refusal,
};

verus! {

/// The unit of serialised access to one repository.
pub struct Session {
    pub identity: RepositoryIdentity,
    pub state: LifecycleState,
}

impl Session {
    /// A fresh session, which knows nothing of the repository yet.
    pub fn new(identity: RepositoryIdentity) -> (r: Session)
        ensures
            r.identity == identity,
            r.state == LifecycleState::Unknown,
    {
        Session { identity, state: LifecycleState::Unknown }
    }

    /// Decides whether `op` with `path_count` paths may be handed to the
    /// repository capability now. The session is not changed.
    pub fn begin(&self, op: Operation, path_count: usize) -> (r: Result<(), Refusal>)
        ensures
            r == admission(self.state, op, path_count as nat),
    {
        check_admission(self.state, op, path_count)
    }

    /// Records what the capability reported for `op`.
    pub fn complete(&mut self, op: Operation, outcome: CapabilityOutcome)
        ensures
            final(self).identity == old(self).identity,
            final(self).state == next_state(old(self).state, op, outcome),
    {
        self.state = transition(self.state, op, outcome);
    }
}

/// Maps each repository identity that has been referenced to its slot.
pub struct SessionRegistry {
    identities: Vec<RepositoryIdentity>,
}

/// No identity occupies two slots.
pub open spec fn distinct_identities(ids: Seq<(Seq<char>, Option<Seq<char>>)>) -> bool {
    forall|i: int, j: int| 0 <= i < j < ids.len() ==> ids[i] != ids[j]
}

impl SessionRegistry {
    /// The identity held in each slot, in slot order.
    pub closed spec fn view(&self) -> Seq<(Seq<char>, Option<Seq<char>>)> {
        self.identities@.map_values(|id: RepositoryIdentity| id.view())
    }

    pub open spec fn wf(&self) -> bool {
        distinct_identities(self.view())
    }

    pub fn new() -> (r: SessionRegistry)
        ensures
            r.wf(),
            r.view().len() == 0,
    {
        let r = SessionRegistry { identities: Vec::new() };
        assert(r.view() =~= Seq::<(Seq<char>, Option<Seq<char>>)>::empty());
        r
    }

    /// Number of slots handed out so far.
    pub fn len(&self) -> (r: usize)
        ensures
            r == self.view().len(),
    {
        self.identities.len()
    }

    /// The slot of `id`, if it has been referenced before.
    pub fn lookup(&self, id: &RepositoryIdentity) -> (r: Option<usize>)
        ensures
            match r {
                Some(i) => i < self.view().len() && self.view()[i as int] == id.view(),
                None => forall|i: int| 0 <= i < self.view().len() ==> self.view()[i] != id.view(),
            },
    {
        let mut i: usize = 0;
        while i < self.identities.len()
            invariant
                i <= self.identities@.len(),
                self.view().len() == self.identities@.len(),
                forall|k: int| 0 <= k < i ==> self.view()[k] != id.view(),
            decreases self.identities@.len() - i,
        {
            if self.identities[i].same(id) {
                return Some(i);
            }
            i = i + 1;
        }
        None
    }

    /// The slot for `id`: the existing one, or a new one appended when `id` is
    /// referenced for the first time. The flag tells whether a slot was created,
    /// in which case the caller starts a fresh `Session` for it.
    pub fn resolve(&mut self, id: &RepositoryIdentity) -> (r: (usize, bool))
        requires
            old(self).wf(),
        ensures
            final(self).wf(),
            r.0 < final(self).view().len(),
            final(self).view()[r.0 as int] == id.view(),
            !r.1 ==> final(self).view() == old(self).view(),
            r.1 ==> {
                &&& forall|i: int|
                    0 <= i < old(self).view().len() ==> old(self).view()[i] != id.view()
                &&& final(self).view() == old(self).view().push(id.view())
                &&& r.0 == old(self).view().len()
            },
    {
        match self.lookup(id) {
            Some(i) => (i, false),
            None => {
                let ghost before = self.view();
                let slot = self.identities.len();
                self.identities.push(id.duplicate());
                assert(self.view() =~= before.push(id.view()));
                (slot, true)
            },
        }
    }
}

/// Two slots of a registry coincide exactly when their identities do: one
/// identity never has two sessions, and calls on distinct identities never
/// share one.
pub proof fn one_session_per_identity(registry: &SessionRegistry, i: int, j: int)
    requires
        registry.wf(),
        0 <= i < registry.view().len(),
        0 <= j < registry.view().len(),
    ensures
        (registry.view()[i] == registry.view()[j]) <==> i == j,
{
}

} // verus!
