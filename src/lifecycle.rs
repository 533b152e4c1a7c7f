//! The repository lifecycle state machine.
//!
//! Initialisation moves a session from `Unknown` or `NotInitialized` to
//! `Initialized`, then on to `Opened` and `Indexed`; the presence query is
//! read-only and never moves a session. A session falls into the sticky `Faulted` state when the repository capability
//! reports a failure that leaves the repository in an ambiguous condition.
//! The capability calls themselves happen outside; this module decides whether
//! an operation may start and what state it leaves behind.
use vstd::prelude::*;

verus! {

/// The stage a repository session has reached.
#[derive(Clone, Copy, Debug, PartialEq, Eq, Structural)]
pub enum LifecycleState {
    Unknown,
    NotInitialized,
    Initialized,
    Opened,
    Indexed,
    Faulted,
}

/// A lifecycle operation that can be requested against a session.
#[derive(Clone, Copy, Debug, PartialEq, Eq, Structural)]
pub enum Operation {
    Exists,
    Init,
    Open,
    Index,
    Backup,
}

/// What the repository capability reported for an operation it ran.
#[derive(Clone, Copy, Debug, PartialEq, Eq, Structural)]
pub enum CapabilityOutcome {
    /// The operation completed.
    Completed,
    /// The presence query answered whether the repository exists.
    Present(bool),
    /// The capability failed; `ambiguous` is set when it may have left
    /// partially constructed state behind.
    Failed { ambiguous: bool },
}

/// Why an operation was refused before the capability was invoked.
#[derive(Clone, Copy, Debug, PartialEq, Eq, Structural)]
pub enum Refusal {
    /// The session is not in a state from which the operation may start.
    Precondition { current: LifecycleState, requested: Operation },
    /// A backup was requested with no paths.
    EmptyPathList,
}

/// The states from which `op` may start.
pub open spec fn permitted(state: LifecycleState, op: Operation) -> bool {
    match op {
        Operation::Exists => state != LifecycleState::Faulted,
        Operation::Init => state == LifecycleState::NotInitialized || state
            == LifecycleState::Unknown,
        Operation::Open => state == LifecycleState::Initialized || state == LifecycleState::Opened,
        Operation::Index => state == LifecycleState::Opened,
        Operation::Backup => state == LifecycleState::Indexed,
    }
}

/// Admission of `op` with `path_count` paths (only a backup carries paths):
/// the state is checked first, then the payload.
pub open spec fn admission(state: LifecycleState, op: Operation, path_count: nat) -> Result<
    (),
    Refusal,
> {
    if !permitted(state, op) {
        Err(Refusal::Precondition { current: state, requested: op })
    } else if op == Operation::Backup && path_count == 0 {
        Err(Refusal::EmptyPathList)
    } else {
        Ok(())
    }
}

/// The state after the capability ran `op` from `state` and reported `outcome`.
/// An operation that was not permitted changes nothing.
pub open spec fn next_state(
    state: LifecycleState,
    op: Operation,
    outcome: CapabilityOutcome,
) -> LifecycleState {
    if !permitted(state, op) {
        state
    } else {
        match outcome {
            CapabilityOutcome::Failed { ambiguous } => match op {
                Operation::Init => if ambiguous {
                    LifecycleState::Faulted
                } else {
                    state
                },
                Operation::Open => LifecycleState::Faulted,
                _ => state,
            },
            _ => match op {
                Operation::Exists => state,
                Operation::Init => LifecycleState::Initialized,
                Operation::Open => LifecycleState::Opened,
                Operation::Index => LifecycleState::Indexed,
                Operation::Backup => state,
            },
        }
    }
}

/// Whether `op` may start from `state`.
pub fn is_permitted(state: LifecycleState, op: Operation) -> (r: bool)
    ensures
        r == permitted(state, op),
{
    match op {
        Operation::Exists => state != LifecycleState::Faulted,
        Operation::Init => state == LifecycleState::NotInitialized || state
            == LifecycleState::Unknown,
        Operation::Open => state == LifecycleState::Initialized || state == LifecycleState::Opened,
        Operation::Index => state == LifecycleState::Opened,
        Operation::Backup => state == LifecycleState::Indexed,
    }
}

/// Decides whether `op` carrying `path_count` paths may be handed to the
/// repository capability from `state`.
pub fn check_admission(state: LifecycleState, op: Operation, path_count: usize) -> (r: Result<(), Refusal>)
    ensures
        r == admission(state, op, path_count as nat),
{
    if !is_permitted(state, op) {
        Err(Refusal::Precondition { current: state, requested: op })
    } else if op == Operation::Backup && path_count == 0 {
        Err(Refusal::EmptyPathList)
    } else {
        Ok(())
    }
}

/// The states from which `op` may start, for reporting a refused operation.
pub fn required_states(op: Operation) -> (r: Vec<LifecycleState>)
    ensures
        forall|s: LifecycleState| r@.contains(s) <==> permitted(s, op),
{
    let r = match op {
        Operation::Exists => vec![
            LifecycleState::Unknown,
            LifecycleState::NotInitialized,
            LifecycleState::Initialized,
            LifecycleState::Opened,
            LifecycleState::Indexed,
        ],
        Operation::Init => vec![LifecycleState::Unknown, LifecycleState::NotInitialized],
        Operation::Open => vec![LifecycleState::Initialized, LifecycleState::Opened],
        Operation::Index => vec![LifecycleState::Opened],
        Operation::Backup => vec![LifecycleState::Indexed],
    };
    assert forall|s: LifecycleState| permitted(s, op) implies r@.contains(s) by {
        let i: int = match s {
            LifecycleState::Unknown => 0,
            LifecycleState::NotInitialized => 1,
            LifecycleState::Initialized => if op == Operation::Open { 0 } else { 2 },
            LifecycleState::Opened => if op == Operation::Exists { 3 } else if op == Operation::Open { 1 } else { 0 },
            LifecycleState::Indexed => if op == Operation::Exists { 4 } else { 0 },
            LifecycleState::Faulted => 0,
        };
        assert(r@[i] == s);
    }
    r
}

/// The state left behind once the capability ran `op` and reported `outcome`.
pub fn transition(state: LifecycleState, op: Operation, outcome: CapabilityOutcome) -> (r:
    LifecycleState)
    ensures
        r == next_state(state, op, outcome),
{
    if !is_permitted(state, op) {
        return state;
    }
    match outcome {
        CapabilityOutcome::Failed { ambiguous } => match op {
            Operation::Init => if ambiguous {
                LifecycleState::Faulted
            } else {
                state
            },
            Operation::Open => LifecycleState::Faulted,
            _ => state,
        },
        _ => success_state(state, op),
    }
}

/// The state after `op` succeeded.
fn success_state(state: LifecycleState, op: Operation) -> (r: LifecycleState)
    requires
        permitted(state, op),
    ensures
        r == next_state(state, op, CapabilityOutcome::Completed),
        forall|found: bool| r == next_state(state, op, CapabilityOutcome::Present(found)),
{
    match op {
        Operation::Exists => state,
        Operation::Init => LifecycleState::Initialized,
        Operation::Open => LifecycleState::Opened,
        Operation::Index => LifecycleState::Indexed,
        Operation::Backup => state,
    }
}

/// The outcome reported for an initialisation that failed, given whether the
/// repository's config file could afterwards be found (`None` when that query
/// failed too). A config file left behind, or no way to tell, means the
/// repository may be partly written.
pub fn init_failure_outcome(config_present: Option<bool>) -> (r: CapabilityOutcome)
    ensures
        r == (CapabilityOutcome::Failed {
            ambiguous: match config_present {
                Some(found) => found,
                None => true,
            },
        }),
{
    match config_present {
        Some(found) => CapabilityOutcome::Failed { ambiguous: found },
        None => CapabilityOutcome::Failed { ambiguous: true },
    }
}

/// The presence query never changes a session's state, whatever it reports.
pub proof fn exists_leaves_state(state: LifecycleState, outcome: CapabilityOutcome)
    ensures
        next_state(state, Operation::Exists, outcome) == state,
{
}

/// Asking for presence again with the same answer changes nothing: the
/// session stays where the first query left it, and the second query is
/// admitted exactly when the first was.
pub proof fn exists_is_idempotent(state: LifecycleState, found: bool, path_count: nat)
    ensures
        next_state(
            next_state(state, Operation::Exists, CapabilityOutcome::Present(found)),
            Operation::Exists,
            CapabilityOutcome::Present(found),
        ) == next_state(state, Operation::Exists, CapabilityOutcome::Present(found)),
        admission(
            next_state(state, Operation::Exists, CapabilityOutcome::Present(found)),
            Operation::Exists,
            path_count,
        ) == admission(state, Operation::Exists, path_count),
{
}

/// Of two initialisations of one session, run one after the other under its
/// exclusive access, the second is refused with a precondition error unless
/// the first failed without constructing anything.
pub proof fn init_constructs_at_most_once(
    state: LifecycleState,
    first: CapabilityOutcome,
    path_count: nat,
)
    requires
        first != (CapabilityOutcome::Failed { ambiguous: false }),
    ensures
        admission(next_state(state, Operation::Init, first), Operation::Init, path_count) == Err::<
            (),
            Refusal,
        >(
            Refusal::Precondition {
                current: next_state(state, Operation::Init, first),
                requested: Operation::Init,
            },
        ),
{
}

/// A backup requested on an opened but not yet indexed session is refused
/// with a precondition error, and whatever is reported the state stays `Opened`.
pub proof fn backup_needs_index(path_count: nat, outcome: CapabilityOutcome)
    ensures
        admission(LifecycleState::Opened, Operation::Backup, path_count) == Err::<(), Refusal>(
            Refusal::Precondition { current: LifecycleState::Opened, requested: Operation::Backup },
        ),
        next_state(LifecycleState::Opened, Operation::Backup, outcome) == LifecycleState::Opened,
{
}

/// A faulted session refuses every operation and stays faulted.
pub proof fn faulted_is_sticky(op: Operation, outcome: CapabilityOutcome, path_count: nat)
    ensures
        admission(LifecycleState::Faulted, op, path_count) is Err,
        next_state(LifecycleState::Faulted, op, outcome) == LifecycleState::Faulted,
{
}

} // verus!
