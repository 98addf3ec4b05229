//! The subscription sequence that registers a lock listener.
//!
//! Registering a listener subscribes to the lock-state signals of every
//! known screensaver service, one request at a time and in table order.
//! If any request fails, the whole registration fails at once and the
//! background forwarding task is never spawned; only when every request
//! succeeded is the task started.

use vstd::prelude::*;
use crate::forward::{invocation_count, StreamEvent};
use crate::services::service_count;

verus! {

/// Where the registration stands: still subscribing (the next table entry
/// to subscribe is `next`), ready to spawn the forwarding task, or failed
/// for good.
#[derive(Clone, Copy, Debug, PartialEq, Eq, Structural)]
pub enum SetupState {
    Subscribing { next: usize },
    Ready,
    Failed,
}

/// What the registration does next: issue the subscription request for
/// table entry `index`, spawn the background forwarding task, or give up
/// and surface the failure to the caller.
#[derive(Clone, Copy, Debug, PartialEq, Eq, Structural)]
pub enum SetupAction {
    Subscribe { index: usize },
    Spawn,
    Fail,
}

impl SetupState {
    /// The subscription index never runs past the table.
    pub open spec fn wf(self) -> bool {
        match self {
            SetupState::Subscribing { next } => next < service_count(),
            _ => true,
        }
    }

    /// The next action, at the specification level.
    pub open spec fn spec_action(self) -> SetupAction {
        match self {
            SetupState::Subscribing { next } => SetupAction::Subscribe { index: next },
            SetupState::Ready => SetupAction::Spawn,
            SetupState::Failed => SetupAction::Fail,
        }
    }

    /// The state after learning whether the pending subscription request
    /// succeeded, at the specification level. A failure is final; success
    /// moves to the next entry, or to `Ready` after the last one. The two
    /// terminal states absorb further results.
    pub open spec fn spec_on_result(self, ok: bool) -> SetupState {
        match self {
            SetupState::Subscribing { next } => if !ok {
                SetupState::Failed
            } else if next + 1 == service_count() {
                SetupState::Ready
            } else {
                SetupState::Subscribing { next: (next + 1) as usize }
            },
            _ => self,
        }
    }

    /// A fresh registration: about to subscribe to the first table entry.
    pub fn new() -> (state: Self)
        ensures
            state == (SetupState::Subscribing { next: 0usize }),
    {
        SetupState::Subscribing { next: 0 }
    }

    /// The next action to take.
    pub fn action(&self) -> (action: SetupAction)
        ensures
            action == self.spec_action(),
    {
        match self {
            SetupState::Subscribing { next } => SetupAction::Subscribe { index: *next },
            SetupState::Ready => SetupAction::Spawn,
            SetupState::Failed => SetupAction::Fail,
        }
    }

    /// Record whether the pending subscription request succeeded.
    pub fn on_result(self, ok: bool) -> (state: Self)
        requires
            self.wf(),
        ensures
            state == self.spec_on_result(ok),
            state.wf(),
    {
        match self {
            SetupState::Subscribing { next } => if !ok {
                SetupState::Failed
            } else if next + 1 == 2 {
                SetupState::Ready
            } else {
                SetupState::Subscribing { next: next + 1 }
            },
            other => other,
        }
    }
}

/// The registration after the first `n` subscription outcomes have come
/// back; `outcomes[i]` is whether the `i`-th issued request succeeded.
pub open spec fn run_setup(outcomes: Seq<bool>, n: nat) -> SetupState
    decreases n,
{
    if n == 0 {
        SetupState::Subscribing { next: 0usize }
    } else {
        run_setup(outcomes, (n - 1) as nat).spec_on_result(outcomes[n - 1])
    }
}

/// Whether a registration run over `outcomes` ends ready to spawn the
/// background task.
pub open spec fn setup_spawns(outcomes: Seq<bool>) -> bool {
    run_setup(outcomes, service_count()) == SetupState::Ready
}

/// How many callback invocations a whole registration run produces when
/// the subscription requests come back as `outcomes` and, were the task
/// spawned, the bus would present the observations `events`: the task runs
/// only after a fully successful registration.
pub open spec fn listener_invocations(outcomes: Seq<bool>, events: Seq<StreamEvent>) -> nat {
    if setup_spawns(outcomes) {
        invocation_count(events)
    } else {
        0
    }
}

/// Law: the registration issues exactly one subscription request per table
/// entry, in table order, and decides to spawn the background task only
/// after the last of them succeeded: while the first `k` requests
/// succeeded, the `k`-th action is the request for entry `k`, and the
/// spawn decision comes when all `service_count()` requests succeeded.
pub proof fn lemma_subscribe_in_table_order(outcomes: Seq<bool>, k: int)
    requires
        outcomes.len() == service_count(),
        0 <= k <= outcomes.len(),
        forall|i: int| 0 <= i < k ==> outcomes[i],
    ensures
        k < outcomes.len() ==> run_setup(outcomes, k as nat).spec_action() == (SetupAction::Subscribe {
            index: k as usize,
        }),
        k == outcomes.len() ==> run_setup(outcomes, k as nat).spec_action() == SetupAction::Spawn,
    decreases k,
{
    if k > 0 {
        lemma_subscribe_in_table_order(outcomes, k - 1);
    }
}

/// Law: if any issued subscription request fails, the registration never
/// reaches the spawn decision, the background task never starts, and the
/// callback is never invoked, whatever the bus would later present.
pub proof fn lemma_failed_subscription_never_spawns(
    outcomes: Seq<bool>,
    events: Seq<StreamEvent>,
    k: int,
)
    requires
        outcomes.len() == service_count(),
        0 <= k < outcomes.len(),
        !outcomes[k],
    ensures
        !setup_spawns(outcomes),
        forall|n: nat| n <= outcomes.len() ==> run_setup(outcomes, n).spec_action()
            != SetupAction::Spawn,
        listener_invocations(outcomes, events) == 0,
{
    assert forall|n: nat| n <= outcomes.len() implies run_setup(outcomes, n).spec_action()
        != SetupAction::Spawn by {
        lemma_not_ready_while_failure_seen(outcomes, n, k);
    }
    lemma_not_ready_while_failure_seen(outcomes, service_count(), k);
}

/// After a failed request the run is in the `Failed` state forever; up to
/// the failing step it is at most still subscribing, with an index no
/// larger than the number of steps taken, so it is never `Ready`.
proof fn lemma_not_ready_while_failure_seen(outcomes: Seq<bool>, n: nat, k: int)
    requires
        0 <= k < outcomes.len(),
        !outcomes[k],
        n <= outcomes.len(),
        outcomes.len() == service_count(),
    ensures
        k < n ==> run_setup(outcomes, n) == SetupState::Failed,
        n <= k ==> run_setup(outcomes, n) == SetupState::Failed || (run_setup(outcomes, n) matches
            SetupState::Subscribing { next } && next <= n),
        run_setup(outcomes, n) != SetupState::Ready,
    decreases n,
{
    if n > 0 {
        lemma_not_ready_while_failure_seen(outcomes, (n - 1) as nat, k);
    }
}

} // verus!
