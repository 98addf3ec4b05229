//! The availability probe: is any known screensaver service reachable?
//!
//! The probe queries the known services in table order with a synchronous
//! status call (`GetActive`), stopping at the first one that answers
//! without error. Every kind of failure counts the same: service absent,
//! service erroring, call rejected — the cause is discarded.

use vstd::prelude::*;
use crate::services::service_count;

verus! {

/// Where the probe stands: about to query table entry `next`, or decided.
#[derive(Clone, Copy, Debug, PartialEq, Eq, Structural)]
pub enum ProbeState {
    Checking { next: usize },
    Decided { available: bool },
}

/// What the probe does next: issue the status call for table entry
/// `index`, or return its verdict.
#[derive(Clone, Copy, Debug, PartialEq, Eq, Structural)]
pub enum ProbeAction {
    Call { index: usize },
    Finish { available: bool },
}

impl ProbeState {
    /// The query index never runs past the table.
    pub open spec fn wf(self) -> bool {
        match self {
            ProbeState::Checking { next } => next < service_count(),
            _ => true,
        }
    }

    /// The next action, at the specification level.
    pub open spec fn spec_action(self) -> ProbeAction {
        match self {
            ProbeState::Checking { next } => ProbeAction::Call { index: next },
            ProbeState::Decided { available } => ProbeAction::Finish { available },
        }
    }

    /// The state after learning whether the pending status call answered
    /// without error, at the specification level: the first success
    /// decides `true`; a failure moves on to the next entry, or decides
    /// `false` after the last one. A decided probe stays decided.
    pub open spec fn spec_on_result(self, ok: bool) -> ProbeState {
        match self {
            ProbeState::Checking { next } => if ok {
                ProbeState::Decided { available: true }
            } else if next + 1 == service_count() {
                ProbeState::Decided { available: false }
            } else {
                ProbeState::Checking { next: (next + 1) as usize }
            },
            _ => self,
        }
    }

    /// A fresh probe: about to query the first table entry.
    pub fn new() -> (state: Self)
        ensures
            state == (ProbeState::Checking { next: 0usize }),
    {
        ProbeState::Checking { next: 0 }
    }

    /// The next action to take.
    pub fn action(&self) -> (action: ProbeAction)
        ensures
            action == self.spec_action(),
    {
        match self {
            ProbeState::Checking { next } => ProbeAction::Call { index: *next },
            ProbeState::Decided { available } => ProbeAction::Finish { available: *available },
        }
    }

    /// Record whether the pending status call answered without error.
    pub fn on_result(self, ok: bool) -> (state: Self)
        requires
            self.wf(),
        ensures
            state == self.spec_on_result(ok),
            state.wf(),
    {
        match self {
            ProbeState::Checking { next } => if ok {
                ProbeState::Decided { available: true }
            } else if next + 1 == 2 {
                ProbeState::Decided { available: false }
            } else {
                ProbeState::Checking { next: next + 1 }
            },
            other => other,
        }
    }
}

/// The probe's verdict and how many services it queries, as a function of
/// each service's answer: `outcomes[i]` is whether table entry `i` answers
/// its status query without error. The verdict is `true` exactly when some
/// entry answers; the second entry is queried only when the first fails.
pub fn probe_decision(outcomes: &Vec<bool>) -> (r: (bool, usize))
    requires
        outcomes@.len() == service_count(),
    ensures
        r.0 == (outcomes@[0] || outcomes@[1]),
        r.1 == 1 <==> outcomes@[0],
        r.1 == 2 <==> !outcomes@[0],
{
    let mut state = ProbeState::new();
    let mut queried: usize = 0;
    loop
        invariant_except_break
            outcomes@.len() == service_count(),
            state.wf(),
            queried <= service_count(),
            queried == 0 ==> state == (ProbeState::Checking { next: 0usize }),
            queried == 1 ==> state == (if outcomes@[0] {
                ProbeState::Decided { available: true }
            } else {
                ProbeState::Checking { next: 1usize }
            }),
            queried == 2 ==> !outcomes@[0] && state == (ProbeState::Decided {
                available: outcomes@[0] || outcomes@[1],
            }),
        ensures
            (state matches ProbeState::Decided { available } && available == (outcomes@[0]
                || outcomes@[1])),
            queried == 1 <==> outcomes@[0],
            queried == 2 <==> !outcomes@[0],
        decreases service_count() - queried,
    {
        match state.action() {
            ProbeAction::Call { index } => {
                state = state.on_result(outcomes[index]);
                queried = queried + 1;
            },
            ProbeAction::Finish { available: _ } => {
                break ;
            },
        }
    }
    match state {
        ProbeState::Decided { available } => (available, queried),
        ProbeState::Checking { next: _ } => (false, queried),
    }
}

/// The probe after its first `n` status calls have been answered;
/// `outcomes[i]` is whether table entry `i` answers without error.
pub open spec fn run_probe(outcomes: Seq<bool>, n: nat) -> ProbeState
    decreases n,
{
    if n == 0 {
        ProbeState::Checking { next: 0usize }
    } else {
        run_probe(outcomes, (n - 1) as nat).spec_on_result(outcomes[n - 1])
    }
}

/// Law: the probe reports available exactly when at least one known
/// service answers its status query without error; it queries the first
/// table entry first, and the second only when the first failed — after a
/// first success it is already decided and issues no further call.
pub proof fn lemma_probe_available_iff_any_answers(outcomes: Seq<bool>)
    requires
        outcomes.len() == service_count(),
    ensures
        run_probe(outcomes, 0).spec_action() == (ProbeAction::Call { index: 0usize }),
        outcomes[0] ==> run_probe(outcomes, 1) == (ProbeState::Decided { available: true }),
        !outcomes[0] ==> run_probe(outcomes, 1).spec_action() == (ProbeAction::Call {
            index: 1usize,
        }),
        run_probe(outcomes, 2) == (ProbeState::Decided { available: outcomes[0] || outcomes[1] }),
{
    reveal_with_fuel(run_probe, 3);
}

} // verus!
