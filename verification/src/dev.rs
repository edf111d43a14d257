//! The development-mode control loop as a state machine: sequence the
//! initial build/deploy of every function, persist, start all frontends
//! and wait for each to become reachable, arm every function's watcher
//! latch, then loop — suspend until one latch resolves, rebuild exactly
//! that function, persist, re-arm only its latch, and watch again.
//!
//! The unverified shell owns the actual subprocesses, file writes and
//! suspension; it performs whatever action `step` returns, feeds
//! filesystem notifications in through `on_notify`, and calls `step`
//! again. Exactly one rebuild runs at a time project-wide: a change
//! observed for another unit while a rebuild is in flight only queues
//! in that unit's latch and is served once control returns to the watch
//! state (proved below).

use vstd::prelude::*;

use crate::util::{spec_enable, spec_notify, spec_poll, MyWatcher};

verus! {

/// Where the loop stands. `Rebuilding`/`Persisting` carry the index of
/// the function being rebuilt: units are identified by their stable
/// position in the project's function list.
#[derive(Clone, Copy, Debug, PartialEq, Eq, Structural)]
pub enum DevPhase {
    /// Sequentially building and deploying each function; `next` is the
    /// first not yet processed.
    Initializing { next: usize },
    /// All functions processed and persisted; frontends start next.
    StartingFrontends,
    /// All frontends reachable; every latch is armed next.
    Arming,
    /// Suspended until any latch resolves.
    Watching,
    /// One function's rebuild (build then deploy) is in flight.
    Rebuilding { idx: usize },
    /// The rebuilt project is being persisted; afterwards only this
    /// unit's latch is re-armed.
    Persisting { idx: usize },
}

/// What the shell must do next.
#[derive(Clone, Copy, Debug, PartialEq, Eq, Structural)]
pub enum DevAction {
    /// Run the full build pipeline, then deploy, for function `idx`;
    /// this occupies the whole loop by design.
    BuildAndDeploy { idx: usize },
    /// Persist the whole project (config then state).
    Save,
    /// Start every frontend's dev server concurrently and suspend until
    /// all of them accept connections.
    StartFrontends,
    /// Suspend until a filesystem notification is delivered through
    /// `on_notify`, then call `step` again.
    Wait,
}

/// The orchestrator: the loop's phase and one watcher latch per
/// function, in the function list's order.
pub struct DevOrchestrator {
    pub phase: DevPhase,
    pub watchers: Vec<MyWatcher>,
}

/// The orchestrator's mathematical model.
pub struct DevModel {
    pub phase: DevPhase,
    pub watchers: Seq<MyWatcher>,
}

impl View for DevOrchestrator {
    type V = DevModel;

    open spec fn view(&self) -> DevModel {
        DevModel { phase: self.phase, watchers: self.watchers@ }
    }
}

/// Every index the phase refers to lies inside the watcher list.
pub open spec fn dev_wf(m: DevModel) -> bool {
    match m.phase {
        DevPhase::Initializing { next } => next <= m.watchers.len(),
        DevPhase::StartingFrontends => true,
        DevPhase::Arming => true,
        DevPhase::Watching => true,
        DevPhase::Rebuilding { idx } => idx < m.watchers.len(),
        DevPhase::Persisting { idx } => idx < m.watchers.len(),
    }
}

/// A latch that would resolve a poll right now.
pub open spec fn ready(w: MyWatcher) -> bool {
    w.enabled && w.queued > 0
}

/// The first ready latch at or after position `i`, if any. The loop
/// polls latches in list order, so the lowest ready index wins.
pub open spec fn first_ready_from(ws: Seq<MyWatcher>, i: int) -> Option<int>
    decreases ws.len() - i,
{
    if i < 0 || i >= ws.len() {
        None
    } else if ready(ws[i]) {
        Some(i)
    } else {
        first_ready_from(ws, i + 1)
    }
}

/// The first ready latch, if any.
pub open spec fn first_ready(ws: Seq<MyWatcher>) -> Option<int> {
    first_ready_from(ws, 0)
}

/// A notification for unit `i` queues in its latch and changes nothing
/// else: no phase transition, no observation.
pub open spec fn spec_on_notify(m: DevModel, i: int) -> DevModel {
    DevModel { phase: m.phase, watchers: m.watchers.update(i, spec_notify(m.watchers[i])) }
}

/// Resolve the watch state: consume one notification from the first
/// ready latch (disarming it) and rebuild that unit, or keep waiting.
pub open spec fn spec_watch_transition(ws: Seq<MyWatcher>) -> (Seq<MyWatcher>, DevPhase, DevAction) {
    match first_ready(ws) {
        Some(i) => (
            ws.update(i, spec_poll(ws[i]).0),
            DevPhase::Rebuilding { idx: i as usize },
            DevAction::BuildAndDeploy { idx: i as usize },
        ),
        None => (ws, DevPhase::Watching, DevAction::Wait),
    }
}

/// The loop's transition function: from the current state to the next
/// state and the action the shell performs before calling `step`
/// again.
pub open spec fn spec_step(m: DevModel) -> (DevModel, DevAction) {
    match m.phase {
        DevPhase::Initializing { next } => {
            if next < m.watchers.len() {
                (
                    DevModel {
                        phase: DevPhase::Initializing { next: (next + 1) as usize },
                        watchers: m.watchers,
                    },
                    DevAction::BuildAndDeploy { idx: next },
                )
            } else {
                (DevModel { phase: DevPhase::StartingFrontends, watchers: m.watchers }, DevAction::Save)
            }
        },
        DevPhase::StartingFrontends => (
            DevModel { phase: DevPhase::Arming, watchers: m.watchers },
            DevAction::StartFrontends,
        ),
        DevPhase::Arming => (
            DevModel {
                phase: DevPhase::Watching,
                watchers: m.watchers.map_values(|w: MyWatcher| spec_enable(w)),
            },
            DevAction::Wait,
        ),
        DevPhase::Watching => {
            let (ws, phase, action) = spec_watch_transition(m.watchers);
            (DevModel { phase, watchers: ws }, action)
        },
        DevPhase::Rebuilding { idx } => (
            DevModel { phase: DevPhase::Persisting { idx }, watchers: m.watchers },
            DevAction::Save,
        ),
        DevPhase::Persisting { idx } => {
            let armed = m.watchers.update(idx as int, spec_enable(m.watchers[idx as int]));
            let (ws, phase, action) = spec_watch_transition(armed);
            (DevModel { phase, watchers: ws }, action)
        },
    }
}

proof fn lemma_first_ready_from_at(ws: Seq<MyWatcher>, lo: int, i: int)
    requires
        0 <= lo <= i < ws.len(),
        ready(ws[i]),
        forall|k: int| lo <= k < i ==> !ready(ws[k]),
    ensures
        first_ready_from(ws, lo) == Some(i),
    decreases i - lo,
{
    if lo < i {
        lemma_first_ready_from_at(ws, lo + 1, i);
    }
}

proof fn lemma_first_ready_from_none(ws: Seq<MyWatcher>, lo: int)
    requires
        0 <= lo,
        forall|k: int| lo <= k < ws.len() ==> !ready(ws[k]),
    ensures
        first_ready_from(ws, lo) is None,
    decreases ws.len() - lo,
{
    if lo < ws.len() {
        lemma_first_ready_from_none(ws, lo + 1);
    }
}

/// The transition function respects the index invariant.
pub proof fn lemma_step_preserves_wf(m: DevModel)
    requires
        dev_wf(m),
    ensures
        dev_wf(spec_step(m).0),
        spec_step(m).1 matches DevAction::BuildAndDeploy { idx } ==> idx < m.watchers.len(),
{
    match m.phase {
        DevPhase::Watching => {
            lemma_first_ready_is_index(m.watchers);
        },
        DevPhase::Persisting { idx } => {
            let armed = m.watchers.update(idx as int, spec_enable(m.watchers[idx as int]));
            lemma_first_ready_is_index(armed);
        },
        _ => {},
    }
}

proof fn lemma_first_ready_is_index(ws: Seq<MyWatcher>)
    ensures
        first_ready(ws) matches Some(i) ==> 0 <= i < ws.len() && ready(ws[i]),
{
    lemma_first_ready_from_is_index(ws, 0);
}

proof fn lemma_first_ready_from_is_index(ws: Seq<MyWatcher>, lo: int)
    ensures
        first_ready_from(ws, lo) matches Some(i) ==> lo <= i < ws.len() && ready(ws[i]),
    decreases ws.len() - lo,
{
    if 0 <= lo < ws.len() && !ready(ws[lo]) {
        lemma_first_ready_from_is_index(ws, lo + 1);
    }
}

impl DevOrchestrator {
    /// A fresh loop over a project with `n_functions` functions: about
    /// to build and deploy the first one, every latch constructed but
    /// not yet armed.
    pub fn new(n_functions: usize) -> (r: DevOrchestrator)
        ensures
            r@.phase == (DevPhase::Initializing { next: 0 }),
            r@.watchers.len() == n_functions,
            forall|i: int|
                0 <= i < n_functions ==> (#[trigger] r@.watchers[i]).queued == 0
                    && !r@.watchers[i].enabled,
            dev_wf(r@),
    {
        let mut watchers: Vec<MyWatcher> = Vec::new();
        let mut i: usize = 0;
        while i < n_functions
            invariant
                i <= n_functions,
                watchers@.len() == i as int,
                forall|j: int|
                    0 <= j < i ==> (#[trigger] watchers@[j]).queued == 0
                        && !watchers@[j].enabled,
            decreases n_functions - i,
        {
            watchers.push(MyWatcher::new());
            i += 1;
        }
        DevOrchestrator { phase: DevPhase::Initializing { next: 0 }, watchers }
    }

    /// A filesystem notification for unit `idx`, forwarded by the
    /// shell's watch callback. It only queues in that unit's latch:
    /// whatever the loop is doing, nothing is observed here.
    pub fn on_notify(&mut self, idx: usize)
        requires
            idx < old(self)@.watchers.len(),
        ensures
            final(self)@ == spec_on_notify(old(self)@, idx as int),
            final(self)@.phase == old(self)@.phase,
    {
        let mut w = self.watchers[idx];
        w.notify();
        self.watchers[idx] = w;
    }

    /// Poll the latches in list order; consume from the first ready one
    /// and report its index, or report that none is ready.
    #[verifier::loop_isolation(false)]
    fn take_first_ready(watchers: &mut Vec<MyWatcher>) -> (r: Option<usize>)
        ensures
            match first_ready(old(watchers)@) {
                Some(i) => r matches Some(ri) && ri as int == i && final(watchers)@ == old(
                    watchers,
                )@.update(i, spec_poll(old(watchers)@[i]).0),
                None => r is None && final(watchers)@ == old(watchers)@,
            },
    {
        let n = watchers.len();
        let mut i: usize = 0;
        while i < n
            invariant
                i <= n,
                n == watchers@.len(),
                watchers@ == old(watchers)@,
                forall|k: int| 0 <= k < i ==> !ready(old(watchers)@[k]),
            decreases n - i,
        {
            let mut w = watchers[i];
            let fired = w.poll_next();
            if fired {
                watchers[i] = w;
                proof {
                    lemma_first_ready_from_at(old(watchers)@, 0, i as int);
                }
                return Some(i);
            }
            proof {
                assert(watchers@ =~= old(watchers)@);
            }
            i += 1;
        }
        proof {
            lemma_first_ready_from_none(old(watchers)@, 0);
        }
        None
    }

    /// Advance the loop by one transition and say what the shell must
    /// do before calling `step` again.
    #[verifier::loop_isolation(false)]
    pub fn step(&mut self) -> (action: DevAction)
        requires
            dev_wf(old(self)@),
        ensures
            (final(self)@, action) == spec_step(old(self)@),
            dev_wf(final(self)@),
            action matches DevAction::BuildAndDeploy { idx } ==> idx < old(
                self,
            )@.watchers.len(),
    {
        proof {
            lemma_step_preserves_wf(old(self)@);
        }
        match self.phase {
            DevPhase::Initializing { next } => {
                if next < self.watchers.len() {
                    self.phase = DevPhase::Initializing { next: next + 1 };
                    DevAction::BuildAndDeploy { idx: next }
                } else {
                    self.phase = DevPhase::StartingFrontends;
                    DevAction::Save
                }
            },
            DevPhase::StartingFrontends => {
                self.phase = DevPhase::Arming;
                DevAction::StartFrontends
            },
            DevPhase::Arming => {
                let n = self.watchers.len();
                let mut i: usize = 0;
                while i < n
                    invariant
                        i <= n,
                        n == self.watchers@.len(),
                        self.watchers@.len() == old(self).watchers@.len(),
                        forall|k: int|
                            0 <= k < i ==> self.watchers@[k] == spec_enable(
                                old(self).watchers@[k],
                            ),
                        forall|k: int|
                            i <= k < n ==> self.watchers@[k] == old(self).watchers@[k],
                        self.phase == old(self)@.phase,
                    decreases n - i,
                {
                    let mut w = self.watchers[i];
                    w.enable();
                    self.watchers[i] = w;
                    i += 1;
                }
                proof {
                    assert(self.watchers@ =~= old(self)@.watchers.map_values(
                        |w: MyWatcher| spec_enable(w),
                    ));
                }
                self.phase = DevPhase::Watching;
                DevAction::Wait
            },
            DevPhase::Watching => {
                match Self::take_first_ready(&mut self.watchers) {
                    Some(idx) => {
                        self.phase = DevPhase::Rebuilding { idx };
                        DevAction::BuildAndDeploy { idx }
                    },
                    None => {
                        self.phase = DevPhase::Watching;
                        DevAction::Wait
                    },
                }
            },
            DevPhase::Rebuilding { idx } => {
                self.phase = DevPhase::Persisting { idx };
                DevAction::Save
            },
            DevPhase::Persisting { idx } => {
                let mut w = self.watchers[idx];
                w.enable();
                self.watchers[idx] = w;
                match Self::take_first_ready(&mut self.watchers) {
                    Some(j) => {
                        self.phase = DevPhase::Rebuilding { idx: j };
                        DevAction::BuildAndDeploy { idx: j }
                    },
                    None => {
                        self.phase = DevPhase::Watching;
                        DevAction::Wait
                    },
                }
            },
        }
    }
}

/// Ordering law of the development loop. While unit `b`'s rebuild is in
/// flight, a change under unit `a`'s root is not observed: it only
/// queues in `a`'s latch and the phase does not move. Once `b`'s rebuild
/// completes, the loop persists the project, re-arms only `b`'s latch
/// (draining it), returns to the watch state and only then observes the
/// queued change — rebuilding `a` next, it being the first ready latch.
pub proof fn lemma_change_during_rebuild_observed_after(m: DevModel, a: usize, b: usize)
    requires
        dev_wf(m),
        m.phase == (DevPhase::Rebuilding { idx: b }),
        a < m.watchers.len(),
        a != b,
        m.watchers[a as int].enabled,
        forall|k: int| 0 <= k < a && k != b ==> !ready(m.watchers[k]),
    ensures
        ({
            let during = spec_on_notify(m, a as int);
            let (saved, act_save) = spec_step(during);
            let (observed, act_next) = spec_step(saved);
            &&& during.phase == m.phase
            &&& act_save == DevAction::Save
            &&& saved.phase == (DevPhase::Persisting { idx: b })
            &&& act_next == (DevAction::BuildAndDeploy { idx: a })
            &&& observed.phase == (DevPhase::Rebuilding { idx: a })
        }),
{
    let during = spec_on_notify(m, a as int);
    let (saved, act_save) = spec_step(during);
    let armed = saved.watchers.update(b as int, spec_enable(saved.watchers[b as int]));
    assert(ready(armed[a as int]));
    assert forall|k: int| 0 <= k < a implies !ready(armed[k]) by {
        if k == b {
            assert(armed[k].queued == 0);
        }
    }
    lemma_first_ready_from_at(armed, 0, a as int);
}

} // verus!
