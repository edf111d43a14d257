//! The leaf primitives the orchestrator rests on: the edge-triggered
//! file-watcher latch, the exit-status mapping of the process runner,
//! and the readiness-poll step for freshly spawned services.
//!
//! The latch is modelled exactly: the unverified shell owns the
//! recursive filesystem watch and forwards each relevant notification
//! through `notify`; `enable` and `poll_next` carry the whole gating
//! discipline and are verified against the transition functions below.

use vstd::prelude::*;

use crate::errors::MuCliError;

verus! {

/// The number of seconds a readiness poll suspends between connection
/// attempts. Retries are unbounded by design.
pub const RETRY_INTERVAL_SECS: u64 = 1;

/// One step of a readiness poll: either the endpoint accepted, or try
/// again after the fixed interval. There is no timeout and no error.
#[derive(Clone, Copy, Debug, PartialEq, Eq, Structural)]
pub enum PollStep {
    Ready,
    RetryAfterInterval,
}

/// Decide one readiness-poll step from one connection attempt.
pub fn readiness_step(connected: bool) -> (r: PollStep)
    ensures
        r is Ready <==> connected,
{
    if connected {
        PollStep::Ready
    } else {
        PollStep::RetryAfterInterval
    }
}

/// Map a finished subprocess's exit status to the engine's
/// success/failure split: success is silent, a non-zero exit is the
/// given fatal error. Nothing is retried.
pub fn exit_to_result(success: bool, failure: MuCliError) -> (r: Result<(), MuCliError>)
    ensures
        success ==> r == Ok::<(), MuCliError>(()),
        !success ==> r == Err::<(), MuCliError>(failure),
{
    if success {
        Ok(())
    } else {
        Err(failure)
    }
}

/// The latch over one directory's recursive change notifications.
/// Notifications buffer in `queued` whatever the latch's state; while
/// the latch is disabled they are never observed, and arming the latch
/// first forgets them. An armed latch resolves at most once: the
/// resolving poll disarms it again.
#[derive(Clone, Copy, Debug, PartialEq, Eq, Structural)]
pub struct MyWatcher {
    pub queued: u64,
    pub enabled: bool,
}

/// One change notification arrives: it is queued (the queue is
/// unbounded in spirit; the count saturates at the type's limit, far
/// beyond any real burst).
pub open spec fn spec_notify(w: MyWatcher) -> MyWatcher {
    if w.queued < u64::MAX {
        MyWatcher { queued: (w.queued + 1) as u64, enabled: w.enabled }
    } else {
        w
    }
}

/// `k` change notifications arrive in a row.
pub open spec fn spec_notify_n(w: MyWatcher, k: nat) -> MyWatcher
    decreases k,
{
    if k == 0 {
        w
    } else {
        spec_notify(spec_notify_n(w, (k - 1) as nat))
    }
}

/// Arm the latch: stale queued notifications are drained first, so
/// changes made during an inactive window are forgotten, not replayed.
pub open spec fn spec_enable(w: MyWatcher) -> MyWatcher {
    MyWatcher { queued: 0, enabled: true }
}

/// Poll the latch: an armed latch with a pending notification consumes
/// one and resolves, disarming itself; anything else stays pending.
pub open spec fn spec_poll(w: MyWatcher) -> (MyWatcher, bool) {
    if w.enabled && w.queued > 0 {
        (MyWatcher { queued: (w.queued - 1) as u64, enabled: false }, true)
    } else {
        (w, false)
    }
}

impl MyWatcher {
    /// A fresh latch: disabled, nothing queued. The shell pairs it with
    /// a recursive watch over one unit's root.
    pub fn new() -> (r: MyWatcher)
        ensures
            r.queued == 0,
            !r.enabled,
    {
        MyWatcher { queued: 0, enabled: false }
    }

    /// One relevant change notification (create, modify or remove)
    /// forwarded by the shell's watch callback.
    pub fn notify(&mut self)
        ensures
            *final(self) == spec_notify(*old(self)),
    {
        if self.queued < u64::MAX {
            self.queued = self.queued + 1;
        }
    }

    /// Drain whatever queued up while the latch was inactive, then arm
    /// it for exactly one future notification.
    pub fn enable(&mut self)
        ensures
            *final(self) == spec_enable(*old(self)),
    {
        self.queued = 0;
        self.enabled = true;
    }

    /// Resolve if armed and a notification is pending; the latch disarms
    /// itself on resolution and must be explicitly re-enabled to fire
    /// again.
    pub fn poll_next(&mut self) -> (ready: bool)
        ensures
            (*final(self), ready) == spec_poll(*old(self)),
    {
        if self.enabled && self.queued > 0 {
            self.queued = self.queued - 1;
            self.enabled = false;
            true
        } else {
            false
        }
    }
}

/// How a burst of notifications moves the latch: the armed/disarmed
/// state never changes, and the queue grows by exactly the burst size
/// (up to saturation).
pub proof fn lemma_notify_n_facts(w: MyWatcher, k: nat)
    ensures
        spec_notify_n(w, k).enabled == w.enabled,
        w.queued + k <= u64::MAX ==> spec_notify_n(w, k).queued == w.queued + k,
        w.queued + k > u64::MAX ==> spec_notify_n(w, k).queued == u64::MAX,
    decreases k,
{
    if k > 0 {
        lemma_notify_n_facts(w, (k - 1) as nat);
    }
}

/// No replay of pre-arm events: a latch that was disabled while any
/// number of notifications arrived, then enabled, drains them first —
/// the poll right after arming never resolves with a stale
/// notification.
pub proof fn lemma_enable_drains_stale(w: MyWatcher, k: nat)
    ensures
        ({
            let armed = spec_enable(spec_notify_n(w, k));
            &&& armed.queued == 0
            &&& !spec_poll(armed).1
            &&& spec_poll(armed).0 == armed
        }),
{
}

/// At most one resolution per arm: once an armed latch has pending
/// notifications, polling resolves exactly once and disarms the latch;
/// every further poll stays pending, no matter how many more
/// notifications arrive, until the latch is enabled again.
pub proof fn lemma_at_most_one_per_arm(w: MyWatcher, m: nat)
    requires
        m >= 1,
    ensures
        ({
            let pending = spec_notify_n(spec_enable(w), m);
            let (fired, ready) = spec_poll(pending);
            &&& ready
            &&& !fired.enabled
            &&& forall|j: nat| !spec_poll(#[trigger] spec_notify_n(fired, j)).1
        }),
{
    lemma_notify_n_facts(spec_enable(w), m);
    let pending = spec_notify_n(spec_enable(w), m);
    let (fired, ready) = spec_poll(pending);
    assert forall|j: nat| !spec_poll(#[trigger] spec_notify_n(fired, j)).1 by {
        lemma_notify_n_facts(fired, j);
    }
}

} // verus!
