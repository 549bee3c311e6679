//! The reconnect supervisor of a node, as a state machine: the caller opens
//! connections, waits and sleeps; the machine decides what comes next.

use vstd::prelude::*;

verus! {

/// The first reconnect delay, in seconds.
pub const BACKOFF_BASE_SECS: u64 = 1;

/// The longest reconnect delay, in seconds.
pub const BACKOFF_MAX_SECS: u64 = 30;

/// `2^n`.
pub open spec fn pow2(n: nat) -> nat
    decreases n,
{
    if n == 0 { 1 } else { 2 * pow2((n - 1) as nat) }
}

/// The reconnect delay in seconds before the attempt after `attempt`
/// failures: one second, doubled for each attempt up to five, at most 30.
pub open spec fn backoff_secs(attempt: nat) -> nat {
    let f: nat = (BACKOFF_BASE_SECS as nat) * pow2(if attempt < 5 { attempt } else { 5 });
    if f < BACKOFF_MAX_SECS { f } else { BACKOFF_MAX_SECS as nat }
}

/// The duration of a whole number of seconds (`Duration::from_secs`).
pub uninterp spec fn secs_duration(secs: u64) -> core::time::Duration;

/// `Duration::from_secs`. The contract names the result, which depends on
/// `secs` alone.
#[verifier::external_body]
fn duration_from_secs(secs: u64) -> (r: core::time::Duration)
    ensures
        r == secs_duration(secs),
{
    core::time::Duration::from_secs(secs)
}

/// The reconnect delay in seconds before the attempt after `attempt` failures.
pub fn backoff_delay_secs(attempt: u32) -> (r: u64)
    ensures
        r == backoff_secs(attempt as nat),
{
    let shift: u32 = if attempt < 5 { attempt } else { 5 };
    let mut f: u64 = 1;
    let mut k: u32 = 0;
    while k < shift
        invariant
            k <= shift <= 5,
            f == pow2(k as nat),
            f <= 32,
        decreases shift - k,
    {
        assert(pow2((k + 1) as nat) == 2 * pow2(k as nat));
        assert(k < 5);
        assert(pow2(k as nat) <= 16) by {
            assert(pow2(0) == 1);
            assert(pow2(1) == 2);
            assert(pow2(2) == 4);
            assert(pow2(3) == 8);
            assert(pow2(4) == 16);
        }
        f = f * 2;
        k = k + 1;
    }
    let secs = BACKOFF_BASE_SECS * f;
    if secs < BACKOFF_MAX_SECS { secs } else { BACKOFF_MAX_SECS }
}

/// The reconnect delay before the attempt after `attempt` failures: one
/// second, doubled for each attempt, at most 30 seconds.
pub fn backoff(attempt: u32) -> (r: core::time::Duration)
    ensures
        r == secs_duration(backoff_secs(attempt as nat) as u64),
{
    duration_from_secs(backoff_delay_secs(attempt))
}

/// What happened to the connection that the supervisor asked for.
#[derive(Clone, Copy, PartialEq, Eq, Structural, Debug)]
pub enum ConnectionEvent {
    /// The connection is up and the node sent `ready`.
    Ready,
    /// A connection that was ready has closed.
    Closed,
    /// The connection could not be opened, or closed before `ready`.
    Failed,
}

/// What the supervisor does next.
#[derive(Debug)]
pub enum SupervisorAction {
    /// Mark the node connected and wait for the connection to close;
    /// `report_ready` says whether the caller of `connect` is to be told.
    Serve { report_ready: bool },
    /// The first connection failed: tell the caller of `connect` and stop
    /// (no retries for a node that never connected).
    GiveUp,
    /// Reconnecting is off: stop.
    Stop,
    /// Sleep this long, then open a new connection.
    Retry { delay_secs: u64, delay: core::time::Duration },
}

/// The state of the reconnect supervisor.
#[derive(Clone, Copy, PartialEq, Eq, Structural, Debug)]
pub struct Supervisor {
    /// No connection has become ready yet (the caller of `connect` waits).
    pub awaiting_first_ready: bool,
    /// Failed or closed connections since the last one that became ready.
    pub attempt: u32,
    /// Whether to reconnect after a connection ends.
    pub reconnect: bool,
}

/// The model of a supervisor action.
pub enum ActionView {
    Serve { report_ready: bool },
    GiveUp,
    Stop,
    Retry { delay_secs: nat },
}

impl SupervisorAction {
    pub open spec fn model(&self) -> ActionView {
        match self {
            SupervisorAction::Serve { report_ready } => ActionView::Serve { report_ready: *report_ready },
            SupervisorAction::GiveUp => ActionView::GiveUp,
            SupervisorAction::Stop => ActionView::Stop,
            SupervisorAction::Retry { delay_secs, .. } => ActionView::Retry { delay_secs: *delay_secs as nat },
        }
    }

    /// A `Retry` carries its delay both in seconds and as a duration.
    pub open spec fn well_formed(&self) -> bool {
        match self {
            SupervisorAction::Retry { delay_secs, delay } => *delay == secs_duration(*delay_secs),
            _ => true,
        }
    }
}

/// `attempt + 1`, staying at `u32::MAX`.
pub open spec fn next_attempt(a: u32) -> u32 {
    if a < u32::MAX { (a + 1) as u32 } else { a }
}

/// After a connection ended: stop when reconnecting is off, else wait the
/// backoff for the current attempt and count one more attempt.
pub open spec fn retry_step(s: Supervisor) -> (Supervisor, ActionView) {
    if !s.reconnect {
        (s, ActionView::Stop)
    } else {
        (Supervisor { attempt: next_attempt(s.attempt), ..s }, ActionView::Retry { delay_secs: backoff_secs(s.attempt as nat) })
    }
}

/// One step of the supervisor.
pub open spec fn supervisor_step(s: Supervisor, e: ConnectionEvent) -> (Supervisor, ActionView) {
    match e {
        ConnectionEvent::Ready => (
            Supervisor { awaiting_first_ready: false, attempt: 0, ..s },
            ActionView::Serve { report_ready: s.awaiting_first_ready },
        ),
        ConnectionEvent::Closed => retry_step(s),
        ConnectionEvent::Failed => if s.awaiting_first_ready {
            (Supervisor { awaiting_first_ready: false, ..s }, ActionView::GiveUp)
        } else {
            retry_step(s)
        },
    }
}

impl Supervisor {
    /// A supervisor for a node that has not connected yet.
    pub fn new(reconnect: bool) -> (r: Supervisor)
        ensures
            r == (Supervisor { awaiting_first_ready: true, attempt: 0, reconnect }),
    {
        Supervisor { awaiting_first_ready: true, attempt: 0, reconnect }
    }

    fn retry(&mut self) -> (a: SupervisorAction)
        ensures
            (*final(self), a.model()) == retry_step(*old(self)),
            a.well_formed(),
    {
        if !self.reconnect {
            SupervisorAction::Stop
        } else {
            let secs = backoff_delay_secs(self.attempt);
            let delay = duration_from_secs(secs);
            self.attempt = self.attempt.saturating_add(1);
            SupervisorAction::Retry { delay_secs: secs, delay }
        }
    }

    /// Decides what follows an event on the current connection.
    pub fn step(&mut self, event: ConnectionEvent) -> (a: SupervisorAction)
        ensures
            (*final(self), a.model()) == supervisor_step(*old(self), event),
            a.well_formed(),
    {
        match event {
            ConnectionEvent::Ready => {
                let report_ready = self.awaiting_first_ready;
                self.awaiting_first_ready = false;
                self.attempt = 0;
                SupervisorAction::Serve { report_ready }
            },
            ConnectionEvent::Closed => self.retry(),
            ConnectionEvent::Failed => {
                if self.awaiting_first_ready {
                    self.awaiting_first_ready = false;
                    SupervisorAction::GiveUp
                } else {
                    self.retry()
                }
            },
        }
    }
}

/// Every reconnect delay is between one and 30 seconds.
pub proof fn lemma_backoff_bounds(attempt: nat)
    ensures
        1 <= backoff_secs(attempt) <= 30,
{
    reveal_with_fuel(pow2, 6);
}

/// The reconnect delay grows then caps: it doubles with each of the first
/// attempts and stays at 30 seconds from the fifth on.
pub proof fn lemma_backoff_grows_then_caps(attempt: nat)
    ensures
        attempt < 4 ==> backoff_secs(attempt + 1) == 2 * backoff_secs(attempt),
        attempt >= 5 ==> backoff_secs(attempt) == 30,
        backoff_secs(0) == 1,
{
    reveal_with_fuel(pow2, 6);
}

/// A later attempt never waits less than an earlier one.
pub proof fn lemma_backoff_monotone(a: nat, b: nat)
    requires
        a <= b,
    ensures
        backoff_secs(a) <= backoff_secs(b),
{
    reveal_with_fuel(pow2, 6);
}

/// A node that never connected does not retry: a failure before the first
/// `ready` gives up, and nothing after it is a retry.
pub proof fn law_no_retry_before_first_ready(s: Supervisor)
    requires
        s.awaiting_first_ready,
    ensures
        supervisor_step(s, ConnectionEvent::Failed).1 == ActionView::GiveUp,
        !supervisor_step(s, ConnectionEvent::Failed).0.awaiting_first_ready,
{
}

/// With reconnecting off, no event leads to a retry.
pub proof fn law_no_reconnect_never_retries(s: Supervisor, e: ConnectionEvent)
    requires
        !s.reconnect,
    ensures
        !(supervisor_step(s, e).1 is Retry),
        supervisor_step(s, e).0.reconnect == s.reconnect,
{
}

/// A connection that became ready resets the backoff: when it closes, the
/// first reconnect waits one second.
pub proof fn law_ready_resets_backoff(s: Supervisor)
    requires
        s.reconnect,
    ensures
        supervisor_step(s, ConnectionEvent::Ready).0.attempt == 0,
        supervisor_step(supervisor_step(s, ConnectionEvent::Ready).0, ConnectionEvent::Closed).1
            == (ActionView::Retry { delay_secs: 1 }),
{
    reveal_with_fuel(pow2, 2);
}

/// Consecutive reconnect attempts never wait less than the one before, and
/// never more than 30 seconds.
pub proof fn law_retry_delays_nondecreasing(s: Supervisor, e: ConnectionEvent)
    requires
        supervisor_step(s, e).1 is Retry,
        supervisor_step(supervisor_step(s, e).0, ConnectionEvent::Failed).1 is Retry,
    ensures
        supervisor_step(s, e).1->delay_secs <= supervisor_step(supervisor_step(s, e).0, ConnectionEvent::Failed).1->delay_secs,
        supervisor_step(supervisor_step(s, e).0, ConnectionEvent::Failed).1->delay_secs <= 30,
{
    let s1 = supervisor_step(s, e).0;
    lemma_backoff_monotone(s.attempt as nat, s1.attempt as nat);
    lemma_backoff_bounds(s1.attempt as nat);
}

/// The supervisor after a run of events, with the action it took on each.
pub open spec fn run(s: Supervisor, events: Seq<ConnectionEvent>) -> (Supervisor, Seq<ActionView>)
    decreases events.len(),
{
    if events.len() == 0 {
        (s, Seq::empty())
    } else {
        let prev = run(s, events.drop_last());
        let next = supervisor_step(prev.0, events.last());
        (next.0, prev.1.push(next.1))
    }
}

/// The failures and closes since the last `ready` of a run.
pub open spec fn failures_since_ready(events: Seq<ConnectionEvent>) -> nat
    decreases events.len(),
{
    if events.len() == 0 {
        0
    } else if events.last() == ConnectionEvent::Ready {
        0
    } else {
        failures_since_ready(events.drop_last()) + 1
    }
}

/// What the supervisor does on an event after its first `ready`: a ready
/// connection is served without reporting; a failure or a close retries
/// after the backoff of the failures and closes since the last `ready`, or
/// stops when reconnecting is off.
pub open spec fn action_after_first_ready(reconnect: bool, before: Seq<ConnectionEvent>, e: ConnectionEvent) -> ActionView {
    if e == ConnectionEvent::Ready {
        ActionView::Serve { report_ready: false }
    } else if reconnect {
        ActionView::Retry { delay_secs: backoff_secs(failures_since_ready(before)) }
    } else {
        ActionView::Stop
    }
}

/// The attempt count after a run that began ready.
spec fn attempt_after(reconnect: bool, events: Seq<ConnectionEvent>) -> u32 {
    if !reconnect {
        0
    } else if failures_since_ready(events) < u32::MAX {
        failures_since_ready(events) as u32
    } else {
        u32::MAX
    }
}

proof fn lemma_run_from_ready(reconnect: bool, events: Seq<ConnectionEvent>)
    requires
        events.len() >= 1,
        events[0] == ConnectionEvent::Ready,
    ensures
        ({
            let r = run(Supervisor { awaiting_first_ready: true, attempt: 0, reconnect }, events);
            &&& r.0 == (Supervisor { awaiting_first_ready: false, attempt: attempt_after(reconnect, events), reconnect })
            &&& r.1.len() == events.len()
            &&& r.1[0] == (ActionView::Serve { report_ready: true })
            &&& forall|i: int| 1 <= i < events.len() ==> #[trigger] r.1[i] == action_after_first_ready(reconnect, events.take(i), events[i])
        }),
    decreases events.len(),
{
    let s0 = Supervisor { awaiting_first_ready: true, attempt: 0, reconnect };
    let prefix = events.drop_last();
    if events.len() == 1 {
        assert(prefix.len() == 0);
        assert(events.last() == ConnectionEvent::Ready);
    } else {
        lemma_run_from_ready(reconnect, prefix);
        let prev = run(s0, prefix);
        let e = events.last();
        let n = events.len() - 1;
        assert(events.take(n) =~= prefix);
        assert forall|i: int| 1 <= i < n implies prefix.take(i) =~= events.take(i) && prefix[i] == events[i] by {}
        if e != ConnectionEvent::Ready {
            assert(failures_since_ready(events) == failures_since_ready(prefix) + 1);
            reveal_with_fuel(pow2, 6);
        }
        let r = run(s0, events);
        assert forall|i: int| 1 <= i < events.len() implies #[trigger] r.1[i] == action_after_first_ready(reconnect, events.take(i), events[i]) by {
            if i < n {
                assert(r.1[i] == prev.1[i]);
                assert(prefix.take(i) =~= events.take(i));
            }
        }
    }
}

/// Over a whole run whose first connection becomes ready: the caller of
/// `connect` is told once (the first action reports ready, no later one
/// does, and none gives up); every later ready connection is served; every
/// later failure or close retries after the backoff of the failures and
/// closes since the last `ready` (one second after a ready connection
/// closes, doubling up to 30), or stops when reconnecting is off.
pub proof fn law_run_after_first_ready(reconnect: bool, events: Seq<ConnectionEvent>)
    requires
        events.len() >= 1,
        events[0] == ConnectionEvent::Ready,
    ensures
        ({
            let actions = run(Supervisor { awaiting_first_ready: true, attempt: 0, reconnect }, events).1;
            &&& actions.len() == events.len()
            &&& actions[0] == (ActionView::Serve { report_ready: true })
            &&& forall|i: int| 1 <= i < events.len() ==> #[trigger] actions[i] == action_after_first_ready(reconnect, events.take(i), events[i])
        }),
{
    lemma_run_from_ready(reconnect, events);
}

} // verus!
