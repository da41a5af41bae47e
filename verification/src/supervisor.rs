//! The readiness supervisor: a state machine from `Unstarted` through
//! probing, spawning and polling to exactly one terminal outcome, `Ready` or
//! `TimedOut`.
//!
//! The machine is pure: probes, spawns, sleeps and clock reads are performed
//! by the caller, which feeds their results back as events and carries out
//! the returned actions. [`simulate`] runs the whole sequence against a
//! given series of probe results, which is also how the scenario tests
//! exercise it.
use vstd::prelude::*;

use crate::logbuf::LogBuffer;
use crate::logbuf::transcript;

verus! {

#[derive(PartialEq, Eq, Structural, Clone, Copy, Debug)]
pub enum SupervisorState {
    /// Nothing has happened yet.
    Unstarted,
    /// One probe decides whether a server is already listening.
    ProbingExisting,
    /// A server was already listening: nothing was spawned, no handle is
    /// recorded.
    SkippedSpawn,
    /// No server was listening: the sidecar is being spawned.
    Spawning,
    /// The spawned server is being polled until it accepts connections.
    PollingReady,
    /// Terminal: the server is reachable.
    Ready,
    /// Terminal: the server never became reachable within the bound.
    TimedOut,
}

/// What the environment reports back to the machine.
#[derive(PartialEq, Eq, Structural, Clone, Copy, Debug)]
pub enum SupervisorEvent {
    /// Begin the startup sequence.
    Start,
    /// Result of the single probe for an already-running server.
    ExistingProbe(bool),
    /// The sidecar process was spawned and its handle recorded.
    Spawned,
    /// Wall-clock milliseconds since polling began, read at the top of a
    /// polling iteration.
    PollClock(u64),
    /// Result of one liveness probe during polling.
    PollProbe(bool),
    /// No outside work was needed; move on.
    Advance,
}

/// What the caller must do next.
#[derive(PartialEq, Eq, Structural, Clone, Copy, Debug)]
pub enum SupervisorAction {
    /// Probe the port once and report `ExistingProbe`.
    ProbeExisting,
    /// Spawn the sidecar, record its handle, report `Spawned`.
    Spawn,
    /// Read the clock and report `PollClock`.
    CheckClock,
    /// Sleep one poll interval, probe, and report `PollProbe`.
    SleepThenProbe,
    /// Publish `Ok(())` to the readiness slot (no grace period: the server
    /// was already running).
    PublishReady,
    /// Sleep one grace interval, then publish `Ok(())`.
    GraceThenPublishReady,
    /// No outside work: report `Advance`.
    Proceed,
    /// Publish `Err` carrying the timeout message built from the current log
    /// snapshot.
    PublishTimeout,
    /// Nothing: the state is terminal or the event did not apply.
    Idle,
}

pub open spec fn is_terminal(s: SupervisorState) -> bool {
    s == SupervisorState::Ready || s == SupervisorState::TimedOut
}

pub open spec fn publishes(a: SupervisorAction) -> bool {
    a == SupervisorAction::PublishReady || a == SupervisorAction::GraceThenPublishReady || a
        == SupervisorAction::PublishTimeout
}

/// The complete transition table. Events that do not apply to the current
/// state stutter (same state, `Idle`); terminal states absorb every event.
pub open spec fn step_spec(s: SupervisorState, e: SupervisorEvent) -> (
    SupervisorState,
    SupervisorAction,
) {
    match (s, e) {
        (SupervisorState::Unstarted, SupervisorEvent::Start) => (
            SupervisorState::ProbingExisting,
            SupervisorAction::ProbeExisting,
        ),
        (SupervisorState::ProbingExisting, SupervisorEvent::ExistingProbe(listening)) => if listening {
            (SupervisorState::SkippedSpawn, SupervisorAction::Proceed)
        } else {
            (SupervisorState::Spawning, SupervisorAction::Spawn)
        },
        (SupervisorState::SkippedSpawn, SupervisorEvent::Advance) => (
            SupervisorState::Ready,
            SupervisorAction::PublishReady,
        ),
        (SupervisorState::Spawning, SupervisorEvent::Spawned) => (
            SupervisorState::PollingReady,
            SupervisorAction::CheckClock,
        ),
        (SupervisorState::PollingReady, SupervisorEvent::PollClock(elapsed_ms)) => if elapsed_ms
            > crate::READY_TIMEOUT_MS {
            (SupervisorState::TimedOut, SupervisorAction::PublishTimeout)
        } else {
            (SupervisorState::PollingReady, SupervisorAction::SleepThenProbe)
        },
        (SupervisorState::PollingReady, SupervisorEvent::PollProbe(listening)) => if listening {
            (SupervisorState::Ready, SupervisorAction::GraceThenPublishReady)
        } else {
            (SupervisorState::PollingReady, SupervisorAction::CheckClock)
        },
        _ => (s, SupervisorAction::Idle),
    }
}

/// One transition of the supervisor.
pub fn step(s: SupervisorState, e: SupervisorEvent) -> (r: (SupervisorState, SupervisorAction))
    ensures
        r == step_spec(s, e),
{
    match (s, e) {
        (SupervisorState::Unstarted, SupervisorEvent::Start) => (
            SupervisorState::ProbingExisting,
            SupervisorAction::ProbeExisting,
        ),
        (SupervisorState::ProbingExisting, SupervisorEvent::ExistingProbe(listening)) => if listening {
            (SupervisorState::SkippedSpawn, SupervisorAction::Proceed)
        } else {
            (SupervisorState::Spawning, SupervisorAction::Spawn)
        },
        (SupervisorState::SkippedSpawn, SupervisorEvent::Advance) => (
            SupervisorState::Ready,
            SupervisorAction::PublishReady,
        ),
        (SupervisorState::Spawning, SupervisorEvent::Spawned) => (
            SupervisorState::PollingReady,
            SupervisorAction::CheckClock,
        ),
        (SupervisorState::PollingReady, SupervisorEvent::PollClock(elapsed_ms)) => if elapsed_ms
            > crate::READY_TIMEOUT_MS {
            (SupervisorState::TimedOut, SupervisorAction::PublishTimeout)
        } else {
            (SupervisorState::PollingReady, SupervisorAction::SleepThenProbe)
        },
        (SupervisorState::PollingReady, SupervisorEvent::PollProbe(listening)) => if listening {
            (SupervisorState::Ready, SupervisorAction::GraceThenPublishReady)
        } else {
            (SupervisorState::PollingReady, SupervisorAction::CheckClock)
        },
        _ => (s, SupervisorAction::Idle),
    }
}

/// Terminal states absorb every event, and a publish action happens exactly
/// on the transition into a terminal state: each run publishes exactly once.
pub proof fn lemma_publish_exactly_on_terminal_entry(s: SupervisorState, e: SupervisorEvent)
    ensures
        is_terminal(s) ==> step_spec(s, e) == (s, SupervisorAction::Idle),
        publishes(step_spec(s, e).1) <==> (!is_terminal(s) && is_terminal(step_spec(s, e).0)),
{
}

/// The error published on timeout: an explanation followed by the log
/// transcript at that moment.
pub open spec fn timeout_message_spec(log_transcript: Seq<char>) -> Seq<char> {
    "Failed to spawn OpenCode Server. Logs:\n"@ + log_transcript
}

/// Build the timeout error message around a log snapshot.
pub fn timeout_message(log_snapshot: &str) -> (r: String)
    ensures
        r@ == timeout_message_spec(log_snapshot@),
{
    let mut out = String::new();
    out.append("Failed to spawn OpenCode Server. Logs:\n");
    out.append(log_snapshot);
    out
}

/// Whether the `k`-th poll probe reports a listening server; probes beyond
/// the given series report not-listening.
pub open spec fn probe_at(probes: Seq<bool>, k: nat) -> bool {
    k < probes.len() && probes[k as int]
}

/// Number of the last polling iteration whose clock check can still pass:
/// at iteration `k` the elapsed time is `k` poll intervals, and the first
/// `k` with `k * POLL_INTERVAL_MS > READY_TIMEOUT_MS` times out.
pub open spec fn last_poll() -> nat {
    (crate::READY_TIMEOUT_MS / crate::POLL_INTERVAL_MS) as nat
}

/// Outcome of the polling loop started at iteration `k`: whether the server
/// became ready, and the elapsed milliseconds when the loop ended. On
/// success the elapsed time counts the sleeps up to and including the
/// successful probe plus the warm-up grace interval.
pub open spec fn poll_from(probes: Seq<bool>, k: nat) -> (bool, nat)
    decreases last_poll() + 1 - k,
    when k <= last_poll() + 1
{
    if k * crate::POLL_INTERVAL_MS > crate::READY_TIMEOUT_MS {
        (false, (k * crate::POLL_INTERVAL_MS) as nat)
    } else if probe_at(probes, k) {
        (true, ((k + 1) * crate::POLL_INTERVAL_MS + crate::POLL_INTERVAL_MS) as nat)
    } else {
        poll_from(probes, k + 1)
    }
}

/// If no probe ever reports a listening server, polling ends not-ready at
/// the first clock check past the bound: one poll interval past
/// `READY_TIMEOUT_MS`, never earlier, never later.
pub proof fn lemma_never_listening_times_out(probes: Seq<bool>, k: nat)
    requires
        k <= last_poll() + 1,
        forall|j: nat| k <= j <= last_poll() ==> !probe_at(probes, j),
    ensures
        poll_from(probes, k) == (false, (crate::READY_TIMEOUT_MS + crate::POLL_INTERVAL_MS) as nat),
    decreases last_poll() + 1 - k,
{
    if k * crate::POLL_INTERVAL_MS > crate::READY_TIMEOUT_MS {
        assert(k == last_poll() + 1);
        assert(k * crate::POLL_INTERVAL_MS == crate::READY_TIMEOUT_MS + crate::POLL_INTERVAL_MS);
    } else {
        assert(k <= last_poll());
        assert(!probe_at(probes, k));
        lemma_never_listening_times_out(probes, k + 1);
    }
}

/// If the first listening probe is the `f`-th, polling ends ready with
/// elapsed time `(f + 1)` poll intervals plus the grace interval.
pub proof fn lemma_first_listening_ready(probes: Seq<bool>, k: nat, f: nat)
    requires
        k <= f <= last_poll(),
        probe_at(probes, f),
        forall|j: nat| k <= j < f ==> !probe_at(probes, j),
    ensures
        poll_from(probes, k) == (
            true,
            ((f + 1) * crate::POLL_INTERVAL_MS + crate::POLL_INTERVAL_MS) as nat,
        ),
    decreases f - k,
{
    if k < f {
        lemma_first_listening_ready(probes, k + 1, f);
    }
}

/// Result of one whole supervisor run.
pub struct SimulationResult {
    pub final_state: SupervisorState,
    pub outcome: Result<(), String>,
    /// Whether this run spawned the sidecar itself (and so recorded a
    /// handle).
    pub spawned: bool,
    /// Elapsed polling milliseconds when the run ended; `0` when nothing
    /// was spawned.
    pub elapsed_ms: u64,
}

/// Drive the state machine through a whole run: one probe for an existing
/// server, then — if nothing listens — a spawn and the bounded polling loop,
/// where the `k`-th probe reports `probes[k]` (not-listening once the series
/// is exhausted). `logs` is the log buffer whose snapshot a timeout embeds.
pub fn simulate(existing: bool, probes: &Vec<bool>, logs: &LogBuffer) -> (r: SimulationResult)
    ensures
        existing ==> r.final_state == SupervisorState::Ready && r.outcome == Ok::<(), String>(())
            && !r.spawned && r.elapsed_ms == 0,
        !existing ==> r.spawned && r.elapsed_ms == poll_from(probes@, 0).1,
        !existing && poll_from(probes@, 0).0 ==> r.final_state == SupervisorState::Ready
            && r.outcome == Ok::<(), String>(()),
        !existing && !poll_from(probes@, 0).0 ==> r.final_state == SupervisorState::TimedOut && (
        r.outcome matches Err(m) && m@ == timeout_message_spec(transcript(logs@))),
{
    let (s1, _a1) = step(SupervisorState::Unstarted, SupervisorEvent::Start);
    let (s2, _a2) = step(s1, SupervisorEvent::ExistingProbe(existing));
    if existing {
        let (s3, _a3) = step(s2, SupervisorEvent::Advance);
        return SimulationResult {
            final_state: s3,
            outcome: Ok(()),
            spawned: false,
            elapsed_ms: 0,
        };
    }
    let (mut state, _a3) = step(s2, SupervisorEvent::Spawned);
    let mut k: usize = 0;
    loop
        invariant
            !existing,
            state == SupervisorState::PollingReady,
            k <= last_poll() + 1,
            poll_from(probes@, 0) == poll_from(probes@, k as nat),
        decreases last_poll() + 1 - k,
    {
        let elapsed: u64 = (k as u64) * crate::POLL_INTERVAL_MS;
        let (ns, _na) = step(state, SupervisorEvent::PollClock(elapsed));
        if elapsed > crate::READY_TIMEOUT_MS {
            let msg = timeout_message(logs.snapshot().as_str());
            return SimulationResult {
                final_state: ns,
                outcome: Err(msg),
                spawned: true,
                elapsed_ms: elapsed,
            };
        }
        let listening = if k < probes.len() {
            probes[k]
        } else {
            false
        };
        let (ns2, _na2) = step(ns, SupervisorEvent::PollProbe(listening));
        if listening {
            let done: u64 = ((k + 1) as u64) * crate::POLL_INTERVAL_MS + crate::POLL_INTERVAL_MS;
            return SimulationResult {
                final_state: ns2,
                outcome: Ok(()),
                spawned: true,
                elapsed_ms: done,
            };
        }
        state = ns2;
        k = k + 1;
    }
}

} // verus!
