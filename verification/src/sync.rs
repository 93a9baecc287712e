//! Starting and stopping the sync helper.
//!
//! Both operations are state machines over the supervisor's slot. The caller
//! performs what an action asks for (spawn, probe, kill, notify) and reports
//! the answer as the next event; it holds the lock on the slot for the
//! duration of one call of [`start_sync`] or [`stop_sync`] and never while it
//! carries out an action.

use crate::error::{SyncError, SyncErrorView};
use crate::events::{SinkEvent, SinkEventView};
use crate::health::{
    health_url_of, probe_step, wait_for_health, HealthProbe, HealthProbeView, ProbeAction,
    ProbeActionView, ProbeEvent, ProbePhase,
};
use crate::state::SyncState;
use vstd::prelude::*;

verus! {

/// How long a freshly spawned helper has to become healthy, in milliseconds.
pub const HEALTH_TIMEOUT_MS: u64 = 2000;

/// The name under which the helper binary is bundled with the application.
pub open spec fn helper_name_of() -> Seq<char> {
    "pwman-sync-server"@
}

/// The arguments that the helper is launched with.
pub open spec fn launch_args_of(addr: Seq<char>, base_dir: Seq<char>) -> Seq<Seq<char>> {
    seq!["--addr"@, addr, "--base"@, base_dir]
}

/// The texts of a list of strings.
pub open spec fn texts_of(strings: Seq<String>) -> Seq<Seq<char>> {
    strings.map_values(|s: String| s@)
}

/// The name under which the helper binary is bundled with the application.
pub fn helper_name() -> (name: &'static str)
    ensures
        name@ == helper_name_of(),
{
    "pwman-sync-server"
}

/// The arguments for the helper: `--addr <addr> --base <base_dir>`, with both
/// values passed on as they are.
pub fn launch_args(addr: &str, base_dir: &str) -> (args: Vec<String>)
    ensures
        texts_of(args@) == launch_args_of(addr@, base_dir@),
{
    let mut args: Vec<String> = Vec::new();
    args.push("--addr".to_string());
    args.push(addr.to_string());
    args.push("--base".to_string());
    args.push(base_dir.to_string());
    assert(texts_of(args@) =~= launch_args_of(addr@, base_dir@));
    args
}

/// What the caller reports back to a start in progress.
#[derive(Debug, PartialEq, Eq)]
pub enum StartEvent<H> {
    /// Start was invoked.
    Begin,
    /// The helper was spawned and its output is being forwarded; this is its handle.
    Spawned(H),
    /// The helper could not be spawned; this is the launcher's message.
    SpawnFailed(String),
    /// The answer to a request of the readiness probe.
    Probe(ProbeEvent),
}

/// Mathematical model of a [`StartEvent`].
pub enum StartEventView<H> {
    Begin,
    Spawned(H),
    SpawnFailed(Seq<char>),
    Probe(ProbeEvent),
}

impl<H> View for StartEvent<H> {
    type V = StartEventView<H>;

    open spec fn view(&self) -> StartEventView<H> {
        match self {
            StartEvent::Begin => StartEventView::Begin,
            StartEvent::Spawned(handle) => StartEventView::Spawned(*handle),
            StartEvent::SpawnFailed(message) => StartEventView::SpawnFailed(message@),
            StartEvent::Probe(event) => StartEventView::Probe(*event),
        }
    }
}

/// How a start ends: what is left to do, and what the caller is told.
#[derive(Debug, PartialEq, Eq)]
pub struct Outcome<H> {
    /// A helper to kill before returning; a failure of the kill is ignored.
    pub kill: Option<H>,
    /// A notification to send before returning.
    pub notify: Option<SinkEvent>,
    /// What Start returns.
    pub result: Result<(), SyncError>,
}

/// Mathematical model of an [`Outcome`].
pub struct OutcomeView<H> {
    pub kill: Option<H>,
    pub notify: Option<SinkEventView>,
    pub result: Result<(), SyncErrorView>,
}

/// The model of a fallible result.
pub open spec fn result_view(result: Result<(), SyncError>) -> Result<(), SyncErrorView> {
    match result {
        Ok(_) => Ok(()),
        Err(e) => Err(e@),
    }
}

impl<H> View for Outcome<H> {
    type V = OutcomeView<H>;

    open spec fn view(&self) -> OutcomeView<H> {
        OutcomeView {
            kill: self.kill,
            notify: match self.notify {
                Some(e) => Some(e@),
                None => None,
            },
            result: result_view(self.result),
        }
    }
}

/// What a start asks of the caller next.
#[derive(Debug, PartialEq, Eq)]
pub enum StartAction<H> {
    /// Spawn the helper, begin to forward its events, and report `Spawned`
    /// or `SpawnFailed`.
    Spawn { program: String, args: Vec<String> },
    /// Carry out this request of the readiness probe and report its answer.
    Probe(ProbeAction),
    /// The start is over.
    Finish(Outcome<H>),
    /// The event did not answer the pending request; it comes back
    /// untouched and nothing has changed.
    Rejected(StartEvent<H>),
}

/// Mathematical model of a [`StartAction`].
pub enum StartActionView<H> {
    Spawn { program: Seq<char>, args: Seq<Seq<char>> },
    Probe(ProbeActionView),
    Finish(OutcomeView<H>),
    Rejected(StartEventView<H>),
}

impl<H> View for StartAction<H> {
    type V = StartActionView<H>;

    open spec fn view(&self) -> StartActionView<H> {
        match self {
            StartAction::Spawn { program, args } => StartActionView::Spawn {
                program: program@,
                args: texts_of(args@),
            },
            StartAction::Probe(action) => StartActionView::Probe(action@),
            StartAction::Finish(outcome) => StartActionView::Finish(outcome@),
            StartAction::Rejected(event) => StartActionView::Rejected(event@),
        }
    }
}

/// Where a start stands.
#[derive(Debug, Clone, PartialEq, Eq)]
pub enum StartPhase {
    /// Nothing has happened yet.
    Fresh,
    /// The slot was found empty and the spawn was requested.
    Spawning,
    /// The helper is in the slot and its readiness is being probed.
    Probing(HealthProbe),
    /// The start is over.
    Finished,
}

/// Mathematical model of a [`StartPhase`].
pub enum StartPhaseView {
    Fresh,
    Spawning,
    Probing(HealthProbeView),
    Finished,
}

impl View for StartPhase {
    type V = StartPhaseView;

    open spec fn view(&self) -> StartPhaseView {
        match self {
            StartPhase::Fresh => StartPhaseView::Fresh,
            StartPhase::Spawning => StartPhaseView::Spawning,
            StartPhase::Probing(probe) => StartPhaseView::Probing(probe@),
            StartPhase::Finished => StartPhaseView::Finished,
        }
    }
}

/// One invocation of Start.
#[derive(Debug, Clone, PartialEq, Eq)]
pub struct StartCall {
    /// The address that the helper is to listen on.
    pub addr: String,
    /// The directory that the helper is to serve.
    pub base_dir: String,
    /// Where the start stands.
    pub phase: StartPhase,
}

/// Mathematical model of a [`StartCall`].
pub struct StartCallView {
    pub addr: Seq<char>,
    pub base_dir: Seq<char>,
    pub phase: StartPhaseView,
}

impl View for StartCall {
    type V = StartCallView;

    open spec fn view(&self) -> StartCallView {
        StartCallView { addr: self.addr@, base_dir: self.base_dir@, phase: self.phase@ }
    }
}

impl StartCall {
    /// A start of the helper on `addr` over `base_dir`, with nothing done yet.
    pub fn new(addr: String, base_dir: String) -> (call: StartCall)
        ensures
            call@ == (StartCallView {
                addr: addr@,
                base_dir: base_dir@,
                phase: StartPhaseView::Fresh,
            }),
    {
        StartCall { addr, base_dir, phase: StartPhase::Fresh }
    }
}

/// The probe that a start runs against the helper at `addr`, before its first event.
pub open spec fn fresh_probe(addr: Seq<char>) -> HealthProbeView {
    HealthProbeView {
        url: health_url_of(addr),
        timeout_ms: HEALTH_TIMEOUT_MS,
        phase: ProbePhase::Created,
    }
}

/// The outcome of a start that found a helper already running.
pub open spec fn outcome_already_running<H>() -> OutcomeView<H> {
    OutcomeView { kill: None, notify: None, result: Ok(()) }
}

/// The outcome of a start whose spawn failed with `message`.
pub open spec fn outcome_launch_failed<H>(message: Seq<char>) -> OutcomeView<H> {
    OutcomeView { kill: None, notify: None, result: Err(SyncErrorView::LaunchFailed(message)) }
}

/// The outcome of a start whose helper at `addr` became healthy.
pub open spec fn outcome_ready<H>(addr: Seq<char>) -> OutcomeView<H> {
    OutcomeView { kill: None, notify: Some(SinkEventView::Ready(addr)), result: Ok(()) }
}

/// The outcome of a start whose helper did not become healthy in time, with
/// what the slot held at that moment.
pub open spec fn outcome_timed_out<H>(slot: Option<H>) -> OutcomeView<H> {
    OutcomeView { kill: slot, notify: None, result: Err(SyncErrorView::HealthTimeout) }
}

/// A start's transition function: the slot and the call after `event`, and
/// the request that the caller is to carry out next.
pub open spec fn start_step<H>(
    slot: Option<H>,
    call: StartCallView,
    event: StartEventView<H>,
) -> (Option<H>, StartCallView, StartActionView<H>) {
    match (call.phase, event) {
        (StartPhaseView::Fresh, StartEventView::Begin) => {
            if slot is Some {
                (
                    slot,
                    StartCallView { phase: StartPhaseView::Finished, ..call },
                    StartActionView::Finish(outcome_already_running()),
                )
            } else {
                (
                    slot,
                    StartCallView { phase: StartPhaseView::Spawning, ..call },
                    StartActionView::Spawn {
                        program: helper_name_of(),
                        args: launch_args_of(call.addr, call.base_dir),
                    },
                )
            }
        },
        (StartPhaseView::Spawning, StartEventView::Spawned(handle)) => {
            let (probe, request) = probe_step(fresh_probe(call.addr), ProbeEvent::Begin);
            (
                Some(handle),
                StartCallView { phase: StartPhaseView::Probing(probe), ..call },
                StartActionView::Probe(request),
            )
        },
        (StartPhaseView::Spawning, StartEventView::SpawnFailed(message)) => (
            slot,
            StartCallView { phase: StartPhaseView::Finished, ..call },
            StartActionView::Finish(outcome_launch_failed(message)),
        ),
        (StartPhaseView::Probing(probe), StartEventView::Probe(answer)) => {
            let (next, request) = probe_step(probe, answer);
            match request {
                ProbeActionView::Done(true) => (
                    slot,
                    StartCallView { phase: StartPhaseView::Finished, ..call },
                    StartActionView::Finish(outcome_ready(call.addr)),
                ),
                ProbeActionView::Done(false) => (
                    None,
                    StartCallView { phase: StartPhaseView::Finished, ..call },
                    StartActionView::Finish(outcome_timed_out(slot)),
                ),
                ProbeActionView::Rejected => (slot, call, StartActionView::Rejected(event)),
                _ => (
                    slot,
                    StartCallView { phase: StartPhaseView::Probing(next), ..call },
                    StartActionView::Probe(request),
                ),
            }
        },
        _ => (slot, call, StartActionView::Rejected(event)),
    }
}

/// Advances a start by one event and returns what to do next.
///
/// * On `Begin`, a helper that is already in the slot ends the start with
///   success and nothing spawned; otherwise the spawn is requested.
/// * A failed spawn ends the start with `LaunchFailed` and the slot untouched.
/// * A spawned helper goes into the slot at once, so that a stop can reach
///   it, and the readiness probe begins with a deadline of
///   [`HEALTH_TIMEOUT_MS`].
/// * When the probe finds the helper healthy, the start ends with success
///   and the `ready` notification that carries the address.
/// * When the probe gives up, the slot is emptied, what it held is handed
///   out to be killed, and the start ends with `HealthTimeout`. If a stop
///   has emptied the slot in the meantime there is nothing to kill.
pub fn start_sync<H>(state: &mut SyncState<H>, call: &mut StartCall, event: StartEvent<H>) -> (action:
    StartAction<H>)
    ensures
        (final(state).child, final(call)@, action@) == start_step(
            old(state).child,
            old(call)@,
            event@,
        ),
{
    match event {
        StartEvent::Begin => {
            match call.phase {
                StartPhase::Fresh => {
                    if state.is_running() {
                        call.phase = StartPhase::Finished;
                        StartAction::Finish(Outcome { kill: None, notify: None, result: Ok(()) })
                    } else {
                        call.phase = StartPhase::Spawning;
                        StartAction::Spawn {
                            program: helper_name().to_string(),
                            args: launch_args(call.addr.as_str(), call.base_dir.as_str()),
                        }
                    }
                },
                _ => StartAction::Rejected(StartEvent::Begin),
            }
        },
        StartEvent::Spawned(handle) => {
            match call.phase {
                StartPhase::Spawning => {
                    state.store(handle);
                    let mut probe = HealthProbe::new(call.addr.as_str(), HEALTH_TIMEOUT_MS);
                    let request = wait_for_health(&mut probe, ProbeEvent::Begin);
                    call.phase = StartPhase::Probing(probe);
                    StartAction::Probe(request)
                },
                _ => StartAction::Rejected(StartEvent::Spawned(handle)),
            }
        },
        StartEvent::SpawnFailed(message) => {
            match call.phase {
                StartPhase::Spawning => {
                    call.phase = StartPhase::Finished;
                    StartAction::Finish(
                        Outcome {
                            kill: None,
                            notify: None,
                            result: Err(SyncError::LaunchFailed(message)),
                        },
                    )
                },
                _ => StartAction::Rejected(StartEvent::SpawnFailed(message)),
            }
        },
        StartEvent::Probe(answer) => {
            match &mut call.phase {
                StartPhase::Probing(probe) => {
                    let request = wait_for_health(probe, answer);
                    match request {
                        ProbeAction::Done(true) => {
                            call.phase = StartPhase::Finished;
                            StartAction::Finish(
                                Outcome {
                                    kill: None,
                                    notify: Some(SinkEvent::Ready(call.addr.clone())),
                                    result: Ok(()),
                                },
                            )
                        },
                        ProbeAction::Done(false) => {
                            call.phase = StartPhase::Finished;
                            StartAction::Finish(
                                Outcome {
                                    kill: state.take(),
                                    notify: None,
                                    result: Err(SyncError::HealthTimeout),
                                },
                            )
                        },
                        ProbeAction::Rejected => StartAction::Rejected(StartEvent::Probe(answer)),
                        _ => StartAction::Probe(request),
                    }
                },
                _ => StartAction::Rejected(StartEvent::Probe(answer)),
            }
        },
    }
}

/// What the caller reports back to a stop in progress.
#[derive(Debug, PartialEq, Eq)]
pub enum StopEvent {
    /// Stop was invoked.
    Begin,
    /// The kill was carried out: it succeeded, or failed with this message.
    Killed(Result<(), String>),
}

/// Mathematical model of a [`StopEvent`].
pub enum StopEventView {
    Begin,
    Killed(Result<(), Seq<char>>),
}

impl View for StopEvent {
    type V = StopEventView;

    open spec fn view(&self) -> StopEventView {
        match self {
            StopEvent::Begin => StopEventView::Begin,
            StopEvent::Killed(Ok(_)) => StopEventView::Killed(Ok(())),
            StopEvent::Killed(Err(message)) => StopEventView::Killed(Err(message@)),
        }
    }
}

/// What a stop asks of the caller next.
#[derive(Debug, PartialEq, Eq)]
pub enum StopAction<H> {
    /// Kill this helper and report `Killed`.
    Kill(H),
    /// The stop is over; this is what Stop returns.
    Finish(Result<(), SyncError>),
}

/// Mathematical model of a [`StopAction`].
pub enum StopActionView<H> {
    Kill(H),
    Finish(Result<(), SyncErrorView>),
}

impl<H> View for StopAction<H> {
    type V = StopActionView<H>;

    open spec fn view(&self) -> StopActionView<H> {
        match self {
            StopAction::Kill(handle) => StopActionView::Kill(*handle),
            StopAction::Finish(result) => StopActionView::Finish(result_view(*result)),
        }
    }
}

/// A stop's transition function: the slot after `event`, and the request
/// that the caller is to carry out next.
pub open spec fn stop_step<H>(slot: Option<H>, event: StopEventView) -> (
    Option<H>,
    StopActionView<H>,
) {
    match event {
        StopEventView::Begin => match slot {
            Some(handle) => (None, StopActionView::Kill(handle)),
            None => (None, StopActionView::Finish(Ok(()))),
        },
        StopEventView::Killed(Ok(_)) => (slot, StopActionView::Finish(Ok(()))),
        StopEventView::Killed(Err(message)) => (
            slot,
            StopActionView::Finish(Err(SyncErrorView::KillFailed(message))),
        ),
    }
}

/// Advances a stop by one event and returns what to do next.
///
/// On `Begin` the slot is emptied, whatever follows: a helper that it held
/// is handed out to be killed, and an empty slot ends the stop with success
/// and no kill. The report of the kill ends the stop, with `KillFailed` if
/// the kill failed; the slot stays as it is, so a helper whose kill failed
/// is forgotten all the same.
pub fn stop_sync<H>(state: &mut SyncState<H>, event: StopEvent) -> (action: StopAction<H>)
    ensures
        (final(state).child, action@) == stop_step(old(state).child, event@),
{
    match event {
        StopEvent::Begin => match state.take() {
            Some(handle) => StopAction::Kill(handle),
            None => StopAction::Finish(Ok(())),
        },
        StopEvent::Killed(Ok(_)) => StopAction::Finish(Ok(())),
        StopEvent::Killed(Err(message)) => StopAction::Finish(Err(SyncError::KillFailed(message))),
    }
}

/// What the application's window reports.
#[derive(Clone, Copy, Debug, PartialEq, Eq, Structural)]
pub enum WindowEvent {
    /// The user asked to close the window.
    CloseRequested,
    /// Anything else.
    Other,
}

/// The slot after a window event, and the helper to kill because of it.
pub open spec fn window_step<H>(slot: Option<H>, event: WindowEvent) -> (Option<H>, Option<H>) {
    match event {
        WindowEvent::CloseRequested => (None, slot),
        WindowEvent::Other => (slot, None),
    }
}

/// Reacts to a window event: when the window is about to close, the slot is
/// emptied and the helper that it held is handed out to be killed before the
/// application exits; a failure of that kill is ignored. Any other event
/// leaves the slot alone.
pub fn on_window_event<H>(state: &mut SyncState<H>, event: WindowEvent) -> (kill: Option<H>)
    ensures
        (final(state).child, kill) == window_step(old(state).child, event),
{
    match event {
        WindowEvent::CloseRequested => state.take(),
        WindowEvent::Other => None,
    }
}

} // verus!
