//! Readiness probing of the sync helper.
//!
//! The probe polls `http://<address>/health` at a fixed interval until it gets
//! a 2xx answer or its deadline has passed. It is written as a state machine:
//! [`wait_for_health`] takes the answer to the previous request and returns the
//! next request, so the caller does the waiting and this module the deciding.

use vstd::prelude::*;
use vstd::string::StringExecFns;

verus! {

/// Pause between two polls of the health endpoint, in milliseconds.
pub const POLL_INTERVAL_MS: u64 = 120;

/// What the caller reports back to the probe.
#[derive(Clone, Copy, Debug, PartialEq, Eq, Structural)]
pub enum ProbeEvent {
    /// The probe is to start.
    Begin,
    /// The monotonic clock was read; the value is in milliseconds.
    Clock(u64),
    /// The request ended: with this HTTP status, or without any answer.
    Response(Option<u16>),
    /// The pause is over.
    Slept,
}

/// Where a probe stands. `started` is the clock reading from which the
/// deadline counts.
#[derive(Clone, Copy, Debug, PartialEq, Eq, Structural)]
pub enum ProbePhase {
    /// Not started yet.
    Created,
    /// Waiting for the clock reading that fixes the deadline.
    AwaitingStart,
    /// Waiting for the clock reading that is held against the deadline.
    AwaitingNow { started: u64 },
    /// Waiting for the answer of the health endpoint.
    AwaitingResponse { started: u64 },
    /// Waiting for the pause between two polls to end.
    AwaitingWake { started: u64 },
    /// Over: the helper was found healthy, or the deadline passed.
    Finished(bool),
}

/// What the probe asks of the caller next.
#[derive(Clone, Debug, PartialEq, Eq)]
pub enum ProbeAction {
    /// Read the monotonic clock and report `Clock`.
    ReadClock,
    /// Send a GET request to this URL and report `Response`.
    Get(String),
    /// Pause for so many milliseconds and report `Slept`.
    Sleep(u64),
    /// The probe is over; the helper is healthy, or it is not.
    Done(bool),
    /// The event did not answer the pending request; nothing has changed.
    Rejected,
}

/// Mathematical model of a [`ProbeAction`].
pub enum ProbeActionView {
    ReadClock,
    Get(Seq<char>),
    Sleep(u64),
    Done(bool),
    Rejected,
}

impl View for ProbeAction {
    type V = ProbeActionView;

    open spec fn view(&self) -> ProbeActionView {
        match self {
            ProbeAction::ReadClock => ProbeActionView::ReadClock,
            ProbeAction::Get(url) => ProbeActionView::Get(url@),
            ProbeAction::Sleep(ms) => ProbeActionView::Sleep(*ms),
            ProbeAction::Done(healthy) => ProbeActionView::Done(*healthy),
            ProbeAction::Rejected => ProbeActionView::Rejected,
        }
    }
}

/// One run of the readiness probe against one address.
#[derive(Clone, Debug, PartialEq, Eq)]
pub struct HealthProbe {
    /// The URL that is polled.
    pub url: String,
    /// How long after its start the probe gives up, in milliseconds.
    pub timeout_ms: u64,
    /// Where the probe stands.
    pub phase: ProbePhase,
}

/// Mathematical model of a [`HealthProbe`].
pub struct HealthProbeView {
    pub url: Seq<char>,
    pub timeout_ms: u64,
    pub phase: ProbePhase,
}

impl View for HealthProbe {
    type V = HealthProbeView;

    open spec fn view(&self) -> HealthProbeView {
        HealthProbeView { url: self.url@, timeout_ms: self.timeout_ms, phase: self.phase }
    }
}

/// The readiness URL of the helper that listens on `addr`.
pub open spec fn health_url_of(addr: Seq<char>) -> Seq<char> {
    "http://"@ + addr + "/health"@
}

/// An answer counts as healthy when it carries a status from 200 to 299.
/// No answer at all (the connection was refused) counts like any other failure.
pub open spec fn is_healthy(response: Option<u16>) -> bool {
    response matches Some(status) && 200 <= status <= 299
}

/// The deadline has passed when the clock reads more than `timeout_ms` past `started`.
pub open spec fn deadline_passed(started: u64, timeout_ms: u64, now: u64) -> bool {
    now > started + timeout_ms
}

/// The probe's transition function: the state after `event`, and the request
/// that the caller is to carry out next.
pub open spec fn probe_step(probe: HealthProbeView, event: ProbeEvent) -> (
    HealthProbeView,
    ProbeActionView,
) {
    match (probe.phase, event) {
        (ProbePhase::Created, ProbeEvent::Begin) => (
            HealthProbeView { phase: ProbePhase::AwaitingStart, ..probe },
            ProbeActionView::ReadClock,
        ),
        (ProbePhase::AwaitingStart, ProbeEvent::Clock(now)) => (
            HealthProbeView { phase: ProbePhase::AwaitingNow { started: now }, ..probe },
            ProbeActionView::ReadClock,
        ),
        (ProbePhase::AwaitingNow { started }, ProbeEvent::Clock(now)) => {
            if deadline_passed(started, probe.timeout_ms, now) {
                (
                    HealthProbeView { phase: ProbePhase::Finished(false), ..probe },
                    ProbeActionView::Done(false),
                )
            } else {
                (
                    HealthProbeView { phase: ProbePhase::AwaitingResponse { started }, ..probe },
                    ProbeActionView::Get(probe.url),
                )
            }
        },
        (ProbePhase::AwaitingResponse { started }, ProbeEvent::Response(response)) => {
            if is_healthy(response) {
                (
                    HealthProbeView { phase: ProbePhase::Finished(true), ..probe },
                    ProbeActionView::Done(true),
                )
            } else {
                (
                    HealthProbeView { phase: ProbePhase::AwaitingWake { started }, ..probe },
                    ProbeActionView::Sleep(POLL_INTERVAL_MS),
                )
            }
        },
        (ProbePhase::AwaitingWake { started }, ProbeEvent::Slept) => (
            HealthProbeView { phase: ProbePhase::AwaitingNow { started }, ..probe },
            ProbeActionView::ReadClock,
        ),
        _ => (probe, ProbeActionView::Rejected),
    }
}

/// Builds the readiness URL `http://<addr>/health`.
pub fn health_url(addr: &str) -> (url: String)
    ensures
        url@ == health_url_of(addr@),
{
    let mut url = "http://".to_string();
    url.append(addr);
    url.append("/health");
    url
}

/// Tells whether an answer of the health endpoint means that the helper is ready.
pub fn response_is_healthy(response: Option<u16>) -> (healthy: bool)
    ensures
        healthy == is_healthy(response),
{
    match response {
        Some(status) => 200 <= status && status <= 299,
        None => false,
    }
}

/// Tells whether a probe that started at `started` and allows `timeout_ms`
/// has run out of time when the clock reads `now`.
pub fn past_deadline(started: u64, timeout_ms: u64, now: u64) -> (passed: bool)
    ensures
        passed == deadline_passed(started, timeout_ms, now),
{
    now > started && now - started > timeout_ms
}

impl HealthProbe {
    /// A probe of the helper at `addr` that gives up `timeout_ms` after its start.
    pub fn new(addr: &str, timeout_ms: u64) -> (probe: HealthProbe)
        ensures
            probe@ == (HealthProbeView {
                url: health_url_of(addr@),
                timeout_ms,
                phase: ProbePhase::Created,
            }),
    {
        HealthProbe { url: health_url(addr), timeout_ms, phase: ProbePhase::Created }
    }
}

/// Advances the probe by one event and returns what to do next.
///
/// The probe reads the clock once to fix its deadline. Then, in turn: it reads
/// the clock and gives up if the deadline has passed; it polls the health
/// endpoint and ends with success on a 2xx answer; it pauses for
/// [`POLL_INTERVAL_MS`]. An event that does not answer the pending request is
/// rejected and changes nothing.
pub fn wait_for_health(probe: &mut HealthProbe, event: ProbeEvent) -> (action: ProbeAction)
    ensures
        (final(probe)@, action@) == probe_step(old(probe)@, event),
{
    match (probe.phase, event) {
        (ProbePhase::Created, ProbeEvent::Begin) => {
            probe.phase = ProbePhase::AwaitingStart;
            ProbeAction::ReadClock
        },
        (ProbePhase::AwaitingStart, ProbeEvent::Clock(now)) => {
            probe.phase = ProbePhase::AwaitingNow { started: now };
            ProbeAction::ReadClock
        },
        (ProbePhase::AwaitingNow { started }, ProbeEvent::Clock(now)) => {
            if past_deadline(started, probe.timeout_ms, now) {
                probe.phase = ProbePhase::Finished(false);
                ProbeAction::Done(false)
            } else {
                probe.phase = ProbePhase::AwaitingResponse { started };
                ProbeAction::Get(probe.url.clone())
            }
        },
        (ProbePhase::AwaitingResponse { started }, ProbeEvent::Response(response)) => {
            if response_is_healthy(response) {
                probe.phase = ProbePhase::Finished(true);
                ProbeAction::Done(true)
            } else {
                probe.phase = ProbePhase::AwaitingWake { started };
                ProbeAction::Sleep(POLL_INTERVAL_MS)
            }
        },
        (ProbePhase::AwaitingWake { started }, ProbeEvent::Slept) => {
            probe.phase = ProbePhase::AwaitingNow { started };
            ProbeAction::ReadClock
        },
        _ => ProbeAction::Rejected,
    }
}

} // verus!
