//! What holds of whole runs of the supervisor.
//!
//! The functions of [`crate::sync`] say what one step does. Here their
//! transition functions are folded over sequences of events, and the
//! guarantees that concern more than one step are stated and proved.

use crate::error::SyncErrorView;
use crate::health::{
    deadline_passed, health_url_of, is_healthy, HealthProbeView, ProbeEvent, ProbePhase,
};
use crate::sync::{
    helper_name_of, launch_args_of, outcome_already_running, outcome_ready, outcome_timed_out,
    start_step, stop_step, window_step, StartActionView, StartCallView, StartEventView,
    StartPhaseView, StopActionView, StopEventView, WindowEvent, HEALTH_TIMEOUT_MS,
};
use vstd::multiset::Multiset;
use vstd::prelude::*;

verus! {

/// The slot and the call after a start has been fed `events` in order.
pub open spec fn start_run<H>(
    slot: Option<H>,
    call: StartCallView,
    events: Seq<StartEventView<H>>,
) -> (Option<H>, StartCallView)
    decreases events.len(),
{
    if events.len() == 0 {
        (slot, call)
    } else {
        let before = start_run(slot, call, events.drop_last());
        let after = start_step(before.0, before.1, events.last());
        (after.0, after.1)
    }
}

/// The requests that a start makes while it is fed `events` in order, one
/// for each event.
pub open spec fn start_trace<H>(
    slot: Option<H>,
    call: StartCallView,
    events: Seq<StartEventView<H>>,
) -> Seq<StartActionView<H>>
    decreases events.len(),
{
    if events.len() == 0 {
        Seq::empty()
    } else {
        let before = start_run(slot, call, events.drop_last());
        start_trace(slot, call, events.drop_last()).push(
            start_step(before.0, before.1, events.last()).2,
        )
    }
}

/// One poll of the health endpoint: what the clock read before it, and how
/// the endpoint answered.
pub struct Poll {
    pub at: u64,
    pub response: Option<u16>,
}

/// A poll that was made in time and found the helper not ready.
pub open spec fn poll_failed_in_time(started: u64, poll: Poll) -> bool {
    !deadline_passed(started, HEALTH_TIMEOUT_MS, poll.at) && !is_healthy(poll.response)
}

/// The events by which a start is invoked, the helper is spawned with
/// `handle`, and the probe fixes its deadline at the clock reading `started`.
pub open spec fn launch_events<H>(handle: H, started: u64) -> Seq<StartEventView<H>> {
    seq![
        StartEventView::Begin,
        StartEventView::Spawned(handle),
        StartEventView::Probe(ProbeEvent::Clock(started)),
    ]
}

/// The events of a series of polls, each followed by the pause after it.
pub open spec fn poll_events<H>(polls: Seq<Poll>) -> Seq<StartEventView<H>>
    decreases polls.len(),
{
    if polls.len() == 0 {
        Seq::empty()
    } else {
        poll_events(polls.drop_last()).push(
            StartEventView::Probe(ProbeEvent::Clock(polls.last().at)),
        ).push(StartEventView::Probe(ProbeEvent::Response(polls.last().response))).push(
            StartEventView::Probe(ProbeEvent::Slept),
        )
    }
}

/// The call of `call` while its probe, started at `started`, waits for the
/// clock reading that comes before a poll.
pub open spec fn probing_since(call: StartCallView, started: u64) -> StartCallView {
    StartCallView {
        phase: StartPhaseView::Probing(
            HealthProbeView {
                url: health_url_of(call.addr),
                timeout_ms: HEALTH_TIMEOUT_MS,
                phase: ProbePhase::AwaitingNow { started },
            },
        ),
        ..call
    }
}

/// The request by which `call` has the helper spawned.
pub open spec fn spawn_request<H>(call: StartCallView) -> StartActionView<H> {
    StartActionView::Spawn {
        program: helper_name_of(),
        args: launch_args_of(call.addr, call.base_dir),
    }
}

proof fn lemma_run_push<H>(
    slot: Option<H>,
    call: StartCallView,
    events: Seq<StartEventView<H>>,
    event: StartEventView<H>,
)
    ensures
        start_run(slot, call, events.push(event)) == ({
            let before = start_run(slot, call, events);
            let after = start_step(before.0, before.1, event);
            (after.0, after.1)
        }),
        start_trace(slot, call, events.push(event)) == start_trace(slot, call, events).push(
            start_step(start_run(slot, call, events).0, start_run(slot, call, events).1, event).2,
        ),
{
    assert(events.push(event).drop_last() =~= events);
    assert(events.push(event).last() == event);
}

/// While every poll is made in time and fails, a start on an empty slot
/// keeps probing: the helper sits in the slot, the first request was the
/// spawn, no later one is, and none has ended the start.
pub proof fn started_helper_is_probed<H>(
    call: StartCallView,
    handle: H,
    started: u64,
    polls: Seq<Poll>,
)
    requires
        call.phase is Fresh,
        forall|i: int| 0 <= i < polls.len() ==> poll_failed_in_time(started, #[trigger] polls[i]),
    ensures
        ({
            let events = launch_events(handle, started) + poll_events(polls);
            let trace = start_trace(None, call, events);
            &&& start_run(None, call, events) == (Some(handle), probing_since(call, started))
            &&& trace.len() == events.len()
            &&& trace[0] == spawn_request::<H>(call)
            &&& forall|i: int| 1 <= i < trace.len() ==> #[trigger] trace[i] is Probe
        }),
    decreases polls.len(),
{
    let none: Option<H> = None;
    if polls.len() == 0 {
        let e0 = Seq::<StartEventView<H>>::empty();
        let e1 = e0.push(StartEventView::Begin);
        let e2 = e1.push(StartEventView::Spawned(handle));
        let e3 = e2.push(StartEventView::Probe(ProbeEvent::Clock(started)));
        lemma_run_push(none, call, e0, StartEventView::Begin);
        lemma_run_push(none, call, e1, StartEventView::Spawned(handle));
        lemma_run_push(none, call, e2, StartEventView::Probe(ProbeEvent::Clock(started)));
        assert(launch_events(handle, started) + poll_events::<H>(polls) =~= e3);
        assert(start_run(none, call, e0) == (none, call));
        assert(start_trace(none, call, e0) =~= Seq::empty());
    } else {
        let earlier = polls.drop_last();
        let poll = polls.last();
        started_helper_is_probed(call, handle, started, earlier);
        let e0 = launch_events(handle, started) + poll_events::<H>(earlier);
        let c = StartEventView::<H>::Probe(ProbeEvent::Clock(poll.at));
        let r = StartEventView::<H>::Probe(ProbeEvent::Response(poll.response));
        let s = StartEventView::<H>::Probe(ProbeEvent::Slept);
        let e1 = e0.push(c);
        let e2 = e1.push(r);
        let e3 = e2.push(s);
        lemma_run_push(none, call, e0, c);
        lemma_run_push(none, call, e1, r);
        lemma_run_push(none, call, e2, s);
        assert(poll_failed_in_time(started, polls[polls.len() - 1]));
        assert(launch_events(handle, started) + poll_events::<H>(polls) =~= e3);
    }
}

/// The call of `call` once it is over.
pub open spec fn finished(call: StartCallView) -> StartCallView {
    StartCallView { phase: StartPhaseView::Finished, ..call }
}

/// A start whose helper answers in time succeeds.
///
/// A start is invoked on an empty slot, the helper is spawned, and after any
/// number of failed polls one poll made before the deadline gets a healthy
/// answer. Then the start ends at that answer, with success and the `ready`
/// notification that carries the call's address; the helper stays in the
/// slot; and of all requests only the first is a spawn and only the last
/// ends the start, so the helper is spawned once and `ready` is sent once.
pub proof fn start_succeeds_when_helper_answers<H>(
    call: StartCallView,
    handle: H,
    started: u64,
    polls: Seq<Poll>,
    at: u64,
    answer: Option<u16>,
)
    requires
        call.phase is Fresh,
        forall|i: int| 0 <= i < polls.len() ==> poll_failed_in_time(started, #[trigger] polls[i]),
        !deadline_passed(started, HEALTH_TIMEOUT_MS, at),
        is_healthy(answer),
    ensures
        ({
            let events = (launch_events(handle, started) + poll_events(polls)).push(
                StartEventView::Probe(ProbeEvent::Clock(at)),
            ).push(StartEventView::Probe(ProbeEvent::Response(answer)));
            let trace = start_trace(None, call, events);
            &&& start_run(None, call, events) == (Some(handle), finished(call))
            &&& trace.len() == events.len()
            &&& trace[0] == spawn_request::<H>(call)
            &&& forall|i: int| 1 <= i < trace.len() - 1 ==> #[trigger] trace[i] is Probe
            &&& trace.last() == StartActionView::<H>::Finish(outcome_ready(call.addr))
        }),
{
    let none: Option<H> = None;
    started_helper_is_probed(call, handle, started, polls);
    let e0 = launch_events(handle, started) + poll_events::<H>(polls);
    let c = StartEventView::<H>::Probe(ProbeEvent::Clock(at));
    let r = StartEventView::<H>::Probe(ProbeEvent::Response(answer));
    lemma_run_push(none, call, e0, c);
    lemma_run_push(none, call, e0.push(c), r);
}

/// A start whose helper never answers fails with `HealthTimeout`.
///
/// A start is invoked on an empty slot, the helper is spawned, every poll
/// fails, and then the clock reads past the deadline. Then the start ends at
/// that reading with `HealthTimeout` and no notification, the slot is empty,
/// and the helper has been handed out to be killed.
pub proof fn start_times_out_when_helper_never_answers<H>(
    call: StartCallView,
    handle: H,
    started: u64,
    polls: Seq<Poll>,
    at: u64,
)
    requires
        call.phase is Fresh,
        forall|i: int| 0 <= i < polls.len() ==> poll_failed_in_time(started, #[trigger] polls[i]),
        deadline_passed(started, HEALTH_TIMEOUT_MS, at),
    ensures
        ({
            let events = (launch_events(handle, started) + poll_events(polls)).push(
                StartEventView::Probe(ProbeEvent::Clock(at)),
            );
            let trace = start_trace(None, call, events);
            &&& start_run(None, call, events) == (None::<H>, finished(call))
            &&& trace.len() == events.len()
            &&& trace[0] == spawn_request::<H>(call)
            &&& forall|i: int| 1 <= i < trace.len() - 1 ==> #[trigger] trace[i] is Probe
            &&& trace.last() == StartActionView::<H>::Finish(outcome_timed_out(Some(handle)))
        }),
{
    let none: Option<H> = None;
    started_helper_is_probed(call, handle, started, polls);
    let e0 = launch_events(handle, started) + poll_events::<H>(polls);
    let c = StartEventView::<H>::Probe(ProbeEvent::Clock(at));
    lemma_run_push(none, call, e0, c);
}

/// Start is idempotent: a second start right after a successful one spawns
/// nothing.
///
/// After a start that ended with success as in
/// [`start_succeeds_when_helper_answers`], a second start ends at its first
/// event with success: it requests no spawn, no kill and no notification,
/// and the slot keeps the helper of the first. The first start requested
/// its one spawn, so the two together spawn exactly once.
pub proof fn second_start_spawns_nothing<H>(
    first: StartCallView,
    handle: H,
    started: u64,
    polls: Seq<Poll>,
    at: u64,
    answer: Option<u16>,
    second: StartCallView,
)
    requires
        first.phase is Fresh,
        second.phase is Fresh,
        forall|i: int| 0 <= i < polls.len() ==> poll_failed_in_time(started, #[trigger] polls[i]),
        !deadline_passed(started, HEALTH_TIMEOUT_MS, at),
        is_healthy(answer),
    ensures
        ({
            let events = (launch_events(handle, started) + poll_events(polls)).push(
                StartEventView::Probe(ProbeEvent::Clock(at)),
            ).push(StartEventView::Probe(ProbeEvent::Response(answer)));
            let trace = start_trace(None, first, events);
            let slot = start_run(None, first, events).0;
            let again = seq![StartEventView::<H>::Begin];
            &&& forall|i: int| 0 <= i < trace.len() ==> (#[trigger] trace[i] is Spawn <==> i == 0)
            &&& start_run(slot, second, again) == (Some(handle), finished(second))
            &&& start_trace(slot, second, again) == seq![
                StartActionView::<H>::Finish(outcome_already_running()),
            ]
        }),
{
    start_succeeds_when_helper_answers(first, handle, started, polls, at, answer);
    let slot = Some(handle);
    let e0 = Seq::<StartEventView<H>>::empty();
    lemma_run_push(slot, second, e0, StartEventView::Begin);
    assert(e0.push(StartEventView::Begin) =~= seq![StartEventView::<H>::Begin]);
    assert(start_trace(slot, second, e0) =~= Seq::empty());
    assert(start_trace(slot, second, e0).push(
        StartActionView::<H>::Finish(outcome_already_running()),
    ) =~= seq![StartActionView::<H>::Finish(outcome_already_running())]);
}

/// While every poll is made in time and fails, a start that probes its
/// helper goes on probing, whatever the slot holds, and leaves the slot alone.
pub proof fn probing_goes_on<H>(
    slot: Option<H>,
    call: StartCallView,
    started: u64,
    polls: Seq<Poll>,
)
    requires
        forall|i: int| 0 <= i < polls.len() ==> poll_failed_in_time(started, #[trigger] polls[i]),
    ensures
        ({
            let events = poll_events::<H>(polls);
            let trace = start_trace(slot, probing_since(call, started), events);
            &&& start_run(slot, probing_since(call, started), events) == (
                slot,
                probing_since(call, started),
            )
            &&& trace.len() == events.len()
            &&& forall|i: int| 0 <= i < trace.len() ==> #[trigger] trace[i] is Probe
        }),
    decreases polls.len(),
{
    let probing = probing_since(call, started);
    if polls.len() > 0 {
        let poll = polls.last();
        probing_goes_on(slot, call, started, polls.drop_last());
        let e0 = poll_events::<H>(polls.drop_last());
        let c = StartEventView::<H>::Probe(ProbeEvent::Clock(poll.at));
        let r = StartEventView::<H>::Probe(ProbeEvent::Response(poll.response));
        let s = StartEventView::<H>::Probe(ProbeEvent::Slept);
        lemma_run_push(slot, probing, e0, c);
        lemma_run_push(slot, probing, e0.push(c), r);
        lemma_run_push(slot, probing, e0.push(c).push(r), s);
        assert(poll_failed_in_time(started, polls[polls.len() - 1]));
    }
}

/// A stop that comes in while a start probes its helper wins.
///
/// A start is invoked on an empty slot, the helper is spawned and some
/// polls fail. Then a stop begins: it empties the slot and has the helper
/// killed. The start polls on in vain, and when the clock reads past the
/// deadline it finds the slot empty: it ends with `HealthTimeout` and asks
/// for no second kill.
pub proof fn stop_during_probing_wins<H>(
    call: StartCallView,
    handle: H,
    started: u64,
    before: Seq<Poll>,
    after: Seq<Poll>,
    at: u64,
)
    requires
        call.phase is Fresh,
        forall|i: int| 0 <= i < before.len() ==> poll_failed_in_time(started, #[trigger] before[i]),
        forall|i: int| 0 <= i < after.len() ==> poll_failed_in_time(started, #[trigger] after[i]),
        deadline_passed(started, HEALTH_TIMEOUT_MS, at),
    ensures
        ({
            let probing = start_run(
                None,
                call,
                launch_events(handle, started) + poll_events(before),
            );
            let stopped = stop_step(probing.0, StopEventView::Begin);
            let rest = poll_events::<H>(after).push(StartEventView::Probe(ProbeEvent::Clock(at)));
            &&& probing == (Some(handle), probing_since(call, started))
            &&& stopped == (None::<H>, StopActionView::Kill(handle))
            &&& start_run(stopped.0, probing.1, rest) == (None::<H>, finished(call))
            &&& start_trace(stopped.0, probing.1, rest).last() == StartActionView::<H>::Finish(
                outcome_timed_out(None),
            )
            &&& outcome_timed_out::<H>(None).kill is None
            &&& outcome_timed_out::<H>(None).result == Err::<(), SyncErrorView>(
                SyncErrorView::HealthTimeout,
            )
        }),
{
    let none: Option<H> = None;
    started_helper_is_probed(call, handle, started, before);
    probing_goes_on(none, call, started, after);
    lemma_run_push(
        none,
        probing_since(call, started),
        poll_events::<H>(after),
        StartEventView::Probe(ProbeEvent::Clock(at)),
    );
}

/// Stop is idempotent: whatever the slot holds, it is empty after a stop has
/// begun, and a stop that begins on an empty slot ends at once with success
/// and asks for no kill.
pub proof fn stop_is_idempotent<H>(slot: Option<H>)
    ensures
        stop_step(slot, StopEventView::Begin).0 is None,
        stop_step(stop_step(slot, StopEventView::Begin).0, StopEventView::Begin) == (
            None::<H>,
            StopActionView::<H>::Finish(Ok(())),
        ),
{
}

/// One thing that happens to the supervisor.
pub enum Op<H> {
    /// Start is invoked for this address and directory. It takes effect
    /// only while no earlier start is waiting for its spawn or its probe.
    Invoke { addr: Seq<char>, base_dir: Seq<char> },
    /// An event is reported to the start in progress.
    Start(StartEventView<H>),
    /// An event is reported to a stop.
    Stop(StopEventView),
    /// The window reports an event.
    Window(WindowEvent),
}

/// The supervisor as its callers see it: the slot, and the latest start.
pub struct World<H> {
    pub slot: Option<H>,
    pub call: StartCallView,
}

/// A start that has requested its spawn, or probes its helper.
pub open spec fn in_flight(call: StartCallView) -> bool {
    call.phase is Spawning || call.phase is Probing
}

/// The supervisor after `op`.
pub open spec fn world_step<H>(world: World<H>, op: Op<H>) -> World<H> {
    match op {
        Op::Invoke { addr, base_dir } => if in_flight(world.call) {
            world
        } else {
            World {
                slot: world.slot,
                call: StartCallView { addr, base_dir, phase: StartPhaseView::Fresh },
            }
        },
        Op::Start(event) => {
            let after = start_step(world.slot, world.call, event);
            World { slot: after.0, call: after.1 }
        },
        Op::Stop(event) => World { slot: stop_step(world.slot, event).0, call: world.call },
        Op::Window(event) => World { slot: window_step(world.slot, event).0, call: world.call },
    }
}

/// The helper, if any, that the supervisor takes charge of by `op`: the one
/// whose spawn is reported to a start that waits for it.
pub open spec fn taken_in<H>(world: World<H>, op: Op<H>) -> Multiset<H> {
    match op {
        Op::Start(StartEventView::Spawned(handle)) => if world.call.phase is Spawning {
            Multiset::singleton(handle)
        } else {
            Multiset::empty()
        },
        _ => Multiset::empty(),
    }
}

/// The helper, if any, that the supervisor hands out to be killed by `op`.
pub open spec fn handed_out<H>(world: World<H>, op: Op<H>) -> Multiset<H> {
    match op {
        Op::Start(event) => match start_step(world.slot, world.call, event).2 {
            StartActionView::Finish(outcome) => held(outcome.kill),
            _ => Multiset::empty(),
        },
        Op::Stop(event) => match stop_step(world.slot, event).1 {
            StopActionView::Kill(handle) => Multiset::singleton(handle),
            _ => Multiset::empty(),
        },
        Op::Window(event) => held(window_step(world.slot, event).1),
        Op::Invoke { .. } => Multiset::empty(),
    }
}

/// What a slot holds, as a multiset of at most one helper.
pub open spec fn held<H>(slot: Option<H>) -> Multiset<H> {
    match slot {
        Some(handle) => Multiset::singleton(handle),
        None => Multiset::empty(),
    }
}

/// The supervisor after `ops` in order.
pub open spec fn world_run<H>(world: World<H>, ops: Seq<Op<H>>) -> World<H>
    decreases ops.len(),
{
    if ops.len() == 0 {
        world
    } else {
        world_step(world_run(world, ops.drop_last()), ops.last())
    }
}

/// All helpers that the supervisor takes charge of in the course of `ops`.
pub open spec fn all_taken_in<H>(world: World<H>, ops: Seq<Op<H>>) -> Multiset<H>
    decreases ops.len(),
{
    if ops.len() == 0 {
        Multiset::empty()
    } else {
        all_taken_in(world, ops.drop_last()).add(
            taken_in(world_run(world, ops.drop_last()), ops.last()),
        )
    }
}

/// All helpers that the supervisor hands out to be killed in the course of `ops`.
pub open spec fn all_handed_out<H>(world: World<H>, ops: Seq<Op<H>>) -> Multiset<H>
    decreases ops.len(),
{
    if ops.len() == 0 {
        Multiset::empty()
    } else {
        all_handed_out(world, ops.drop_last()).add(
            handed_out(world_run(world, ops.drop_last()), ops.last()),
        )
    }
}

/// A start that waits for its spawn has found the slot empty, and the slot
/// is empty still.
pub open spec fn orderly<H>(world: World<H>) -> bool {
    world.call.phase is Spawning ==> world.slot is None
}

/// No helper is ever lost, and at most one is alive at a time.
///
/// Starts are invoked one after the other; stops and window events come at
/// any moment, also in the middle of a start; events may be reported in any
/// order. After every such sequence, the helpers that were in the slot at
/// first or were spawned since are exactly those that have been handed out
/// to be killed and the one that the slot holds. So a helper that has not
/// been handed out is in the slot, where the next stop finds it, and there
/// is never more than one.
pub proof fn no_helper_is_lost<H>(world: World<H>, ops: Seq<Op<H>>)
    requires
        orderly(world),
    ensures
        orderly(world_run(world, ops)),
        held(world.slot).add(all_taken_in(world, ops)) == held(world_run(world, ops).slot).add(
            all_handed_out(world, ops),
        ),
        held(world.slot).len() + all_taken_in(world, ops).len() <= all_handed_out(world, ops).len()
            + 1,
    decreases ops.len(),
{
    if ops.len() == 0 {
    } else {
        let earlier = ops.drop_last();
        let op = ops.last();
        no_helper_is_lost(world, earlier);
        let before = world_run(world, earlier);
        let after = world_step(before, op);
        assert(held(before.slot).add(taken_in(before, op)) =~= held(after.slot).add(
            handed_out(before, op),
        ));
        assert(held(world.slot).add(all_taken_in(world, ops)) =~= held(world.slot).add(
            all_taken_in(world, earlier),
        ).add(taken_in(before, op)));
        assert(held(after.slot).add(all_handed_out(world, ops)) =~= held(after.slot).add(
            handed_out(before, op),
        ).add(all_handed_out(world, earlier)));
        assert(held(before.slot).add(all_handed_out(world, earlier)).add(taken_in(before, op))
            =~= held(before.slot).add(taken_in(before, op)).add(all_handed_out(world, earlier)));
    }
    let alive = held(world_run(world, ops).slot);
    assert(alive.len() <= 1);
    assert(held(world.slot).add(all_taken_in(world, ops)).len() == alive.add(
        all_handed_out(world, ops),
    ).len());
}

} // verus!
